//! The engine a guest runs on, and admitting a guest into it.
use vstd::prelude::*;
use crate::abi::ABI_VERSION;
use crate::error::{OffloadError, OffloadErrorModel};
use crate::host::InstancePolicy;
use crate::manifest::{result_model, spec_parse_manifest, Manifest};

verus! {

/// A WebAssembly engine that can load a guest module and call its exports.
/// Engines are supplied by the library's users; nothing is assumed of what
/// they return.
pub trait OffloadTarget: Send + Sync {
    /// Loads `module`; called once, before any other method.
    fn prepare(&mut self, module: &[u8]) -> Result<(), OffloadError>;

    /// Calls `export` with the encoded `args` and returns the encoded result.
    fn call_raw(&self, export: &str, args: &[u8], policy: InstancePolicy) -> Result<Vec<u8>, OffloadError>;

    /// The calling-convention version the guest reports.
    fn abi_version(&self) -> Result<u32, OffloadError>;
}

/// What a guest's admission gives, once the engine has answered: an engine
/// failure (while preparing the module or reporting the version) is handed
/// on unchanged; a reported version other than this host's is refused with
/// `AbiVersion`; otherwise the guest's manifest is the one the module
/// carries.
pub fn admit_reported(reported: Result<u32, OffloadError>, module: &[u8]) -> (r: Result<Manifest, OffloadError>)
    ensures
        match reported {
            Err(e) => r == Err::<Manifest, OffloadError>(e),
            Ok(guest) => {
                &&& guest != ABI_VERSION ==> r is Err && r->Err_0@ == (OffloadErrorModel::AbiVersion {
                    host: ABI_VERSION,
                    guest,
                })
                &&& guest == ABI_VERSION ==> result_model(r) == spec_parse_manifest(module@)
            },
        },
{
    match reported {
        Err(e) => Err(e),
        Ok(guest) => Manifest::for_guest(guest, module),
    }
}

/// Loads `module` into `target`, asks the guest for its calling-convention
/// version once the module is prepared, and hands the engine's answer to
/// [`admit_reported`]. Whatever the engine answers, an admitted guest's
/// manifest is exactly the one the module carries.
///
/// The contract says nothing of what the engine answers: engines are
/// supplied by users and promise nothing. What each answer gives is stated
/// by [`admit_reported`].
pub fn admit_guest<T: OffloadTarget + ?Sized>(target: &mut T, module: &[u8]) -> (r: Result<Manifest, OffloadError>)
    ensures
        r is Ok ==> result_model(r) == spec_parse_manifest(module@),
{
    let reported = match target.prepare(module) {
        Ok(()) => target.abi_version(),
        Err(e) => Err(e),
    };
    admit_reported(reported, module)
}

} // verus!
