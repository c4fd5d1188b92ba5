//! The decisions behind `#[offload]`, `include_guest!`, `init_guest!` and
//! `#[derive(AnCompatible)]`: which options are accepted, which signatures
//! and types may cross the boundary, what the generated export is called,
//! what the manifest records, and where a guest artifact is looked up.
//! Reading tokens and writing tokens stays with the macro front end; it
//! hands these functions plain descriptions and gets plain answers back.
use vstd::prelude::*;
use crate::abi::{
    guest_path_env_var, spec_env_suffix, guest_path_env_suffix, sig_hash, fnv1a, str_eq,
    ABI_VERSION, ABI_VERSION_EXPORT, ALLOC_EXPORT, EXPORT_PREFIX, FREE_EXPORT, GUEST_PATH_ENV,
    MEMORY_EXPORT,
};
use crate::manifest::ManifestRecord;
use vstd::utf8::encode_utf8;

verus! {

/// The options `#[offload(...)]` accepts.
#[derive(Clone, Copy, Debug, PartialEq, Eq, Structural)]
pub enum OptionKey {
    /// `export = "name"`: the guest export's name.
    Export,
    /// `deny_floats`: reject floats at the boundary.
    DenyFloats,
    /// `try`: return a `Result` on the host instead of panicking.
    Try,
}

/// Diagnostics of the offload macros.
#[derive(Clone, Debug, PartialEq, Eq)]
pub enum MacroError {
    DuplicateOption(OptionKey),
    UnsupportedOption,
    ReservedExport(String),
    ConstFn,
    AsyncFn,
    ExternFn,
    VariadicFn,
    GenericFn,
    MethodReceiver,
    Reference,
    Slice,
    ImplTrait,
    PointerSized(String),
    Float(String),
    UnionNotAnCompatible,
    AnFieldFloat(String),
    AnFieldPointerSized(String),
    ExpectedGuestSpec,
}

/// The options read so far.
#[derive(Clone, Debug)]
pub struct OffloadOptions {
    pub export: Option<String>,
    pub deny_floats: bool,
    pub try_mode: bool,
}

impl OffloadOptions {
    pub fn new() -> (o: Self)
        ensures
            o.export is None,
            !o.deny_floats,
            !o.try_mode,
    {
        OffloadOptions { export: None, deny_floats: false, try_mode: false }
    }

    /// Takes in the option called `name`. Each option may be given once; the
    /// flags take effect at once, while for `export` the caller reads the
    /// value next and records it with [`Self::set_export`].
    pub fn accept(&mut self, name: &str) -> (r: Result<OptionKey, MacroError>)
        ensures
            name@ == "export"@ ==> (if old(self).export is Some {
                r == Err::<OptionKey, MacroError>(MacroError::DuplicateOption(OptionKey::Export))
            } else {
                r == Ok::<OptionKey, MacroError>(OptionKey::Export)
            }) && final(self).export == old(self).export && final(self).deny_floats
                == old(self).deny_floats && final(self).try_mode == old(self).try_mode,
            name@ == "deny_floats"@ ==> (if old(self).deny_floats {
                r == Err::<OptionKey, MacroError>(MacroError::DuplicateOption(OptionKey::DenyFloats))
                    && final(self).deny_floats
            } else {
                r == Ok::<OptionKey, MacroError>(OptionKey::DenyFloats) && final(self).deny_floats
            }) && final(self).export == old(self).export && final(self).try_mode == old(self).try_mode,
            name@ == "try"@ ==> (if old(self).try_mode {
                r == Err::<OptionKey, MacroError>(MacroError::DuplicateOption(OptionKey::Try))
                    && final(self).try_mode
            } else {
                r == Ok::<OptionKey, MacroError>(OptionKey::Try) && final(self).try_mode
            }) && final(self).export == old(self).export && final(self).deny_floats
                == old(self).deny_floats,
            name@ != "export"@ && name@ != "deny_floats"@ && name@ != "try"@ ==> r
                == Err::<OptionKey, MacroError>(MacroError::UnsupportedOption) && final(self).export
                == old(self).export && final(self).deny_floats == old(self).deny_floats
                && final(self).try_mode == old(self).try_mode,
    {
        proof {
            reveal_strlit("export");
            reveal_strlit("deny_floats");
            reveal_strlit("try");
            assert("export"@.len() != "deny_floats"@.len());
            assert("export"@.len() != "try"@.len());
            assert("deny_floats"@.len() != "try"@.len());
        }
        if str_eq(name, "export") {
            if self.export.is_some() {
                return Err(MacroError::DuplicateOption(OptionKey::Export));
            }
            return Ok(OptionKey::Export);
        }
        if str_eq(name, "deny_floats") {
            if self.deny_floats {
                return Err(MacroError::DuplicateOption(OptionKey::DenyFloats));
            }
            self.deny_floats = true;
            return Ok(OptionKey::DenyFloats);
        }
        if str_eq(name, "try") {
            if self.try_mode {
                return Err(MacroError::DuplicateOption(OptionKey::Try));
            }
            self.try_mode = true;
            return Ok(OptionKey::Try);
        }
        Err(MacroError::UnsupportedOption)
    }

    pub fn set_export(&mut self, value: String)
        ensures
            final(self).export == Some(value),
            final(self).deny_floats == old(self).deny_floats,
            final(self).try_mode == old(self).try_mode,
    {
        self.export = Some(value);
    }
}

/// The exports the guest runtime itself defines.
pub open spec fn is_reserved_export(name: Seq<char>) -> bool {
    name == ALLOC_EXPORT@ || name == FREE_EXPORT@ || name == ABI_VERSION_EXPORT@ || name == MEMORY_EXPORT@
}

/// The name a function's guest export gets: the `export` option if given,
/// else the function's name behind [`EXPORT_PREFIX`].
pub open spec fn spec_export_name(explicit: Option<Seq<char>>, function: Seq<char>) -> Seq<char> {
    match explicit {
        Some(name) => name,
        None => EXPORT_PREFIX@ + function,
    }
}

/// Chooses the guest export's name, refusing the names the runtime reserves.
pub fn resolve_export_name(explicit: Option<&str>, function: &str) -> (r: Result<String, MacroError>)
    ensures
        ({
            let name = spec_export_name(
                match explicit {
                    Some(e) => Some(e@),
                    None => None,
                },
                function@,
            );
            &&& !is_reserved_export(name) ==> r is Ok && r->Ok_0@ == name
            &&& is_reserved_export(name) ==> (r matches Err(MacroError::ReservedExport(n)) && n@ == name)
        }),
{
    let name = match explicit {
        Some(e) => e.to_owned(),
        None => wrapper_name(function),
    };
    if str_eq(name.as_str(), ALLOC_EXPORT) || str_eq(name.as_str(), FREE_EXPORT) || str_eq(
        name.as_str(),
        ABI_VERSION_EXPORT,
    ) || str_eq(name.as_str(), MEMORY_EXPORT) {
        Err(MacroError::ReservedExport(name))
    } else {
        Ok(name)
    }
}

/// The name of the generated guest entry point: the function's name behind
/// [`EXPORT_PREFIX`].
pub fn wrapper_name(function: &str) -> (name: String)
    ensures
        name@ == EXPORT_PREFIX@ + function@,
{
    let mut name = EXPORT_PREFIX.to_owned();
    name.append(function);
    name
}

/// The manifest record of an export whose normalized signature reads
/// `signature`: this calling-convention version and the signature's hash.
pub fn export_record(export: &str, signature: &str) -> (record: ManifestRecord)
    ensures
        record@ == (export@, ABI_VERSION, fnv1a(encode_utf8(signature@))),
{
    ManifestRecord::new(export, ABI_VERSION, sig_hash(signature.as_bytes()))
}

/// Everything the expansion of one offloaded function names: the export the
/// guest defines and the host calls, the generated guest entry point, and
/// the manifest record that ties the export to its signature hash.
#[derive(Clone, Debug)]
pub struct ExportPlan {
    pub export_name: String,
    pub wrapper_name: String,
    pub record: ManifestRecord,
}

/// The `export` option as a character sequence, if given.
pub open spec fn explicit_export(options: OffloadOptions) -> Option<Seq<char>> {
    match options.export {
        Some(e) => Some(e@),
        None => None,
    }
}

/// Plans the expansion of function `function` whose normalized signature
/// reads `signature`. The manifest record names exactly the export the host
/// calls, with this calling-convention version and the signature's hash;
/// a name the guest runtime reserves is refused.
pub fn plan_export(options: &OffloadOptions, function: &str, signature: &str) -> (r: Result<ExportPlan, MacroError>)
    ensures
        ({
            let name = spec_export_name(explicit_export(*options), function@);
            &&& r is Ok <==> !is_reserved_export(name)
            &&& r matches Ok(plan) ==> {
                &&& plan.export_name@ == name
                &&& plan.wrapper_name@ == EXPORT_PREFIX@ + function@
                &&& plan.record@ == (name, ABI_VERSION, fnv1a(encode_utf8(signature@)))
            }
            &&& r matches Err(e) ==> (e matches MacroError::ReservedExport(n) && n@ == name)
        }),
{
    let explicit = match &options.export {
        Some(e) => Some(e.as_str()),
        None => None,
    };
    let export_name = match resolve_export_name(explicit, function) {
        Ok(name) => name,
        Err(e) => return Err(e),
    };
    let record = export_record(export_name.as_str(), signature);
    Ok(ExportPlan { export_name, wrapper_name: wrapper_name(function), record })
}

/// What a walk over a type found that the boundary may not carry: for
/// each kind, the first place it occurs (a position the caller can map
/// back to source) and, for scalar types, the type's name.
#[derive(Clone, Debug)]
pub struct TypeFindings {
    pub reference: Option<usize>,
    pub slice: Option<usize>,
    pub impl_trait: Option<usize>,
    pub pointer_sized: Option<(usize, String)>,
    pub float: Option<(usize, String)>,
}

pub open spec fn is_pointer_sized_name(name: Seq<char>) -> bool {
    name == "usize"@ || name == "isize"@
}

pub open spec fn is_float_name(name: Seq<char>) -> bool {
    name == "f32"@ || name == "f64"@
}

impl TypeFindings {
    pub fn new() -> (f: Self)
        ensures
            f.reference is None,
            f.slice is None,
            f.impl_trait is None,
            f.pointer_sized is None,
            f.float is None,
    {
        TypeFindings { reference: None, slice: None, impl_trait: None, pointer_sized: None, float: None }
    }

    /// A reference type at `site`; only the first one is kept.
    pub fn note_reference(&mut self, site: usize)
        ensures
            final(self).reference == (if old(self).reference is Some { old(self).reference } else { Some(site) }),
            final(self).slice == old(self).slice,
            final(self).impl_trait == old(self).impl_trait,
            final(self).pointer_sized == old(self).pointer_sized,
            final(self).float == old(self).float,
    {
        if self.reference.is_none() {
            self.reference = Some(site);
        }
    }

    /// A slice type at `site`; only the first one is kept.
    pub fn note_slice(&mut self, site: usize)
        ensures
            final(self).slice == (if old(self).slice is Some { old(self).slice } else { Some(site) }),
            final(self).reference == old(self).reference,
            final(self).impl_trait == old(self).impl_trait,
            final(self).pointer_sized == old(self).pointer_sized,
            final(self).float == old(self).float,
    {
        if self.slice.is_none() {
            self.slice = Some(site);
        }
    }

    /// An `impl Trait` type at `site`; only the first one is kept.
    pub fn note_impl_trait(&mut self, site: usize)
        ensures
            final(self).impl_trait == (if old(self).impl_trait is Some { old(self).impl_trait } else { Some(site) }),
            final(self).reference == old(self).reference,
            final(self).slice == old(self).slice,
            final(self).pointer_sized == old(self).pointer_sized,
            final(self).float == old(self).float,
    {
        if self.impl_trait.is_none() {
            self.impl_trait = Some(site);
        }
    }

    /// A plain type path at `site` whose last segment is `name`:
    /// `usize`/`isize` are pointer-sized, `f32`/`f64` are floats; the first of
    /// each is kept.
    pub fn note_path(&mut self, site: usize, name: &str)
        ensures
            final(self).reference == old(self).reference,
            final(self).slice == old(self).slice,
            final(self).impl_trait == old(self).impl_trait,
            final(self).pointer_sized is Some <==> (old(self).pointer_sized is Some || is_pointer_sized_name(name@)),
            old(self).pointer_sized is Some ==> final(self).pointer_sized == old(self).pointer_sized,
            old(self).pointer_sized is None && is_pointer_sized_name(name@) ==> final(self).pointer_sized->Some_0.0
                == site && final(self).pointer_sized->Some_0.1@ == name@,
            final(self).float is Some <==> (old(self).float is Some || is_float_name(name@)),
            old(self).float is Some ==> final(self).float == old(self).float,
            old(self).float is None && is_float_name(name@) ==> final(self).float->Some_0.0 == site
                && final(self).float->Some_0.1@ == name@,
    {
        if str_eq(name, "usize") || str_eq(name, "isize") {
            if self.pointer_sized.is_none() {
                self.pointer_sized = Some((site, name.to_owned()));
            }
        }
        if str_eq(name, "f32") || str_eq(name, "f64") {
            if self.float.is_none() {
                self.float = Some((site, name.to_owned()));
            }
        }
    }
}

/// Why a type may not cross the boundary, with where it was found.
#[derive(Clone, Debug, PartialEq, Eq)]
pub enum BoundaryError {
    Reference(usize),
    Slice(usize),
    ImplTrait(usize),
    PointerSized(usize, String),
    Float(usize, String),
}

/// The verdict on a type: references, slices, `impl Trait` and
/// pointer-sized integers never cross; floats cross unless `deny_floats`.
/// The first applicable reason, in that order, is reported.
pub open spec fn boundary_verdict(f: TypeFindings, deny_floats: bool) -> Option<BoundaryError> {
    if f.reference is Some {
        Some(BoundaryError::Reference(f.reference->Some_0))
    } else if f.slice is Some {
        Some(BoundaryError::Slice(f.slice->Some_0))
    } else if f.impl_trait is Some {
        Some(BoundaryError::ImplTrait(f.impl_trait->Some_0))
    } else if f.pointer_sized is Some {
        Some(BoundaryError::PointerSized(f.pointer_sized->Some_0.0, f.pointer_sized->Some_0.1))
    } else if deny_floats && f.float is Some {
        Some(BoundaryError::Float(f.float->Some_0.0, f.float->Some_0.1))
    } else {
        None
    }
}


/// Pointer-sized integers never cross, whatever `deny_floats` says: once no
/// reference, slice or `impl Trait` was found, a `usize`/`isize` is refused
/// at the place and under the name it was found.
pub proof fn lemma_pointer_sized_never_crosses(f: TypeFindings, deny_floats: bool)
    requires
        f.reference is None,
        f.slice is None,
        f.impl_trait is None,
        f.pointer_sized is Some,
    ensures
        boundary_verdict(f, deny_floats) == Some(
            BoundaryError::PointerSized(f.pointer_sized->Some_0.0, f.pointer_sized->Some_0.1),
        ),
        boundary_verdict(f, true) == boundary_verdict(f, false),
{
}

/// References, slices and `impl Trait` never cross, under either mode.
pub proof fn lemma_borrowed_and_opaque_types_never_cross(f: TypeFindings, deny_floats: bool)
    ensures
        f.reference is Some ==> boundary_verdict(f, deny_floats) == Some(
            BoundaryError::Reference(f.reference->Some_0),
        ),
        f.reference is None && f.slice is Some ==> boundary_verdict(f, deny_floats) == Some(
            BoundaryError::Slice(f.slice->Some_0),
        ),
        f.reference is None && f.slice is None && f.impl_trait is Some ==> boundary_verdict(
            f,
            deny_floats,
        ) == Some(BoundaryError::ImplTrait(f.impl_trait->Some_0)),
{
}

/// Floats cross exactly when `deny_floats` is off: a type whose only finding
/// is a float is accepted in the default mode and refused, at its place and
/// under its name, under `deny_floats`.
pub proof fn lemma_floats_cross_unless_denied(f: TypeFindings)
    requires
        f.reference is None,
        f.slice is None,
        f.impl_trait is None,
        f.pointer_sized is None,
        f.float is Some,
    ensures
        boundary_verdict(f, false) is None,
        boundary_verdict(f, true) == Some(BoundaryError::Float(f.float->Some_0.0, f.float->Some_0.1)),
{
}

/// A type with none of the refused findings crosses in both modes.
pub proof fn lemma_plain_types_cross(f: TypeFindings, deny_floats: bool)
    requires
        f.reference is None,
        f.slice is None,
        f.impl_trait is None,
        f.pointer_sized is None,
        f.float is None,
    ensures
        boundary_verdict(f, deny_floats) is None,
{
}

/// Checks one argument or return type against the boundary rules.
pub fn validate_boundary_type(findings: &TypeFindings, deny_floats: bool) -> (r: Result<(), BoundaryError>)
    ensures
        match boundary_verdict(*findings, deny_floats) {
            None => r is Ok,
            Some(e) => r == Err::<(), BoundaryError>(e),
        },
{
    if let Some(site) = findings.reference {
        return Err(BoundaryError::Reference(site));
    }
    if let Some(site) = findings.slice {
        return Err(BoundaryError::Slice(site));
    }
    if let Some(site) = findings.impl_trait {
        return Err(BoundaryError::ImplTrait(site));
    }
    if let Some((site, name)) = &findings.pointer_sized {
        return Err(BoundaryError::PointerSized(*site, name.clone()));
    }
    if deny_floats {
        if let Some((site, name)) = &findings.float {
            return Err(BoundaryError::Float(*site, name.clone()));
        }
    }
    Ok(())
}

/// A parameter of the annotated function.
#[derive(Clone, Debug)]
pub enum InputShape {
    /// `self` in any form.
    Receiver,
    /// A typed parameter and what its type contains.
    Typed(TypeFindings),
}

/// What the annotated function's signature looks like.
#[derive(Clone, Debug)]
pub struct SignatureShape {
    pub is_const: bool,
    pub is_async: bool,
    pub is_extern: bool,
    pub is_variadic: bool,
    pub is_generic: bool,
    pub inputs: Vec<InputShape>,
    /// The declared return type, if any.
    pub output: Option<TypeFindings>,
}

/// Why a signature cannot be offloaded.
#[derive(Clone, Debug, PartialEq, Eq)]
pub enum SignatureError {
    ConstFn,
    AsyncFn,
    ExternFn,
    VariadicFn,
    GenericFn,
    /// The parameter at this position is `self`.
    Receiver(usize),
    /// The parameter at this position has a type that cannot cross.
    Input(usize, BoundaryError),
    /// The return type cannot cross.
    Output(BoundaryError),
}

/// The verdict on the parameters from position `i` on.
pub open spec fn inputs_verdict(inputs: Seq<InputShape>, i: int, deny_floats: bool) -> Option<SignatureError>
    decreases inputs.len() - i,
{
    if i < 0 || i >= inputs.len() {
        None
    } else {
        match inputs[i] {
            InputShape::Receiver => Some(SignatureError::Receiver(i as usize)),
            InputShape::Typed(f) => match boundary_verdict(f, deny_floats) {
                Some(e) => Some(SignatureError::Input(i as usize, e)),
                None => inputs_verdict(inputs, i + 1, deny_floats),
            },
        }
    }
}

/// The verdict on a signature: `const`, `async`, `extern`, variadic and
/// generic functions are refused in that order, then the parameters left
/// to right (no `self`, every type must cross), then the return type.
pub open spec fn signature_verdict(s: SignatureShape, deny_floats: bool) -> Option<SignatureError> {
    if s.is_const {
        Some(SignatureError::ConstFn)
    } else if s.is_async {
        Some(SignatureError::AsyncFn)
    } else if s.is_extern {
        Some(SignatureError::ExternFn)
    } else if s.is_variadic {
        Some(SignatureError::VariadicFn)
    } else if s.is_generic {
        Some(SignatureError::GenericFn)
    } else if inputs_verdict(s.inputs@, 0, deny_floats) is Some {
        inputs_verdict(s.inputs@, 0, deny_floats)
    } else {
        match s.output {
            Some(f) => match boundary_verdict(f, deny_floats) {
                Some(e) => Some(SignatureError::Output(e)),
                None => None,
            },
            None => None,
        }
    }
}


/// Parameters are checked in order with the signature's own `deny_floats`:
/// if no function-level problem is present, every parameter before `i`
/// is typed and crosses, and parameter `i` is refused by the boundary rules
/// under the same mode, the signature is refused at parameter `i` with that
/// refusal.
pub proof fn lemma_first_refused_parameter(s: SignatureShape, deny_floats: bool, i: int)
    requires
        !s.is_const && !s.is_async && !s.is_extern && !s.is_variadic && !s.is_generic,
        0 <= i < s.inputs@.len(),
        forall|j: int| 0 <= j < i ==> (#[trigger] s.inputs@[j] matches InputShape::Typed(f)
            && boundary_verdict(f, deny_floats) is None),
        s.inputs@[i] matches InputShape::Typed(f) && boundary_verdict(f, deny_floats) is Some,
    ensures
        s.inputs@[i] matches InputShape::Typed(f) && signature_verdict(s, deny_floats) == Some(
            SignatureError::Input(i as usize, boundary_verdict(f, deny_floats)->Some_0),
        ),
{
    lemma_inputs_verdict_skips(s.inputs@, deny_floats, 0, i);
}

proof fn lemma_inputs_verdict_skips(inputs: Seq<InputShape>, deny_floats: bool, k: int, i: int)
    requires
        0 <= k <= i < inputs.len(),
        forall|j: int| 0 <= j < i ==> (#[trigger] inputs[j] matches InputShape::Typed(f)
            && boundary_verdict(f, deny_floats) is None),
    ensures
        inputs_verdict(inputs, k, deny_floats) == inputs_verdict(inputs, i, deny_floats),
    decreases i - k,
{
    if k < i {
        assert(inputs[k] matches InputShape::Typed(f) && boundary_verdict(f, deny_floats) is None);
        lemma_inputs_verdict_skips(inputs, deny_floats, k + 1, i);
    }
}

/// Under `deny_floats` a float parameter is refused: if parameter `i` is the
/// first whose type is refused and its only finding is a float, the
/// signature is refused at `i` with that float.
pub proof fn lemma_denied_float_parameter(s: SignatureShape, i: int)
    requires
        !s.is_const && !s.is_async && !s.is_extern && !s.is_variadic && !s.is_generic,
        0 <= i < s.inputs@.len(),
        forall|j: int| 0 <= j < i ==> (#[trigger] s.inputs@[j] matches InputShape::Typed(f)
            && boundary_verdict(f, true) is None),
        s.inputs@[i] matches InputShape::Typed(f) && f.reference is None && f.slice is None
            && f.impl_trait is None && f.pointer_sized is None && f.float is Some,
    ensures
        s.inputs@[i] matches InputShape::Typed(f) && signature_verdict(s, true) == Some(
            SignatureError::Input(i as usize, BoundaryError::Float(f.float->Some_0.0, f.float->Some_0.1)),
        ),
{
    lemma_first_refused_parameter(s, true, i);
}

/// Checks that a function can be offloaded.
pub fn validate_signature(shape: &SignatureShape, deny_floats: bool) -> (r: Result<(), SignatureError>)
    ensures
        match signature_verdict(*shape, deny_floats) {
            None => r is Ok,
            Some(e) => r == Err::<(), SignatureError>(e),
        },
{
    if shape.is_const {
        return Err(SignatureError::ConstFn);
    }
    if shape.is_async {
        return Err(SignatureError::AsyncFn);
    }
    if shape.is_extern {
        return Err(SignatureError::ExternFn);
    }
    if shape.is_variadic {
        return Err(SignatureError::VariadicFn);
    }
    if shape.is_generic {
        return Err(SignatureError::GenericFn);
    }
    let mut i: usize = 0;
    while i < shape.inputs.len()
        invariant
            !shape.is_const && !shape.is_async && !shape.is_extern && !shape.is_variadic
                && !shape.is_generic,
            i <= shape.inputs@.len(),
            inputs_verdict(shape.inputs@, 0, deny_floats) == inputs_verdict(shape.inputs@, i as int, deny_floats),
        decreases shape.inputs@.len() - i,
    {
        let input = &shape.inputs[i];
        assert(*input == shape.inputs@[i as int]);
        match input {
            InputShape::Receiver => {
                assert(inputs_verdict(shape.inputs@, i as int, deny_floats) == Some(SignatureError::Receiver(i)));
                return Err(SignatureError::Receiver(i));
            },
            InputShape::Typed(f) => match validate_boundary_type(f, deny_floats) {
                Ok(()) => {},
                Err(e) => {
                    assert(inputs_verdict(shape.inputs@, i as int, deny_floats) == Some(SignatureError::Input(i, e)));
                    return Err(SignatureError::Input(i, e));
                },
            },
        }
        i += 1;
    }
    match &shape.output {
        Some(f) => match validate_boundary_type(f, deny_floats) {
            Ok(()) => Ok(()),
            Err(e) => Err(SignatureError::Output(e)),
        },
        None => Ok(()),
    }
}

/// The verdict on one field of a type deriving `AnCompatible`: no floats,
/// then no pointer-sized integers.
pub fn validate_an_field(findings: &TypeFindings) -> (r: Result<(), BoundaryError>)
    ensures
        findings.float is Some ==> r == Err::<(), BoundaryError>(
            BoundaryError::Float(findings.float->Some_0.0, findings.float->Some_0.1),
        ),
        findings.float is None && findings.pointer_sized is Some ==> r == Err::<(), BoundaryError>(
            BoundaryError::PointerSized(findings.pointer_sized->Some_0.0, findings.pointer_sized->Some_0.1),
        ),
        findings.float is None && findings.pointer_sized is None ==> r is Ok,
{
    if let Some((site, name)) = &findings.float {
        return Err(BoundaryError::Float(*site, name.clone()));
    }
    if let Some((site, name)) = &findings.pointer_sized {
        return Err(BoundaryError::PointerSized(*site, name.clone()));
    }
    Ok(())
}

/// Which guest an `include_guest!`/`init_guest!` invocation names.
#[derive(Clone, Debug)]
pub enum GuestSource {
    /// No argument: the guest this crate's build script built last.
    Default,
    /// A package name: that package's guest.
    Package(String),
    /// `artifact = "dependency"`: an artifact dependency's `cdylib`.
    Artifact(String),
}

/// Where a guest module's path is read from at compile time, and what to
/// say when it is missing.
#[derive(Clone, Debug)]
pub struct GuestLookup {
    pub variable: String,
    pub message: String,
}

pub open spec fn spec_guest_variable(source: GuestSource) -> Seq<char> {
    match source {
        GuestSource::Default => GUEST_PATH_ENV@,
        GuestSource::Package(p) => GUEST_PATH_ENV@ + seq!['_'] + spec_env_suffix(p@),
        GuestSource::Artifact(d) => "CARGO_CDYLIB_FILE_"@ + spec_env_suffix(d@),
    }
}

pub open spec fn spec_guest_hint(source: GuestSource) -> Seq<char> {
    match source {
        GuestSource::Default => "is offload_build::GuestBuilder::new(..).build() called in this crate's build.rs?"@,
        GuestSource::Package(p) => "is offload_build::GuestBuilder::new(\""@ + p@
            + "\").build() called in this crate's build.rs?"@,
        GuestSource::Artifact(d) => "is `"@ + d@ + "` declared as an `artifact = \"cdylib\"` dependency? (requires -Z bindeps)"@,
    }
}

/// The variable to read and the diagnostic for when it is unset.
pub fn guest_lookup(source: &GuestSource) -> (lookup: GuestLookup)
    ensures
        lookup.variable@ == spec_guest_variable(*source),
        lookup.message@ == "offload guest artifact not found ("@ + spec_guest_variable(*source)
            + " is unset): "@ + spec_guest_hint(*source),
{
    let (variable, hint) = match source {
        GuestSource::Default => (
            GUEST_PATH_ENV.to_owned(),
            "is offload_build::GuestBuilder::new(..).build() called in this crate's build.rs?".to_owned(),
        ),
        GuestSource::Package(p) => {
            let mut hint = "is offload_build::GuestBuilder::new(\"".to_owned();
            hint.append(p.as_str());
            hint.append("\").build() called in this crate's build.rs?");
            (guest_path_env_var(p.as_str()), hint)
        },
        GuestSource::Artifact(d) => {
            let mut variable = "CARGO_CDYLIB_FILE_".to_owned();
            let suffix = guest_path_env_suffix(d.as_str());
            variable.append(suffix.as_str());
            let mut hint = "is `".to_owned();
            hint.append(d.as_str());
            hint.append("` declared as an `artifact = \"cdylib\"` dependency? (requires -Z bindeps)");
            (variable, hint)
        },
    };
    let mut message = "offload guest artifact not found (".to_owned();
    message.append(variable.as_str());
    message.append(" is unset): ");
    message.append(hint.as_str());
    GuestLookup { variable, message }
}


/// The text of each diagnostic.
pub open spec fn spec_message(e: MacroError) -> Seq<char> {
    match e {
        MacroError::DuplicateOption(OptionKey::Export) => "duplicate `export` option"@,
        MacroError::DuplicateOption(OptionKey::DenyFloats) => "duplicate `deny_floats` option"@,
        MacroError::DuplicateOption(OptionKey::Try) => "duplicate `try` option"@,
        MacroError::UnsupportedOption => "unsupported offload option; valid options are `export = \"...\"`, `deny_floats`, and `try`"@,
        MacroError::ReservedExport(name) => "export name `"@ + name@ + "` is reserved by the offload guest runtime"@,
        MacroError::ConstFn => "`#[offload]` does not support `const fn` because host calls require a runtime"@,
        MacroError::AsyncFn => "`#[offload]` does not support async functions at the moment"@,
        MacroError::ExternFn => "`#[offload]` does not support extern functions"@,
        MacroError::VariadicFn => "`#[offload]` does not support variadic functions"@,
        MacroError::GenericFn => "`#[offload]` does not support generic functions or where clauses"@,
        MacroError::MethodReceiver => "`#[offload]` only supports standalone functions; methods with `self` are not supported"@,
        MacroError::Reference => "references cannot cross the offload boundary; use owned data instead"@,
        MacroError::Slice => "slice types cannot cross the offload boundary; use `Vec<T>`"@,
        MacroError::ImplTrait => "`impl Trait` cannot appear in an offload signature; use a concrete owned type"@,
        MacroError::PointerSized(name) => "`"@ + name@ + "` cannot cross the 64-bit host / 32-bit guest boundary; use `u32`, `u64`, `i32`, or `i64`"@,
        MacroError::Float(name) => "`"@ + name@ + "` cannot cross an AN-compatible offload boundary"@,
        MacroError::UnionNotAnCompatible => "`AnCompatible` cannot be derived for unions"@,
        MacroError::AnFieldFloat(name) => "`AnCompatible` cannot be derived for a field containing `"@ + name@
            + "`; floating-point values are not supported by AN encoding"@,
        MacroError::AnFieldPointerSized(name) => "`AnCompatible` cannot be derived for a field containing `"@
            + name@ + "`; use a fixed-width integer"@,
        MacroError::ExpectedGuestSpec => "expected `include_guest!()`, `include_guest!(\"package\")`, or `include_guest!(artifact = \"dependency\")`"@,
    }
}

fn quoted_message(before: &str, name: &String, after: &str) -> (m: String)
    ensures
        m@ == before@ + name@ + after@,
{
    let mut m = before.to_owned();
    m.append(name.as_str());
    m.append(after);
    m
}

impl MacroError {
    /// The diagnostic's text.
    pub fn message(&self) -> (m: String)
        ensures
            m@ == spec_message(*self),
    {
        match self {
            MacroError::DuplicateOption(OptionKey::Export) => "duplicate `export` option".to_owned(),
            MacroError::DuplicateOption(OptionKey::DenyFloats) => "duplicate `deny_floats` option".to_owned(),
            MacroError::DuplicateOption(OptionKey::Try) => "duplicate `try` option".to_owned(),
            MacroError::UnsupportedOption => "unsupported offload option; valid options are `export = \"...\"`, `deny_floats`, and `try`".to_owned(),
            MacroError::ReservedExport(name) => quoted_message(
                "export name `",
                name,
                "` is reserved by the offload guest runtime",
            ),
            MacroError::ConstFn => "`#[offload]` does not support `const fn` because host calls require a runtime".to_owned(),
            MacroError::AsyncFn => "`#[offload]` does not support async functions at the moment".to_owned(),
            MacroError::ExternFn => "`#[offload]` does not support extern functions".to_owned(),
            MacroError::VariadicFn => "`#[offload]` does not support variadic functions".to_owned(),
            MacroError::GenericFn => "`#[offload]` does not support generic functions or where clauses".to_owned(),
            MacroError::MethodReceiver => "`#[offload]` only supports standalone functions; methods with `self` are not supported".to_owned(),
            MacroError::Reference => "references cannot cross the offload boundary; use owned data instead".to_owned(),
            MacroError::Slice => "slice types cannot cross the offload boundary; use `Vec<T>`".to_owned(),
            MacroError::ImplTrait => "`impl Trait` cannot appear in an offload signature; use a concrete owned type".to_owned(),
            MacroError::PointerSized(name) => quoted_message(
                "`",
                name,
                "` cannot cross the 64-bit host / 32-bit guest boundary; use `u32`, `u64`, `i32`, or `i64`",
            ),
            MacroError::Float(name) => quoted_message(
                "`",
                name,
                "` cannot cross an AN-compatible offload boundary",
            ),
            MacroError::UnionNotAnCompatible => "`AnCompatible` cannot be derived for unions".to_owned(),
            MacroError::AnFieldFloat(name) => quoted_message(
                "`AnCompatible` cannot be derived for a field containing `",
                name,
                "`; floating-point values are not supported by AN encoding",
            ),
            MacroError::AnFieldPointerSized(name) => quoted_message(
                "`AnCompatible` cannot be derived for a field containing `",
                name,
                "`; use a fixed-width integer",
            ),
            MacroError::ExpectedGuestSpec => "expected `include_guest!()`, `include_guest!(\"package\")`, or `include_guest!(artifact = \"dependency\")`".to_owned(),
        }
    }
}

/// The diagnostic for a type refused at the boundary.
pub open spec fn spec_boundary_diagnostic(e: BoundaryError) -> MacroError {
    match e {
        BoundaryError::Reference(_) => MacroError::Reference,
        BoundaryError::Slice(_) => MacroError::Slice,
        BoundaryError::ImplTrait(_) => MacroError::ImplTrait,
        BoundaryError::PointerSized(_, name) => MacroError::PointerSized(name),
        BoundaryError::Float(_, name) => MacroError::Float(name),
    }
}

/// The diagnostic for a field refused by `#[derive(AnCompatible)]`.
pub open spec fn spec_an_field_diagnostic(e: BoundaryError) -> MacroError {
    match e {
        BoundaryError::PointerSized(_, name) => MacroError::AnFieldPointerSized(name),
        BoundaryError::Float(_, name) => MacroError::AnFieldFloat(name),
        other => spec_boundary_diagnostic(other),
    }
}

/// The diagnostic for a refused signature.
pub open spec fn spec_signature_diagnostic(e: SignatureError) -> MacroError {
    match e {
        SignatureError::ConstFn => MacroError::ConstFn,
        SignatureError::AsyncFn => MacroError::AsyncFn,
        SignatureError::ExternFn => MacroError::ExternFn,
        SignatureError::VariadicFn => MacroError::VariadicFn,
        SignatureError::GenericFn => MacroError::GenericFn,
        SignatureError::Receiver(_) => MacroError::MethodReceiver,
        SignatureError::Input(_, b) => spec_boundary_diagnostic(b),
        SignatureError::Output(b) => spec_boundary_diagnostic(b),
    }
}

impl BoundaryError {
    /// Where the refused type was found.
    pub fn site(&self) -> (site: usize)
        ensures
            site == match *self {
                BoundaryError::Reference(s) => s,
                BoundaryError::Slice(s) => s,
                BoundaryError::ImplTrait(s) => s,
                BoundaryError::PointerSized(s, _) => s,
                BoundaryError::Float(s, _) => s,
            },
    {
        match self {
            BoundaryError::Reference(s) => *s,
            BoundaryError::Slice(s) => *s,
            BoundaryError::ImplTrait(s) => *s,
            BoundaryError::PointerSized(s, _) => *s,
            BoundaryError::Float(s, _) => *s,
        }
    }

    pub fn diagnostic(&self) -> (e: MacroError)
        ensures
            e == spec_boundary_diagnostic(*self),
    {
        match self {
            BoundaryError::Reference(_) => MacroError::Reference,
            BoundaryError::Slice(_) => MacroError::Slice,
            BoundaryError::ImplTrait(_) => MacroError::ImplTrait,
            BoundaryError::PointerSized(_, name) => MacroError::PointerSized(name.clone()),
            BoundaryError::Float(_, name) => MacroError::Float(name.clone()),
        }
    }

    pub fn an_field_diagnostic(&self) -> (e: MacroError)
        ensures
            e == spec_an_field_diagnostic(*self),
    {
        match self {
            BoundaryError::PointerSized(_, name) => MacroError::AnFieldPointerSized(name.clone()),
            BoundaryError::Float(_, name) => MacroError::AnFieldFloat(name.clone()),
            other => other.diagnostic(),
        }
    }
}

impl SignatureError {
    pub fn diagnostic(&self) -> (e: MacroError)
        ensures
            e == spec_signature_diagnostic(*self),
    {
        match self {
            SignatureError::ConstFn => MacroError::ConstFn,
            SignatureError::AsyncFn => MacroError::AsyncFn,
            SignatureError::ExternFn => MacroError::ExternFn,
            SignatureError::VariadicFn => MacroError::VariadicFn,
            SignatureError::GenericFn => MacroError::GenericFn,
            SignatureError::Receiver(_) => MacroError::MethodReceiver,
            SignatureError::Input(_, b) => b.diagnostic(),
            SignatureError::Output(b) => b.diagnostic(),
        }
    }
}

} // verus!
