//! Errors reported across the offload boundary.
use vstd::prelude::*;
use crate::abi::MANIFEST_SECTION;
use crate::text::{decimal, hex_digits, push_decimal, push_hex_digits};

verus! {

/// postcard's error type, carried through unchanged.
#[verifier::external_type_specification]
#[verifier::external_body]
pub struct ExPostcardError(postcard::Error);

/// Failures of the runtime around a guest call that are not one of the
/// dedicated [`OffloadError`] variants.
#[derive(Debug, PartialEq, Eq)]
pub enum RuntimeError {
    /// The module is not a well-formed wasm binary (the parser's message).
    MalformedModule(String),
    /// A record in the manifest custom section could not be decoded.
    MalformedManifest(postcard::Error),
    /// Two manifest records give one export two different signature hashes.
    ConflictingRecords(String),
    /// The guest returned a buffer `[ptr, ptr + len)` outside its linear memory.
    ReturnOutOfBounds { ptr: u32, len: u32 },
    /// The argument buffer is longer than a 32-bit length can say.
    ArgumentsTooLarge,
    /// Anything else the runtime reported (its message).
    Other(String),
}

/// Everything that can go wrong when calling into a guest.
#[derive(Debug, PartialEq, Eq)]
pub enum OffloadError {
    Uninitialized,
    AlreadyInitialized,
    Encode(postcard::Error),
    Decode(postcard::Error),
    GuestTrap(String),
    MissingExport(String),
    SignatureMismatch { export: String, expected: u64, found: u64 },
    AbiVersion { host: u32, guest: u32 },
    Runtime(RuntimeError),
}

/// [`RuntimeError`] with its strings seen as character sequences.
pub enum RuntimeErrorModel {
    MalformedModule(Seq<char>),
    MalformedManifest(postcard::Error),
    ConflictingRecords(Seq<char>),
    ReturnOutOfBounds { ptr: u32, len: u32 },
    ArgumentsTooLarge,
    Other(Seq<char>),
}

/// [`OffloadError`] with its strings seen as character sequences.
pub enum OffloadErrorModel {
    Uninitialized,
    AlreadyInitialized,
    Encode(postcard::Error),
    Decode(postcard::Error),
    GuestTrap(Seq<char>),
    MissingExport(Seq<char>),
    SignatureMismatch { export: Seq<char>, expected: u64, found: u64 },
    AbiVersion { host: u32, guest: u32 },
    Runtime(RuntimeErrorModel),
}

impl View for RuntimeError {
    type V = RuntimeErrorModel;

    open spec fn view(&self) -> RuntimeErrorModel {
        match self {
            RuntimeError::MalformedModule(m) => RuntimeErrorModel::MalformedModule(m@),
            RuntimeError::MalformedManifest(e) => RuntimeErrorModel::MalformedManifest(*e),
            RuntimeError::ConflictingRecords(n) => RuntimeErrorModel::ConflictingRecords(n@),
            RuntimeError::ReturnOutOfBounds { ptr, len } => RuntimeErrorModel::ReturnOutOfBounds {
                ptr: *ptr,
                len: *len,
            },
            RuntimeError::ArgumentsTooLarge => RuntimeErrorModel::ArgumentsTooLarge,
            RuntimeError::Other(m) => RuntimeErrorModel::Other(m@),
        }
    }
}

impl View for OffloadError {
    type V = OffloadErrorModel;

    open spec fn view(&self) -> OffloadErrorModel {
        match self {
            OffloadError::Uninitialized => OffloadErrorModel::Uninitialized,
            OffloadError::AlreadyInitialized => OffloadErrorModel::AlreadyInitialized,
            OffloadError::Encode(e) => OffloadErrorModel::Encode(*e),
            OffloadError::Decode(e) => OffloadErrorModel::Decode(*e),
            OffloadError::GuestTrap(m) => OffloadErrorModel::GuestTrap(m@),
            OffloadError::MissingExport(n) => OffloadErrorModel::MissingExport(n@),
            OffloadError::SignatureMismatch { export, expected, found } =>
                OffloadErrorModel::SignatureMismatch {
                export: export@,
                expected: *expected,
                found: *found,
            },
            OffloadError::AbiVersion { host, guest } => OffloadErrorModel::AbiVersion {
                host: *host,
                guest: *guest,
            },
            OffloadError::Runtime(r) => OffloadErrorModel::Runtime(r@),
        }
    }
}

/// The text postcard's `Display` gives `e`.
pub uninterp spec fn postcard_error_text(e: postcard::Error) -> Seq<char>;

/// `ToString::to_string` on a `postcard::Error`. Trusted: the text is the
/// named [`postcard_error_text`] of the error (postcard writes a fixed
/// message for each of its error variants).
#[verifier::external_body]
fn postcard_message(e: &postcard::Error) -> (m: String)
    ensures
        m@ == postcard_error_text(*e),
{
    e.to_string()
}

/// How a runtime failure reads.
pub open spec fn runtime_text(e: RuntimeErrorModel) -> Seq<char> {
    match e {
        RuntimeErrorModel::MalformedModule(m) => m,
        RuntimeErrorModel::MalformedManifest(p) => "malformed `"@ + MANIFEST_SECTION@ + "` custom section: "@
            + postcard_error_text(p),
        RuntimeErrorModel::ConflictingRecords(n) => "conflicting manifest records for `"@ + n + "`"@,
        RuntimeErrorModel::ReturnOutOfBounds { ptr, len } => "guest returned buffer ["@ + decimal(ptr as nat)
            + ", "@ + decimal((ptr + len) as nat) + ") outside its linear memory"@,
        RuntimeErrorModel::ArgumentsTooLarge => "argument buffer exceeds 4 GiB"@,
        RuntimeErrorModel::Other(m) => m,
    }
}

/// A signature hash as `0x` and sixteen hexadecimal digits.
pub open spec fn hash_text(h: u64) -> Seq<char> {
    "0x"@ + hex_digits(h as nat, 16)
}

/// How an offload error reads.
pub open spec fn error_text(e: OffloadErrorModel) -> Seq<char> {
    match e {
        OffloadErrorModel::Uninitialized => "no global offloader: call offload::init(..) first"@,
        OffloadErrorModel::AlreadyInitialized => "offload::init(..) called twice"@,
        OffloadErrorModel::Encode(p) => "failed to encode arguments: "@ + postcard_error_text(p),
        OffloadErrorModel::Decode(p) => "failed to decode return value: "@ + postcard_error_text(p),
        OffloadErrorModel::GuestTrap(m) => "guest trapped: "@ + m,
        OffloadErrorModel::MissingExport(n) => "guest module is missing export `"@ + n + "`"@,
        OffloadErrorModel::SignatureMismatch { export, expected, found } => "signature hash mismatch for `"@
            + export + "` (host "@ + hash_text(expected) + ", guest "@ + hash_text(found)
            + "): the guest artifact is stale or foreign"@,
        OffloadErrorModel::AbiVersion { host, guest } => "ABI version mismatch: host speaks v"@ + decimal(
            host as nat,
        ) + ", guest artifact is v"@ + decimal(guest as nat),
        OffloadErrorModel::Runtime(r) => "offload runtime error: "@ + runtime_text(r),
    }
}

fn push_hash(s: &mut String, h: u64)
    ensures
        final(s)@ == old(s)@ + hash_text(h),
{
    let ghost before = s@;
    s.append("0x");
    push_hex_digits(s, h, 16);
    assert(s@ =~= before + hash_text(h));
}

impl RuntimeError {
    /// The failure's text.
    pub fn message(&self) -> (m: String)
        ensures
            m@ == runtime_text(self@),
    {
        match self {
            RuntimeError::MalformedModule(m) => m.clone(),
            RuntimeError::MalformedManifest(p) => {
                let mut m = "malformed `".to_owned();
                m.append(MANIFEST_SECTION);
                m.append("` custom section: ");
                let text = postcard_message(p);
                m.append(text.as_str());
                m
            },
            RuntimeError::ConflictingRecords(n) => {
                let mut m = "conflicting manifest records for `".to_owned();
                m.append(n.as_str());
                m.append("`");
                m
            },
            RuntimeError::ReturnOutOfBounds { ptr, len } => {
                let mut m = "guest returned buffer [".to_owned();
                push_decimal(&mut m, *ptr as u64);
                m.append(", ");
                push_decimal(&mut m, *ptr as u64 + *len as u64);
                m.append(") outside its linear memory");
                m
            },
            RuntimeError::ArgumentsTooLarge => "argument buffer exceeds 4 GiB".to_owned(),
            RuntimeError::Other(m) => m.clone(),
        }
    }
}

impl OffloadError {
    /// The error's text.
    pub fn message(&self) -> (m: String)
        ensures
            m@ == error_text(self@),
    {
        match self {
            OffloadError::Uninitialized => "no global offloader: call offload::init(..) first".to_owned(),
            OffloadError::AlreadyInitialized => "offload::init(..) called twice".to_owned(),
            OffloadError::Encode(p) => {
                let mut m = "failed to encode arguments: ".to_owned();
                let text = postcard_message(p);
                m.append(text.as_str());
                m
            },
            OffloadError::Decode(p) => {
                let mut m = "failed to decode return value: ".to_owned();
                let text = postcard_message(p);
                m.append(text.as_str());
                m
            },
            OffloadError::GuestTrap(t) => {
                let mut m = "guest trapped: ".to_owned();
                m.append(t.as_str());
                m
            },
            OffloadError::MissingExport(n) => {
                let mut m = "guest module is missing export `".to_owned();
                m.append(n.as_str());
                m.append("`");
                m
            },
            OffloadError::SignatureMismatch { export, expected, found } => {
                let mut m = "signature hash mismatch for `".to_owned();
                m.append(export.as_str());
                m.append("` (host ");
                push_hash(&mut m, *expected);
                m.append(", guest ");
                push_hash(&mut m, *found);
                m.append("): the guest artifact is stale or foreign");
                m
            },
            OffloadError::AbiVersion { host, guest } => {
                let mut m = "ABI version mismatch: host speaks v".to_owned();
                push_decimal(&mut m, *host as u64);
                m.append(", guest artifact is v");
                push_decimal(&mut m, *guest as u64);
                m
            },
            OffloadError::Runtime(r) => {
                let mut m = "offload runtime error: ".to_owned();
                let text = r.message();
                m.append(text.as_str());
                m
            },
        }
    }
}

} // verus!
