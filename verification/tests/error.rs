use offload::error::{OffloadError, RuntimeError};

#[test]
fn error_texts() {
    assert_eq!(
        OffloadError::Uninitialized.message(),
        "no global offloader: call offload::init(..) first"
    );
    assert_eq!(
        OffloadError::AlreadyInitialized.message(),
        "offload::init(..) called twice"
    );
    assert_eq!(
        OffloadError::GuestTrap("boom".to_string()).message(),
        "guest trapped: boom"
    );
    assert_eq!(
        OffloadError::MissingExport("__offload_no_such_fn".to_string()).message(),
        "guest module is missing export `__offload_no_such_fn`"
    );
    assert_eq!(
        OffloadError::AbiVersion { host: 1, guest: 20 }.message(),
        "ABI version mismatch: host speaks v1, guest artifact is v20"
    );
    assert_eq!(
        OffloadError::AbiVersion { host: 0, guest: u32::MAX }.message(),
        format!("ABI version mismatch: host speaks v0, guest artifact is v{}", u32::MAX)
    );
}

#[test]
fn signature_mismatch_text_uses_padded_hex() {
    let error = OffloadError::SignatureMismatch {
        export: "__offload_add".to_string(),
        expected: 1,
        found: u64::MAX,
    };
    assert_eq!(
        error.message(),
        "signature hash mismatch for `__offload_add` (host 0x0000000000000001, guest 0xffffffffffffffff): the guest artifact is stale or foreign"
    );
    let (expected, found) = (0xcbf2_9ce4_8422_2325u64, 0xabcu64);
    let error = OffloadError::SignatureMismatch {
        export: "e".to_string(),
        expected,
        found,
    };
    assert_eq!(
        error.message(),
        format!(
            "signature hash mismatch for `e` (host {expected:#018x}, guest {found:#018x}): the guest artifact is stale or foreign"
        )
    );
}

#[test]
fn postcard_and_runtime_texts() {
    let postcard_error = postcard::Error::DeserializeUnexpectedEnd;
    assert_eq!(
        OffloadError::Encode(postcard_error.clone()).message(),
        format!("failed to encode arguments: {postcard_error}")
    );
    assert_eq!(
        OffloadError::Decode(postcard_error.clone()).message(),
        "failed to decode return value: Hit the end of buffer, expected more data"
    );
    assert_eq!(
        OffloadError::Runtime(RuntimeError::ReturnOutOfBounds { ptr: 8, len: 5 }).message(),
        "offload runtime error: guest returned buffer [8, 13) outside its linear memory"
    );
    assert_eq!(
        RuntimeError::ReturnOutOfBounds { ptr: u32::MAX, len: u32::MAX }.message(),
        format!(
            "guest returned buffer [{}, {}) outside its linear memory",
            u32::MAX,
            u64::from(u32::MAX) * 2
        )
    );
    assert_eq!(
        RuntimeError::MalformedManifest(postcard_error).message(),
        "malformed `offload-manifest` custom section: Hit the end of buffer, expected more data"
    );
    assert_eq!(
        RuntimeError::ConflictingRecords("__offload_a".to_string()).message(),
        "conflicting manifest records for `__offload_a`"
    );
    assert_eq!(
        RuntimeError::ArgumentsTooLarge.message(),
        "argument buffer exceeds 4 GiB"
    );
    assert_eq!(RuntimeError::Other("x".to_string()).message(), "x");
    assert_eq!(
        RuntimeError::MalformedModule("bad magic".to_string()).message(),
        "bad magic"
    );
}
