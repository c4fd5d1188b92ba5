use offload::abi::{ABI_VERSION, MANIFEST_SECTION};
use offload::error::{OffloadError, RuntimeError};
use offload::host::InstancePolicy;
use offload::manifest::{check_guest_abi, CheckedExports, CheckedManifest, Manifest, ManifestRecord};
use offload::offloader::{admit_guest, admit_reported, OffloadTarget};

struct FakeTarget {
    version: u32,
}

impl OffloadTarget for FakeTarget {
    fn prepare(&mut self, _module: &[u8]) -> Result<(), OffloadError> {
        Ok(())
    }

    fn call_raw(
        &self,
        _export: &str,
        _args: &[u8],
        _policy: InstancePolicy,
    ) -> Result<Vec<u8>, OffloadError> {
        unreachable!()
    }

    fn abi_version(&self) -> Result<u32, OffloadError> {
        Ok(self.version)
    }
}

fn module_with_custom_section(name: &str, data: &[u8]) -> Vec<u8> {
    let mut payload = Vec::new();
    push_uleb(name.len() as u32, &mut payload);
    payload.extend_from_slice(name.as_bytes());
    payload.extend_from_slice(data);

    let mut module = b"\0asm\x01\0\0\0".to_vec();
    module.push(0);
    push_uleb(payload.len() as u32, &mut module);
    module.extend(payload);
    module
}

fn push_uleb(mut value: u32, output: &mut Vec<u8>) {
    loop {
        let mut byte = (value & 0x7f) as u8;
        value >>= 7;
        if value != 0 {
            byte |= 0x80;
        }
        output.push(byte);
        if value == 0 {
            break;
        }
    }
}

#[test]
fn coarse_abi_handshake_rejects_mismatch() {
    let mut target = FakeTarget {
        version: ABI_VERSION + 1,
    };
    let error = admit_guest(&mut target, b"\0asm\x01\0\0\0")
        .err()
        .expect("ABI mismatch");
    assert!(matches!(
        error,
        OffloadError::AbiVersion {
            host: ABI_VERSION,
            guest
        } if guest == ABI_VERSION + 1
    ));
}

#[test]
fn manifest_abi_mismatch_fails_before_runtime_preparation() {
    let record = ManifestRecord::new("__offload_value", ABI_VERSION + 1, 42);
    let module = module_with_custom_section(MANIFEST_SECTION, &record.to_bytes());
    let mut target = FakeTarget {
        version: ABI_VERSION,
    };
    let error = admit_guest(&mut target, &module)
        .err()
        .expect("manifest ABI mismatch");
    assert!(matches!(error, OffloadError::AbiVersion { .. }));
}

#[test]
fn malformed_manifest_is_a_runtime_error() {
    let module = module_with_custom_section(MANIFEST_SECTION, &[0xff]);
    let mut target = FakeTarget {
        version: ABI_VERSION,
    };
    let error = admit_guest(&mut target, &module)
        .err()
        .expect("malformed manifest");
    assert!(matches!(error, OffloadError::Runtime(_)));
}

#[test]
fn manifest_record_roundtrips_and_is_self_delimiting() {
    let first = ManifestRecord::new("__offload_a", ABI_VERSION, 1);
    let second = ManifestRecord::new("custom", ABI_VERSION, u64::MAX);
    let mut bytes = first.to_bytes();
    bytes.extend(second.to_bytes());

    let (decoded_first, rest) = ManifestRecord::take_from_bytes(&bytes).unwrap();
    let (decoded_second, rest) = ManifestRecord::take_from_bytes(rest).unwrap();
    assert_eq!(decoded_first, first);
    assert_eq!(decoded_second, second);
    assert!(rest.is_empty());
}

#[test]
fn record_bytes_are_postcard_field_order() {
    let record = ManifestRecord::new("__offload_add", ABI_VERSION, 300);
    let expected = postcard::to_allocvec(&("__offload_add".to_string(), ABI_VERSION, 300u64)).unwrap();
    assert_eq!(record.to_bytes(), expected);
    // name length, name bytes, version, then 300 as a two-byte varint
    let mut literal = vec![13u8];
    literal.extend_from_slice(b"__offload_add");
    literal.extend_from_slice(&[1, 0xac, 0x02]);
    assert_eq!(record.to_bytes(), literal);
}

#[test]
fn truncated_record_is_rejected() {
    let bytes = ManifestRecord::new("abc", ABI_VERSION, 7).to_bytes();
    assert!(ManifestRecord::take_from_bytes(&bytes[..bytes.len() - 1]).is_err());
    assert!(ManifestRecord::take_from_bytes(&[]).is_err());
}

#[test]
fn manifest_collects_records_from_every_manifest_section() {
    let mut data = ManifestRecord::new("__offload_a", ABI_VERSION, 10).to_bytes();
    data.extend(ManifestRecord::new("__offload_b", ABI_VERSION, 20).to_bytes());
    // the same export again with the same hash is accepted
    data.extend(ManifestRecord::new("__offload_a", ABI_VERSION, 10).to_bytes());
    let mut module = module_with_custom_section(MANIFEST_SECTION, &data);
    let other = module_with_custom_section("name", b"ignored");
    module.extend_from_slice(&other[8..]);
    let later = module_with_custom_section(
        MANIFEST_SECTION,
        &ManifestRecord::new("__offload_c", ABI_VERSION, 30).to_bytes(),
    );
    module.extend_from_slice(&later[8..]);

    let manifest = Manifest::parse(&module).unwrap();
    assert_eq!(manifest.get("__offload_a"), Some(10));
    assert_eq!(manifest.get("__offload_b"), Some(20));
    assert_eq!(manifest.get("__offload_c"), Some(30));
    assert_eq!(manifest.get("__offload_d"), None);
}

#[test]
fn conflicting_records_are_a_runtime_error() {
    let mut data = ManifestRecord::new("__offload_a", ABI_VERSION, 10).to_bytes();
    data.extend(ManifestRecord::new("__offload_a", ABI_VERSION, 11).to_bytes());
    let module = module_with_custom_section(MANIFEST_SECTION, &data);
    assert_eq!(
        Manifest::parse(&module).err(),
        Some(OffloadError::Runtime(RuntimeError::ConflictingRecords(
            "__offload_a".to_string()
        )))
    );
}

#[test]
fn module_without_manifest_has_no_exports() {
    let manifest = Manifest::parse(b"\0asm\x01\0\0\0").unwrap();
    assert_eq!(manifest.get("__offload_a"), None);
}

#[test]
fn garbage_module_is_a_runtime_error() {
    let error = Manifest::parse(b"not wasm").err().unwrap();
    assert!(matches!(
        error,
        OffloadError::Runtime(RuntimeError::MalformedModule(_))
    ));
}

#[test]
fn guest_abi_check() {
    assert_eq!(check_guest_abi(ABI_VERSION), Ok(()));
    assert_eq!(
        check_guest_abi(7),
        Err(OffloadError::AbiVersion {
            host: ABI_VERSION,
            guest: 7
        })
    );
}

#[test]
fn signature_checks_are_remembered() {
    let module = module_with_custom_section(
        MANIFEST_SECTION,
        &ManifestRecord::new("__offload_add", ABI_VERSION, 5).to_bytes(),
    );
    let manifest = Manifest::parse(&module).unwrap();
    let mut checked = CheckedExports::new();
    assert_eq!(
        manifest.check_signature(&mut checked, "__offload_add", 6),
        Err(OffloadError::SignatureMismatch {
            export: "__offload_add".to_string(),
            expected: 6,
            found: 5
        })
    );
    assert_eq!(
        manifest.check_signature(&mut checked, "__offload_missing", 5),
        Err(OffloadError::MissingExport("__offload_missing".to_string()))
    );
    assert_eq!(manifest.check_signature(&mut checked, "__offload_add", 5), Ok(()));
    assert_eq!(manifest.check_signature(&mut checked, "__offload_add", 5), Ok(()));
    assert!(manifest.check_signature(&mut checked, "__offload_add", 6).is_err());
}

struct FailingTarget;

impl OffloadTarget for FailingTarget {
    fn prepare(&mut self, _module: &[u8]) -> Result<(), OffloadError> {
        Err(OffloadError::Runtime(RuntimeError::Other("no engine".to_string())))
    }

    fn call_raw(
        &self,
        _export: &str,
        _args: &[u8],
        _policy: InstancePolicy,
    ) -> Result<Vec<u8>, OffloadError> {
        unreachable!()
    }

    fn abi_version(&self) -> Result<u32, OffloadError> {
        unreachable!()
    }
}

#[test]
fn admission_reads_the_manifest_and_passes_engine_failures_on() {
    let module = module_with_custom_section(
        MANIFEST_SECTION,
        &ManifestRecord::new("__offload_add", ABI_VERSION, 9).to_bytes(),
    );
    let manifest = admit_guest(&mut FakeTarget { version: ABI_VERSION }, &module).unwrap();
    assert_eq!(manifest.get("__offload_add"), Some(9));
    assert_eq!(
        admit_guest(&mut FailingTarget, &module).err(),
        Some(OffloadError::Runtime(RuntimeError::Other("no engine".to_string())))
    );
    assert_eq!(
        Manifest::for_guest(ABI_VERSION + 1, &module).err(),
        Some(OffloadError::AbiVersion {
            host: ABI_VERSION,
            guest: ABI_VERSION + 1
        })
    );
}

#[test]
fn stale_signature_is_rejected_before_dispatch() {
    let actual = offload::abi::sig_hash(b"fn (i64 , i64) -> i64");
    let module = module_with_custom_section(
        MANIFEST_SECTION,
        &ManifestRecord::new("__offload_add", ABI_VERSION, actual).to_bytes(),
    );
    let manifest = admit_guest(&mut FakeTarget { version: ABI_VERSION }, &module).unwrap();
    let mut checked = CheckedExports::new();
    // FakeTarget::call_raw is unreachable: a refused check never dispatches.
    let error = manifest
        .check_signature(&mut checked, "__offload_add", actual ^ 1)
        .unwrap_err();
    match error {
        OffloadError::SignatureMismatch {
            export,
            expected,
            found,
        } => {
            assert_eq!(export, "__offload_add");
            assert_eq!(expected, actual ^ 1);
            assert_eq!(found, actual);
        }
        other => panic!("expected SignatureMismatch, got {other:?}"),
    }
}

#[test]
fn checked_manifest_answers_from_the_manifest() {
    let mut data = ManifestRecord::new("__offload_add", ABI_VERSION, 5).to_bytes();
    data.extend(ManifestRecord::new("__offload_sub", ABI_VERSION, 8).to_bytes());
    let module = module_with_custom_section(MANIFEST_SECTION, &data);
    let mut checks = CheckedManifest::new(Manifest::parse(&module).unwrap());
    assert_eq!(checks.manifest().get("__offload_sub"), Some(8));
    assert_eq!(checks.check("__offload_add", 5), Ok(()));
    assert_eq!(checks.check("__offload_add", 5), Ok(()));
    assert_eq!(
        checks.check("__offload_add", 6),
        Err(OffloadError::SignatureMismatch {
            export: "__offload_add".to_string(),
            expected: 6,
            found: 5
        })
    );
    assert_eq!(checks.check("__offload_add", 5), Ok(()));
    assert_eq!(
        checks.check("__offload_mul", 5),
        Err(OffloadError::MissingExport("__offload_mul".to_string()))
    );
    assert_eq!(checks.check("__offload_sub", 8), Ok(()));
}

#[test]
fn admission_answers_for_each_engine_answer() {
    let module = module_with_custom_section(
        MANIFEST_SECTION,
        &ManifestRecord::new("__offload_add", ABI_VERSION, 3).to_bytes(),
    );
    assert_eq!(
        admit_reported(Err(OffloadError::GuestTrap("init trapped".to_string())), &module).err(),
        Some(OffloadError::GuestTrap("init trapped".to_string()))
    );
    assert_eq!(
        admit_reported(Ok(ABI_VERSION + 1), &module).err(),
        Some(OffloadError::AbiVersion {
            host: ABI_VERSION,
            guest: ABI_VERSION + 1
        })
    );
    let manifest = admit_reported(Ok(ABI_VERSION), &module).unwrap();
    assert_eq!(manifest.get("__offload_add"), Some(3));
}
