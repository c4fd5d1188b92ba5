use offload::abi::{sig_hash, ABI_VERSION};
use offload::expand::{
    export_record, guest_lookup, plan_export, resolve_export_name, validate_an_field, validate_boundary_type,
    validate_signature, wrapper_name, BoundaryError, GuestSource, InputShape, MacroError,
    OffloadOptions, OptionKey, SignatureError, SignatureShape, TypeFindings,
};

#[test]
fn options_are_accepted_once_each() {
    let mut options = OffloadOptions::new();
    assert_eq!(options.accept("deny_floats"), Ok(OptionKey::DenyFloats));
    assert!(options.deny_floats);
    assert_eq!(options.accept("try"), Ok(OptionKey::Try));
    assert!(options.try_mode);
    assert_eq!(options.accept("export"), Ok(OptionKey::Export));
    options.set_export("custom".to_string());
    assert_eq!(
        options.accept("export"),
        Err(MacroError::DuplicateOption(OptionKey::Export))
    );
    assert_eq!(
        options.accept("try"),
        Err(MacroError::DuplicateOption(OptionKey::Try))
    );
    assert_eq!(
        options.accept("deny_floats"),
        Err(MacroError::DuplicateOption(OptionKey::DenyFloats))
    );
    assert_eq!(options.accept("exports"), Err(MacroError::UnsupportedOption));
    assert_eq!(options.export.as_deref(), Some("custom"));
}

#[test]
fn option_diagnostics() {
    assert_eq!(
        MacroError::UnsupportedOption.message(),
        "unsupported offload option; valid options are `export = \"...\"`, `deny_floats`, and `try`"
    );
    assert_eq!(
        MacroError::DuplicateOption(OptionKey::Export).message(),
        "duplicate `export` option"
    );
}

#[test]
fn export_names() {
    assert_eq!(wrapper_name("add"), "__offload_add");
    assert_eq!(resolve_export_name(None, "add"), Ok("__offload_add".to_string()));
    assert_eq!(
        resolve_export_name(Some("reverse-values"), "reverse"),
        Ok("reverse-values".to_string())
    );
    assert_eq!(
        resolve_export_name(Some("memory"), "f"),
        Err(MacroError::ReservedExport("memory".to_string()))
    );
    // a function called `alloc` would shadow the runtime's allocator
    let err = resolve_export_name(None, "alloc").unwrap_err();
    assert_eq!(err, MacroError::ReservedExport("__offload_alloc".to_string()));
    assert_eq!(
        err.message(),
        "export name `__offload_alloc` is reserved by the offload guest runtime"
    );
    assert!(resolve_export_name(None, "free").is_err());
    assert!(resolve_export_name(None, "abi_version").is_err());
}

#[test]
fn export_record_hashes_the_normalized_signature() {
    let signature = "fn (u32 , u32) -> u32";
    let record = export_record("__offload_add", signature);
    assert_eq!(record.export_name, "__offload_add");
    assert_eq!(record.abi_version, ABI_VERSION);
    assert_eq!(record.sig_hash, sig_hash(signature.as_bytes()));
    assert_ne!(record.sig_hash, sig_hash(b"fn (u32 , u32) -> u64"));
}

fn clean() -> TypeFindings {
    TypeFindings::new()
}

#[test]
fn findings_keep_the_first_site() {
    let mut f = clean();
    f.note_reference(3);
    f.note_reference(9);
    assert_eq!(f.reference, Some(3));
    f.note_slice(4);
    f.note_slice(1);
    assert_eq!(f.slice, Some(4));
    f.note_impl_trait(7);
    assert_eq!(f.impl_trait, Some(7));
    f.note_path(10, "Vec");
    assert_eq!(f.pointer_sized, None);
    assert_eq!(f.float, None);
    f.note_path(11, "isize");
    f.note_path(12, "usize");
    f.note_path(13, "f64");
    f.note_path(14, "f32");
    assert_eq!(f.pointer_sized, Some((11, "isize".to_string())));
    assert_eq!(f.float, Some((13, "f64".to_string())));
}

#[test]
fn boundary_rules_in_order() {
    assert_eq!(validate_boundary_type(&clean(), true), Ok(()));

    let mut float = clean();
    float.note_path(2, "f32");
    assert_eq!(validate_boundary_type(&float, false), Ok(()));
    assert_eq!(
        validate_boundary_type(&float, true),
        Err(BoundaryError::Float(2, "f32".to_string()))
    );

    let mut many = float.clone();
    many.note_path(5, "usize");
    assert_eq!(
        validate_boundary_type(&many, true),
        Err(BoundaryError::PointerSized(5, "usize".to_string()))
    );
    many.note_impl_trait(6);
    assert_eq!(validate_boundary_type(&many, true), Err(BoundaryError::ImplTrait(6)));
    many.note_slice(7);
    assert_eq!(validate_boundary_type(&many, true), Err(BoundaryError::Slice(7)));
    many.note_reference(8);
    assert_eq!(validate_boundary_type(&many, false), Err(BoundaryError::Reference(8)));
}

#[test]
fn boundary_diagnostics() {
    assert_eq!(
        BoundaryError::Reference(0).diagnostic().message(),
        "references cannot cross the offload boundary; use owned data instead"
    );
    assert_eq!(
        BoundaryError::Slice(0).diagnostic().message(),
        "slice types cannot cross the offload boundary; use `Vec<T>`"
    );
    assert_eq!(
        BoundaryError::ImplTrait(0).diagnostic().message(),
        "`impl Trait` cannot appear in an offload signature; use a concrete owned type"
    );
    let usize_error = BoundaryError::PointerSized(4, "usize".to_string());
    assert_eq!(usize_error.site(), 4);
    assert_eq!(
        usize_error.diagnostic().message(),
        "`usize` cannot cross the 64-bit host / 32-bit guest boundary; use `u32`, `u64`, `i32`, or `i64`"
    );
    assert_eq!(
        BoundaryError::Float(0, "f64".to_string()).diagnostic().message(),
        "`f64` cannot cross an AN-compatible offload boundary"
    );
}

fn plain_shape() -> SignatureShape {
    SignatureShape {
        is_const: false,
        is_async: false,
        is_extern: false,
        is_variadic: false,
        is_generic: false,
        inputs: vec![InputShape::Typed(clean()), InputShape::Typed(clean())],
        output: Some(clean()),
    }
}

#[test]
fn signature_validation() {
    assert_eq!(validate_signature(&plain_shape(), false), Ok(()));
    let mut unit = plain_shape();
    unit.inputs = Vec::new();
    unit.output = None;
    assert_eq!(validate_signature(&unit, true), Ok(()));

    let mut s = plain_shape();
    s.is_async = true;
    s.is_generic = true;
    assert_eq!(validate_signature(&s, false), Err(SignatureError::AsyncFn));
    assert_eq!(
        SignatureError::AsyncFn.diagnostic().message(),
        "`#[offload]` does not support async functions at the moment"
    );
    s.is_const = true;
    assert_eq!(validate_signature(&s, false), Err(SignatureError::ConstFn));

    let mut g = plain_shape();
    g.is_generic = true;
    assert_eq!(validate_signature(&g, false), Err(SignatureError::GenericFn));
    assert_eq!(
        SignatureError::GenericFn.diagnostic().message(),
        "`#[offload]` does not support generic functions or where clauses"
    );

    let mut e = plain_shape();
    e.is_extern = true;
    e.is_variadic = true;
    assert_eq!(validate_signature(&e, false), Err(SignatureError::ExternFn));
    e.is_extern = false;
    assert_eq!(validate_signature(&e, false), Err(SignatureError::VariadicFn));

    let mut m = plain_shape();
    m.inputs.insert(0, InputShape::Receiver);
    assert_eq!(validate_signature(&m, false), Err(SignatureError::Receiver(0)));
    assert_eq!(
        SignatureError::Receiver(0).diagnostic().message(),
        "`#[offload]` only supports standalone functions; methods with `self` are not supported"
    );

    let mut r = plain_shape();
    let mut reference = clean();
    reference.note_reference(30);
    r.inputs.push(InputShape::Typed(reference));
    assert_eq!(
        validate_signature(&r, false),
        Err(SignatureError::Input(2, BoundaryError::Reference(30)))
    );

    let mut o = plain_shape();
    let mut float = clean();
    float.note_path(40, "f64");
    o.output = Some(float);
    assert_eq!(validate_signature(&o, false), Ok(()));
    assert_eq!(
        validate_signature(&o, true),
        Err(SignatureError::Output(BoundaryError::Float(40, "f64".to_string())))
    );
}

#[test]
fn an_field_rules() {
    assert_eq!(validate_an_field(&clean()), Ok(()));
    let mut f = clean();
    f.note_path(1, "usize");
    let err = validate_an_field(&f).unwrap_err();
    assert_eq!(err, BoundaryError::PointerSized(1, "usize".to_string()));
    assert_eq!(
        err.an_field_diagnostic().message(),
        "`AnCompatible` cannot be derived for a field containing `usize`; use a fixed-width integer"
    );
    f.note_path(2, "f32");
    let err = validate_an_field(&f).unwrap_err();
    assert_eq!(err, BoundaryError::Float(2, "f32".to_string()));
    assert_eq!(
        err.an_field_diagnostic().message(),
        "`AnCompatible` cannot be derived for a field containing `f32`; floating-point values are not supported by AN encoding"
    );
    assert_eq!(
        MacroError::UnionNotAnCompatible.message(),
        "`AnCompatible` cannot be derived for unions"
    );
}

#[test]
fn guest_lookups() {
    let default = guest_lookup(&GuestSource::Default);
    assert_eq!(default.variable, "OFFLOAD_GUEST_PATH");
    assert_eq!(
        default.message,
        "offload guest artifact not found (OFFLOAD_GUEST_PATH is unset): is offload_build::GuestBuilder::new(..).build() called in this crate's build.rs?"
    );
    let package = guest_lookup(&GuestSource::Package("echo-guest".to_string()));
    assert_eq!(package.variable, "OFFLOAD_GUEST_PATH_ECHO_GUEST");
    assert_eq!(
        package.message,
        "offload guest artifact not found (OFFLOAD_GUEST_PATH_ECHO_GUEST is unset): is offload_build::GuestBuilder::new(\"echo-guest\").build() called in this crate's build.rs?"
    );
    let artifact = guest_lookup(&GuestSource::Artifact("my-lib".to_string()));
    assert_eq!(artifact.variable, "CARGO_CDYLIB_FILE_MY_LIB");
    assert_eq!(
        artifact.message,
        "offload guest artifact not found (CARGO_CDYLIB_FILE_MY_LIB is unset): is `my-lib` declared as an `artifact = \"cdylib\"` dependency? (requires -Z bindeps)"
    );
    assert_eq!(
        MacroError::ExpectedGuestSpec.message(),
        "expected `include_guest!()`, `include_guest!(\"package\")`, or `include_guest!(artifact = \"dependency\")`"
    );
}

#[test]
fn export_plan_ties_manifest_to_host_call() {
    let signature = "fn (i64 , i64) -> i64";
    let plan = plan_export(&OffloadOptions::new(), "add", signature).unwrap();
    assert_eq!(plan.export_name, "__offload_add");
    assert_eq!(plan.wrapper_name, "__offload_add");
    assert_eq!(plan.record.export_name, plan.export_name);
    assert_eq!(plan.record.abi_version, ABI_VERSION);
    assert_eq!(plan.record.sig_hash, sig_hash(signature.as_bytes()));

    let mut options = OffloadOptions::new();
    options.set_export("reverse-values".to_string());
    let plan = plan_export(&options, "reverse", "fn (Vec < u32 >) -> Vec < u32 >").unwrap();
    assert_eq!(plan.export_name, "reverse-values");
    assert_eq!(plan.wrapper_name, "__offload_reverse");
    assert_eq!(plan.record.export_name, "reverse-values");

    let mut options = OffloadOptions::new();
    options.set_export("__offload_free".to_string());
    assert_eq!(
        plan_export(&options, "f", "fn () -> ()").unwrap_err(),
        MacroError::ReservedExport("__offload_free".to_string())
    );
}
