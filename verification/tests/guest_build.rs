use offload::guest_build::{
    claim_plain_guest_path, guest_path_directives, is_outer_crate_config_key, outer_build_keys,
    ArtifactFile, BuildFailure, BuildProgress, CargoEvent, GuestArtifact, GuestBuilder, Relay,
    DEFAULT_PROFILE, DEFAULT_TARGET,
};

fn strings(v: &[&str]) -> Vec<String> {
    v.iter().map(|s| s.to_string()).collect()
}

#[test]
fn default_builder_arguments() {
    let builder = GuestBuilder::new("echo-guest");
    assert_eq!(builder.package_name(), "echo-guest");
    assert_eq!(builder.manifest_file(), None);
    assert_eq!(
        builder.cargo_build_args("/work/target/offload/echo-guest"),
        strings(&[
            "build",
            "-p",
            "echo-guest",
            "--lib",
            "--target",
            DEFAULT_TARGET,
            "--profile",
            DEFAULT_PROFILE,
            "--message-format=json-render-diagnostics",
            "--target-dir",
            "/work/target/offload/echo-guest",
        ])
    );
    assert_eq!(DEFAULT_TARGET, "wasm32-wasip1");
    assert_eq!(DEFAULT_PROFILE, "release");
}

#[test]
fn configured_builder_arguments() {
    let builder = GuestBuilder::new("g")
        .target("wasm32-unknown-unknown")
        .profile("dev")
        .manifest_path("guests/g/Cargo.toml")
        .feature("a")
        .feature("b")
        .no_default_features(true);
    assert_eq!(builder.manifest_file(), Some("guests/g/Cargo.toml"));
    assert_eq!(
        builder.cargo_build_args("t"),
        strings(&[
            "build",
            "-p",
            "g",
            "--lib",
            "--target",
            "wasm32-unknown-unknown",
            "--profile",
            "dev",
            "--message-format=json-render-diagnostics",
            "--target-dir",
            "t",
            "--manifest-path",
            "guests/g/Cargo.toml",
            "--no-default-features",
            "--features",
            "a,b",
        ])
    );
    let single = GuestBuilder::new("g").feature("only").no_default_features(false);
    let args = single.cargo_build_args("t");
    assert_eq!(&args[11..], &strings(&["--features", "only"])[..]);
}

#[test]
fn nested_build_is_skipped_inside_the_guest_build() {
    let builder = GuestBuilder::new("g");
    let skipped = builder.nested_build_artifact(Some("wasm32-wasip1")).unwrap();
    assert_eq!(skipped.path(), "");
    assert!(skipped.watched_files().is_empty());
    assert!(builder.nested_build_artifact(Some("x86_64-unknown-linux-gnu")).is_none());
    assert!(builder.nested_build_artifact(None).is_none());
}

#[test]
fn artifact_accessors() {
    let artifact = GuestArtifact::new("/t/g.wasm".to_string(), strings(&["/s/lib.rs", "/s/Cargo.toml"]));
    assert_eq!(artifact.path(), "/t/g.wasm");
    assert_eq!(artifact.watched_files(), &strings(&["/s/lib.rs", "/s/Cargo.toml"])[..]);
}

fn file(path: &str, is_wasm: bool) -> ArtifactFile {
    ArtifactFile { path: path.to_string(), is_wasm }
}

#[test]
fn build_progress_picks_the_guest_cdylib_module() {
    let mut progress = BuildProgress::new();
    let relay = progress.observe(CargoEvent::Artifact {
        from_guest_package: false,
        is_cdylib: true,
        files: vec![file("/t/dep.wasm", true)],
    });
    assert!(matches!(relay, Relay::Nothing));
    progress.observe(CargoEvent::Artifact {
        from_guest_package: true,
        is_cdylib: false,
        files: vec![file("/t/lib.rlib", false)],
    });
    progress.observe(CargoEvent::Artifact {
        from_guest_package: true,
        is_cdylib: true,
        files: vec![file("/t/g.rlib", false), file("/t/g.wasm", true), file("/t/h.wasm", true)],
    });
    match progress.observe(CargoEvent::CompilerMessage { rendered: Some("warning: x\n".to_string()) }) {
        Relay::Text(text) => assert_eq!(text, "warning: x\n"),
        _ => panic!("rendered diagnostic must be relayed"),
    }
    assert!(matches!(progress.observe(CargoEvent::CompilerMessage { rendered: None }), Relay::Nothing));
    match progress.observe(CargoEvent::TextLine("plain".to_string())) {
        Relay::Line(line) => assert_eq!(line, "plain"),
        _ => panic!("text lines must be relayed"),
    }
    assert!(matches!(progress.observe(CargoEvent::Other), Relay::Nothing));
    progress.observe(CargoEvent::BuildFinished { success: true });
    assert_eq!(progress.finish(true), Ok("/t/g.wasm".to_string()));
}

#[test]
fn build_progress_failures() {
    let mut progress = BuildProgress::new();
    progress.observe(CargoEvent::BuildFinished { success: true });
    assert_eq!(progress.finish(true), Err(BuildFailure::NoWasmArtifact));

    let mut progress = BuildProgress::new();
    progress.observe(CargoEvent::Artifact {
        from_guest_package: true,
        is_cdylib: true,
        files: vec![file("/t/g.wasm", true)],
    });
    progress.observe(CargoEvent::BuildFinished { success: false });
    assert_eq!(progress.finish(true), Err(BuildFailure::Failed));

    let mut progress = BuildProgress::new();
    progress.observe(CargoEvent::BuildFinished { success: true });
    assert_eq!(progress.finish(false), Err(BuildFailure::Failed));

    // no build-finished message at all
    assert_eq!(BuildProgress::new().finish(true), Err(BuildFailure::Failed));
}

#[test]
fn outer_build_environment_keys() {
    assert_eq!(
        outer_build_keys(),
        vec![
            "RUSTC",
            "RUSTC_WRAPPER",
            "RUSTC_WORKSPACE_WRAPPER",
            "RUSTFLAGS",
            "CARGO_ENCODED_RUSTFLAGS",
            "CARGO",
            "CARGO_TARGET_DIR",
        ]
    );
    assert!(is_outer_crate_config_key("CARGO_FEATURE_STD"));
    assert!(is_outer_crate_config_key("CARGO_CFG_TARGET_OS"));
    assert!(is_outer_crate_config_key("CARGO_CFG_"));
    assert!(!is_outer_crate_config_key("CARGO_HOME"));
    assert!(!is_outer_crate_config_key("CARGO_FEATURE"));
    assert!(!is_outer_crate_config_key("PATH"));
}

#[test]
fn plain_guest_path_belongs_to_the_first_package() {
    let mut owner = None;
    assert!(claim_plain_guest_path(&mut owner, "first"));
    assert_eq!(owner.as_deref(), Some("first"));
    assert!(claim_plain_guest_path(&mut owner, "first"));
    assert!(!claim_plain_guest_path(&mut owner, "second"));
    assert_eq!(owner.as_deref(), Some("first"));
}

#[test]
fn guest_path_directives_name_both_variables() {
    let mut owner = None;
    assert_eq!(
        guest_path_directives(&mut owner, "echo-guest", "/t/echo.wasm"),
        strings(&[
            "cargo::rustc-env=OFFLOAD_GUEST_PATH_ECHO_GUEST=/t/echo.wasm",
            "cargo::rustc-env=OFFLOAD_GUEST_PATH=/t/echo.wasm",
        ])
    );
    assert_eq!(
        guest_path_directives(&mut owner, "echo-guest", "/t/echo2.wasm")[1],
        "cargo::rustc-env=OFFLOAD_GUEST_PATH=/t/echo2.wasm"
    );
    assert_eq!(
        guest_path_directives(&mut owner, "other", "/t/other.wasm"),
        strings(&[
            "cargo::rustc-env=OFFLOAD_GUEST_PATH_OTHER=/t/other.wasm",
            "cargo::warning=OFFLOAD_GUEST_PATH already points at guest `echo-guest`; read `OFFLOAD_GUEST_PATH_OTHER` to embed `other`",
        ])
    );
    assert_eq!(owner.as_deref(), Some("echo-guest"));
}
