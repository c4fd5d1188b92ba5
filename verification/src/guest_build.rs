//! Building a guest crate for the wasm target from a host build script:
//! the builder, the artifact it yields, and the decisions taken while the
//! nested Cargo build runs.
use vstd::prelude::*;
use crate::abi::{guest_path_env_var, spec_env_suffix, str_eq, GUEST_PATH_ENV};
use crate::text::{ascii_alnum, chars_vec, is_ascii_alnum, push_char};

verus! {

/// The target a guest is built for unless the builder says otherwise.
pub const DEFAULT_TARGET: &'static str = "wasm32-wasip1";

/// The profile a guest is built with unless the builder says otherwise.
pub const DEFAULT_PROFILE: &'static str = "release";

/// Everything a guest build is parameterised by.
pub struct GuestBuilderModel {
    pub package: Seq<char>,
    pub target: Seq<char>,
    pub profile: Seq<char>,
    pub manifest_path: Option<Seq<char>>,
    pub features: Seq<Seq<char>>,
    pub no_default_features: bool,
}

/// Builds a guest package with a nested `cargo build`.
#[derive(Clone, Debug)]
pub struct GuestBuilder {
    package: String,
    target: String,
    profile: String,
    manifest_path: Option<String>,
    features: Vec<String>,
    no_default_features: bool,
}

pub open spec fn opt_view(o: Option<String>) -> Option<Seq<char>> {
    match o {
        Some(s) => Some(s@),
        None => None,
    }
}

impl View for GuestBuilder {
    type V = GuestBuilderModel;

    closed spec fn view(&self) -> GuestBuilderModel {
        GuestBuilderModel {
            package: self.package@,
            target: self.target@,
            profile: self.profile@,
            manifest_path: opt_view(self.manifest_path),
            features: self.features@.map_values(|f: String| f@),
            no_default_features: self.no_default_features,
        }
    }
}

impl GuestBuilder {
    /// The package this builder builds.
    pub fn package_name(&self) -> (name: &str)
        ensures
            name@ == self@.package,
    {
        self.package.as_str()
    }

    /// The manifest the nested build is pointed at, if one was given.
    pub fn manifest_file(&self) -> (path: Option<&str>)
        ensures
            path is Some <==> self@.manifest_path is Some,
            path is Some ==> path->Some_0@ == self@.manifest_path->Some_0,
    {
        match &self.manifest_path {
            Some(p) => Some(p.as_str()),
            None => None,
        }
    }

    /// A builder for `package` with the default target and profile, the package's
    /// default features and no explicit manifest.
    pub fn new(package: &str) -> (builder: Self)
        ensures
            builder@ == (GuestBuilderModel {
                package: package@,
                target: DEFAULT_TARGET@,
                profile: DEFAULT_PROFILE@,
                manifest_path: None,
                features: Seq::empty(),
                no_default_features: false,
            }),
    {
        let builder = GuestBuilder {
            package: package.to_owned(),
            target: DEFAULT_TARGET.to_owned(),
            profile: DEFAULT_PROFILE.to_owned(),
            manifest_path: None,
            features: Vec::new(),
            no_default_features: false,
        };
        assert(builder.features@.map_values(|f: String| f@) =~= Seq::<Seq<char>>::empty());
        builder
    }

    pub fn target(self, target: &str) -> (builder: Self)
        ensures
            builder@ == (GuestBuilderModel { target: target@, ..self@ }),
    {
        let mut builder = self;
        builder.target = target.to_owned();
        builder
    }

    pub fn profile(self, profile: &str) -> (builder: Self)
        ensures
            builder@ == (GuestBuilderModel { profile: profile@, ..self@ }),
    {
        let mut builder = self;
        builder.profile = profile.to_owned();
        builder
    }

    pub fn manifest_path(self, path: &str) -> (builder: Self)
        ensures
            builder@ == (GuestBuilderModel { manifest_path: Some(path@), ..self@ }),
    {
        let mut builder = self;
        builder.manifest_path = Some(path.to_owned());
        builder
    }

    /// Adds one more feature to enable; features accumulate in call order.
    pub fn feature(self, feature: &str) -> (builder: Self)
        ensures
            builder@ == (GuestBuilderModel { features: self@.features.push(feature@), ..self@ }),
    {
        let mut builder = self;
        let ghost old_features = builder.features@;
        builder.features.push(feature.to_owned());
        assert(builder.features@.map_values(|f: String| f@) =~= old_features.map_values(
            |f: String| f@,
        ).push(feature@));
        builder
    }

    pub fn no_default_features(self, enabled: bool) -> (builder: Self)
        ensures
            builder@ == (GuestBuilderModel { no_default_features: enabled, ..self@ }),
    {
        let mut builder = self;
        builder.no_default_features = enabled;
        builder
    }
}

/// What a finished guest build produced.
#[derive(Clone, Debug)]
pub struct GuestArtifact {
    path: String,
    watched_files: Vec<String>,
}

impl GuestArtifact {
    pub closed spec fn spec_path(&self) -> Seq<char> {
        self.path@
    }

    pub closed spec fn spec_watched_files(&self) -> Seq<String> {
        self.watched_files@
    }

    /// An artifact at `path`, whose rebuild depends on `watched_files`.
    pub fn new(path: String, watched_files: Vec<String>) -> (artifact: Self)
        ensures
            artifact.spec_path() == path@,
            artifact.spec_watched_files() == watched_files@,
    {
        GuestArtifact { path, watched_files }
    }

    /// The built `.wasm` file (empty when the build was skipped).
    pub fn path(&self) -> (path: &str)
        ensures
            path@ == self.spec_path(),
    {
        self.path.as_str()
    }

    /// The files whose change should trigger a rebuild of the guest.
    pub fn watched_files(&self) -> (files: &[String])
        ensures
            files@ == self.spec_watched_files(),
    {
        self.watched_files.as_slice()
    }
}


/// The character a target-directory component keeps in place of `c`.
pub open spec fn path_safe_char(c: char) -> char {
    if is_ascii_alnum(c) || c == '-' || c == '_' {
        c
    } else {
        '_'
    }
}

/// ASCII letters, digits, `-` and `_` are kept; every other character becomes `_`.
pub open spec fn spec_sanitize_component(package: Seq<char>) -> Seq<char> {
    package.map_values(|c: char| path_safe_char(c))
}

/// Turns a package name into a single safe path component.
pub fn sanitize_component(package: &str) -> (component: String)
    ensures
        component@ == spec_sanitize_component(package@),
{
    let chars = chars_vec(package);
    let mut out = String::new();
    let mut i: usize = 0;
    while i < chars.len()
        invariant
            chars@ == package@,
            i <= chars@.len(),
            out@ =~= spec_sanitize_component(package@.take(i as int)),
        decreases chars@.len() - i,
    {
        let c = chars[i];
        let kept = if ascii_alnum(c) || c == '-' || c == '_' {
            c
        } else {
            '_'
        };
        push_char(&mut out, kept);
        i += 1;
        assert(spec_sanitize_component(package@.take(i as int)) =~= spec_sanitize_component(
            package@.take(i - 1),
        ).push(kept));
    }
    assert(package@.take(chars@.len() as int) =~= package@);
    out
}


/// `parts` joined with `sep` between neighbours.
pub open spec fn join_with(parts: Seq<Seq<char>>, sep: Seq<char>) -> Seq<char>
    decreases parts.len(),
{
    if parts.len() == 0 {
        Seq::empty()
    } else if parts.len() == 1 {
        parts[0]
    } else {
        join_with(parts.drop_last(), sep) + sep + parts.last()
    }
}

fn join_features(features: &Vec<String>) -> (joined: String)
    ensures
        joined@ == join_with(features@.map_values(|f: String| f@), seq![',']),
{
    let ghost parts = features@.map_values(|f: String| f@);
    let mut joined = String::new();
    let mut i: usize = 0;
    while i < features.len()
        invariant
            parts == features@.map_values(|f: String| f@),
            i <= features@.len(),
            joined@ == join_with(parts.take(i as int), seq![',']),
        decreases features@.len() - i,
    {
        assert(parts.take(i + 1).drop_last() =~= parts.take(i as int));
        if i > 0 {
            push_char(&mut joined, ',');
        }
        let ghost before = joined@;
        joined.append(features[i].as_str());
        assert(parts.take(i + 1).last() == features@[i as int]@);
        if i == 0 {
            assert(before =~= Seq::<char>::empty());
            assert(joined@ =~= parts.take(1)[0]);
        }
        i += 1;
    }
    assert(parts.take(features@.len() as int) =~= parts);
    joined
}

impl GuestBuilder {
    /// The empty artifact a build yields when it runs inside the nested
    /// guest build itself (the outer build already targets this builder's
    /// target), so that the guest does not try to build itself again.
    pub fn nested_build_artifact(&self, outer_target: Option<&str>) -> (r: Option<GuestArtifact>)
        ensures
            r is Some <==> (outer_target is Some && outer_target->Some_0@ == self@.target),
            r is Some ==> r->Some_0.spec_path() == Seq::<char>::empty() && r->Some_0.spec_watched_files()
                == Seq::<String>::empty(),
    {
        match outer_target {
            Some(t) => {
                if str_eq(t, self.target.as_str()) {
                    Some(GuestArtifact::new(String::new(), Vec::new()))
                } else {
                    None
                }
            },
            None => None,
        }
    }

    /// The arguments of the nested `cargo` invocation that builds the guest
    /// into `target_dir`.
    pub fn cargo_build_args(&self, target_dir: &str) -> (args: Vec<String>)
        ensures
            strings_of(args@) == spec_cargo_build_args(self@, target_dir@),
    {
        let mut args: Vec<String> = Vec::new();
        args.push("build".to_owned());
        args.push("-p".to_owned());
        args.push(self.package.clone());
        args.push("--lib".to_owned());
        args.push("--target".to_owned());
        args.push(self.target.clone());
        args.push("--profile".to_owned());
        args.push(self.profile.clone());
        args.push("--message-format=json-render-diagnostics".to_owned());
        args.push("--target-dir".to_owned());
        args.push(target_dir.to_owned());
        let ghost base = strings_of(args@);
        match &self.manifest_path {
            Some(path) => {
                args.push("--manifest-path".to_owned());
                args.push(path.clone());
            },
            None => {},
        }
        let ghost with_manifest = strings_of(args@);
        if self.no_default_features {
            args.push("--no-default-features".to_owned());
        }
        let ghost with_defaults = strings_of(args@);
        if self.features.len() > 0 {
            args.push("--features".to_owned());
            args.push(join_features(&self.features));
        }
        assert(strings_of(args@) =~= spec_cargo_build_args(self@, target_dir@));
        args
    }
}


/// `--no-default-features` is passed exactly when the builder asks for it,
/// whatever its feature list: the arguments with the flag set are those
/// with it unset plus `--no-default-features` right after the fixed
/// arguments and the manifest path (if any).
pub proof fn lemma_no_default_features_flag(b: GuestBuilderModel, target_dir: Seq<char>)
    ensures
        ({
            let off = GuestBuilderModel { no_default_features: false, ..b };
            let on = GuestBuilderModel { no_default_features: true, ..b };
            let at = 11 + (if b.manifest_path is Some { 2int } else { 0int });
            &&& spec_cargo_build_args(on, target_dir) == spec_cargo_build_args(off, target_dir).insert(
                at,
                "--no-default-features"@,
            )
            &&& spec_cargo_build_args(on, target_dir)[at] == "--no-default-features"@
            &&& spec_cargo_build_args(on, target_dir).len() == spec_cargo_build_args(off, target_dir).len() + 1
        }),
{
    let off = GuestBuilderModel { no_default_features: false, ..b };
    let on = GuestBuilderModel { no_default_features: true, ..b };
    let at = 11 + (if b.manifest_path is Some { 2int } else { 0int });
    assert(spec_cargo_build_args(on, target_dir) =~= spec_cargo_build_args(off, target_dir).insert(
        at,
        "--no-default-features"@,
    ));
}

pub open spec fn strings_of(v: Seq<String>) -> Seq<Seq<char>> {
    v.map_values(|s: String| s@)
}

/// The nested build: `cargo build` of the guest package's library for the
/// guest target and profile, reporting as JSON, into its own target
/// directory, with the builder's manifest and feature choices.
pub open spec fn spec_cargo_build_args(b: GuestBuilderModel, target_dir: Seq<char>) -> Seq<Seq<char>> {
    seq![
        "build"@,
        "-p"@,
        b.package,
        "--lib"@,
        "--target"@,
        b.target,
        "--profile"@,
        b.profile,
        "--message-format=json-render-diagnostics"@,
        "--target-dir"@,
        target_dir,
    ] + (match b.manifest_path {
        Some(p) => seq!["--manifest-path"@, p],
        None => Seq::empty(),
    }) + (if b.no_default_features {
        seq!["--no-default-features"@]
    } else {
        Seq::empty()
    }) + (if b.features.len() > 0 {
        seq!["--features"@, join_with(b.features, seq![','])]
    } else {
        Seq::empty()
    })
}


/// A file a compiler artifact consists of.
pub struct ArtifactFile {
    pub path: String,
    /// Whether the file's extension is `wasm`.
    pub is_wasm: bool,
}

/// A message of the nested Cargo build, as far as the build helper cares.
pub enum CargoEvent {
    /// A compiled artifact: whether it belongs to the guest package, whether
    /// it is a `cdylib`, and its files.
    Artifact { from_guest_package: bool, is_cdylib: bool, files: Vec<ArtifactFile> },
    /// A compiler diagnostic, with its rendered text if Cargo rendered it.
    CompilerMessage { rendered: Option<String> },
    /// The build finished, successfully or not.
    BuildFinished { success: bool },
    /// A line of output that is not JSON.
    TextLine(String),
    /// Anything else.
    Other,
}

/// What to relay to the outer build's error output.
pub enum Relay {
    Nothing,
    /// Print as is (a rendered diagnostic ends in its own newline).
    Text(String),
    /// Print followed by a newline.
    Line(String),
}

/// Why a nested guest build did not yield a module.
#[derive(Clone, Copy, Debug, PartialEq, Eq, Structural)]
pub enum BuildFailure {
    /// Cargo exited unsuccessfully or did not report success.
    Failed,
    /// Cargo succeeded but built no `.wasm` for the guest's `cdylib`.
    NoWasmArtifact,
}

/// The state of a nested build while its messages stream in.
pub struct BuildProgress {
    wasm_path: Option<String>,
    cargo_reported_success: bool,
}

pub struct BuildProgressModel {
    pub wasm_path: Option<Seq<char>>,
    pub cargo_reported_success: bool,
}

impl View for BuildProgress {
    type V = BuildProgressModel;

    closed spec fn view(&self) -> BuildProgressModel {
        BuildProgressModel {
            wasm_path: opt_view(self.wasm_path),
            cargo_reported_success: self.cargo_reported_success,
        }
    }
}

/// The first file that is a wasm module, if any.
pub open spec fn first_wasm(files: Seq<ArtifactFile>) -> Option<Seq<char>>
    decreases files.len(),
{
    if files.len() == 0 {
        None
    } else if files[0].is_wasm {
        Some(files[0].path@)
    } else {
        first_wasm(files.drop_first())
    }
}

fn find_wasm(files: &Vec<ArtifactFile>) -> (r: Option<String>)
    ensures
        opt_view(r) == first_wasm(files@),
{
    let mut i: usize = 0;
    assert(files@.skip(0) =~= files@);
    while i < files.len()
        invariant
            i <= files@.len(),
            first_wasm(files@) == first_wasm(files@.skip(i as int)),
        decreases files@.len() - i,
    {
        assert(files@.skip(i as int).drop_first() =~= files@.skip(i + 1));
        if files[i].is_wasm {
            return Some(files[i].path.clone());
        }
        i += 1;
    }
    assert(files@.skip(i as int) =~= Seq::<ArtifactFile>::empty());
    None
}

impl BuildProgress {
    pub fn new() -> (p: Self)
        ensures
            p@.wasm_path is None,
            !p@.cargo_reported_success,
    {
        BuildProgress { wasm_path: None, cargo_reported_success: false }
    }

    /// Takes in one message of the nested build and says what to relay.
    /// A `.wasm` file of the guest package's `cdylib` becomes the module
    /// (a later one replaces an earlier one); the last build-finished
    /// message decides whether Cargo reported success.
    pub fn observe(&mut self, event: CargoEvent) -> (relay: Relay)
        ensures
            match event {
                CargoEvent::Artifact { from_guest_package, is_cdylib, files } => {
                    &&& relay is Nothing
                    &&& final(self)@.cargo_reported_success == old(self)@.cargo_reported_success
                    &&& final(self)@.wasm_path == if from_guest_package && is_cdylib && first_wasm(files@) is Some {
                        first_wasm(files@)
                    } else {
                        old(self)@.wasm_path
                    }
                },
                CargoEvent::CompilerMessage { rendered } => {
                    &&& final(self)@ == old(self)@
                    &&& match rendered {
                        Some(text) => relay matches Relay::Text(t) && t@ == text@,
                        None => relay is Nothing,
                    }
                },
                CargoEvent::BuildFinished { success } => {
                    &&& relay is Nothing
                    &&& final(self)@.wasm_path == old(self)@.wasm_path
                    &&& final(self)@.cargo_reported_success == success
                },
                CargoEvent::TextLine(line) => {
                    &&& final(self)@ == old(self)@
                    &&& relay matches Relay::Line(l) && l@ == line@
                },
                CargoEvent::Other => final(self)@ == old(self)@ && relay is Nothing,
            },
    {
        match event {
            CargoEvent::Artifact { from_guest_package, is_cdylib, files } => {
                if from_guest_package && is_cdylib {
                    match find_wasm(&files) {
                        Some(path) => {
                            self.wasm_path = Some(path);
                        },
                        None => {},
                    }
                }
                Relay::Nothing
            },
            CargoEvent::CompilerMessage { rendered } => match rendered {
                Some(text) => Relay::Text(text),
                None => Relay::Nothing,
            },
            CargoEvent::BuildFinished { success } => {
                self.cargo_reported_success = success;
                Relay::Nothing
            },
            CargoEvent::TextLine(line) => Relay::Line(line),
            CargoEvent::Other => Relay::Nothing,
        }
    }

    /// The module the build produced, once Cargo has exited (`exit_success`
    /// being its exit status).
    pub fn finish(self, exit_success: bool) -> (r: Result<String, BuildFailure>)
        ensures
            !exit_success || !self@.cargo_reported_success ==> r == Err::<String, BuildFailure>(
                BuildFailure::Failed,
            ),
            exit_success && self@.cargo_reported_success ==> match self@.wasm_path {
                Some(p) => r is Ok && r->Ok_0@ == p,
                None => r == Err::<String, BuildFailure>(BuildFailure::NoWasmArtifact),
            },
    {
        if !exit_success || !self.cargo_reported_success {
            return Err(BuildFailure::Failed);
        }
        match self.wasm_path {
            Some(p) => Ok(p),
            None => Err(BuildFailure::NoWasmArtifact),
        }
    }
}

/// Whether `s` begins with `prefix`.
pub open spec fn has_prefix(s: Seq<char>, prefix: Seq<char>) -> bool {
    prefix.len() <= s.len() && s.take(prefix.len() as int) == prefix
}

fn starts_with(s: &str, prefix: &str) -> (b: bool)
    ensures
        b == has_prefix(s@, prefix@),
{
    let a = chars_vec(s);
    let p = chars_vec(prefix);
    if p.len() > a.len() {
        return false;
    }
    let mut i: usize = 0;
    while i < p.len()
        invariant
            a@ == s@,
            p@ == prefix@,
            p@.len() <= a@.len(),
            i <= p@.len(),
            forall|j: int| 0 <= j < i ==> a@[j] == p@[j],
        decreases p@.len() - i,
    {
        if a[i] != p[i] {
            assert(a@.take(p@.len() as int)[i as int] != p@[i as int]);
            return false;
        }
        i += 1;
    }
    assert(a@.take(p@.len() as int) =~= p@);
    true
}

/// The variables of the outer build that would leak into the nested one:
/// the compiler, its wrappers and flags, Cargo itself and its target
/// directory.
pub open spec fn spec_outer_build_keys() -> Seq<Seq<char>> {
    seq![
        "RUSTC"@,
        "RUSTC_WRAPPER"@,
        "RUSTC_WORKSPACE_WRAPPER"@,
        "RUSTFLAGS"@,
        "CARGO_ENCODED_RUSTFLAGS"@,
        "CARGO"@,
        "CARGO_TARGET_DIR"@,
    ]
}

/// The fixed list of variables to clear for the nested build.
pub fn outer_build_keys() -> (keys: Vec<&'static str>)
    ensures
        keys@.map_values(|k: &'static str| k@) == spec_outer_build_keys(),
{
    let keys = vec![
        "RUSTC",
        "RUSTC_WRAPPER",
        "RUSTC_WORKSPACE_WRAPPER",
        "RUSTFLAGS",
        "CARGO_ENCODED_RUSTFLAGS",
        "CARGO",
        "CARGO_TARGET_DIR",
    ];
    assert(keys@.map_values(|k: &'static str| k@) =~= spec_outer_build_keys());
    keys
}

/// Whether a variable describes the outer crate's features or configuration
/// (`CARGO_FEATURE_*`, `CARGO_CFG_*`) and so must not reach the nested build.
pub fn is_outer_crate_config_key(key: &str) -> (b: bool)
    ensures
        b == (has_prefix(key@, "CARGO_FEATURE_"@) || has_prefix(key@, "CARGO_CFG_"@)),
{
    starts_with(key, "CARGO_FEATURE_") || starts_with(key, "CARGO_CFG_")
}

/// Claims the plain guest-path variable for `package`. The first package
/// to build a guest in a build script owns it; later builds of the same
/// package may set it again, any other package is refused (and should be
/// told to use its own per-package variable).
pub fn claim_plain_guest_path(owner: &mut Option<String>, package: &str) -> (claimed: bool)
    ensures
        match opt_view(*old(owner)) {
            None => claimed && opt_view(*final(owner)) == Some(package@),
            Some(first) => claimed == (first == package@) && opt_view(*final(owner)) == Some(first),
        },
{
    match owner {
        None => {
            *owner = Some(package.to_owned());
            true
        },
        Some(first) => str_eq(first.as_str(), package),
    }
}

/// The directive that points `variable` at the module at `path`.
pub open spec fn rustc_env_line(variable: Seq<char>, path: Seq<char>) -> Seq<char> {
    "cargo::rustc-env="@ + variable + "="@ + path
}

/// The per-package variable `OFFLOAD_GUEST_PATH_<SUFFIX>` of `package`.
pub open spec fn spec_package_variable(package: Seq<char>) -> Seq<char> {
    GUEST_PATH_ENV@ + seq!['_'] + spec_env_suffix(package)
}

/// What the build script tells Cargo once `package`'s module is at `path`,
/// given which package (if any) already owns the plain variable: the
/// per-package variable always; then the plain variable if `package` owns
/// it, or else a warning that names the owner and the variable to read.
pub open spec fn spec_guest_path_directives(
    owner: Option<Seq<char>>,
    package: Seq<char>,
    path: Seq<char>,
) -> Seq<Seq<char>> {
    let own = rustc_env_line(spec_package_variable(package), path);
    let plain = rustc_env_line(GUEST_PATH_ENV@, path);
    match owner {
        Some(first) => if first == package {
            seq![own, plain]
        } else {
            seq![
                own,
                "cargo::warning="@ + GUEST_PATH_ENV@ + " already points at guest `"@ + first
                    + "`; read `"@ + spec_package_variable(package) + "` to embed `"@ + package
                    + "`"@,
            ]
        },
        None => seq![own, plain],
    }
}

fn env_line(variable: &str, path: &str) -> (line: String)
    ensures
        line@ == rustc_env_line(variable@, path@),
{
    let mut line = "cargo::rustc-env=".to_owned();
    line.append(variable);
    line.append("=");
    line.append(path);
    line
}

/// The build-script directives that publish the guest module of `package`
/// at `wasm_path`, claiming the plain variable for `package` if nobody owns
/// it yet (see [`claim_plain_guest_path`]).
pub fn guest_path_directives(owner: &mut Option<String>, package: &str, wasm_path: &str) -> (lines: Vec<String>)
    ensures
        strings_of(lines@) == spec_guest_path_directives(opt_view(*old(owner)), package@, wasm_path@),
        opt_view(*final(owner)) == (match opt_view(*old(owner)) {
            None => Some(package@),
            Some(first) => Some(first),
        }),
{
    let variable = guest_path_env_var(package);
    let mut lines: Vec<String> = Vec::new();
    lines.push(env_line(variable.as_str(), wasm_path));
    let previous = owner.clone();
    if claim_plain_guest_path(owner, package) {
        lines.push(env_line(GUEST_PATH_ENV, wasm_path));
    } else {
        let first = match previous {
            Some(first) => first,
            None => String::new(),
        };
        let mut warning = "cargo::warning=".to_owned();
        warning.append(GUEST_PATH_ENV);
        warning.append(" already points at guest `");
        warning.append(first.as_str());
        warning.append("`; read `");
        warning.append(variable.as_str());
        warning.append("` to embed `");
        warning.append(package);
        warning.append("`");
        lines.push(warning);
    }
    assert(strings_of(lines@) =~= spec_guest_path_directives(opt_view(*old(owner)), package@, wasm_path@));
    lines
}

} // verus!
