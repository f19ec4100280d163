use cabal_foreign_library::{
    BindingsError, Build, DirectiveKind, Error, HSDep, InvocationError, Lib, LinkDirective,
    Platform, RTSVersion,
};

fn config() -> Build {
    Build::new(Ok("/usr/bin/cabal".to_string()), Ok("/usr/bin/ghc-pkg".to_string())).unwrap()
}

fn io_error() -> std::io::Error {
    std::io::Error::new(std::io::ErrorKind::NotFound, "no such program")
}

fn pairs(directives: &[LinkDirective]) -> Vec<(DirectiveKind, String)> {
    directives.iter().map(|d| (d.kind, d.value.clone())).collect()
}

fn runtime_listing() -> Vec<String> {
    vec![
        "libHSbase-4.17.0-ghc9.4.7.so".to_string(),
        "libHSrts-1.0.2-ghc9.4.7.so".to_string(),
        "libHSrts-1.0.2_thr-ghc9.4.7.so".to_string(),
        "libHSghc-9.4.7-ghc9.4.7.so".to_string(),
        "libfoo.so".to_string(),
    ]
}

#[test]
fn new_uses_found_tools_and_default_runtime() {
    let build = config();
    assert_eq!(build.cabal, "/usr/bin/cabal");
    assert_eq!(build.ghc_pkg, "/usr/bin/ghc-pkg");
    assert_eq!(build.rts_version, RTSVersion::NonThreaded);
}

#[test]
fn new_reports_missing_cabal() {
    let missing = Err(InvocationError::ResolutionError(which::Error::CannotFindBinaryPath));
    let r = Build::new(missing, Ok("/usr/bin/ghc-pkg".to_string()));
    assert!(matches!(r, Err(Error::CabalError(InvocationError::ResolutionError(_)))));
}

#[test]
fn new_reports_missing_ghc_pkg() {
    let missing = Err(InvocationError::ResolutionError(which::Error::CannotFindBinaryPath));
    let r = Build::new(Ok("/usr/bin/cabal".to_string()), missing);
    assert!(matches!(r, Err(Error::GHCPkgError(InvocationError::ResolutionError(_)))));
}

#[test]
fn locating_an_absent_tool_fails() {
    let r = which::which("surely-no-such-executable-on-any-path-7c1e");
    assert!(r.is_err());
}

#[test]
fn overrides_change_one_field() {
    let mut build = config();
    build.use_cabal("/opt/cabal");
    build.use_ghc_pkg("/opt/ghc-pkg");
    build.use_rts(RTSVersion::ThreadedDebug);
    assert_eq!(build.cabal, "/opt/cabal");
    assert_eq!(build.ghc_pkg, "/opt/ghc-pkg");
    assert_eq!(build.rts_version, RTSVersion::ThreadedDebug);
}

#[test]
fn command_lines() {
    let build = config();
    let b = build.build_command("/out");
    assert_eq!(b.program, "/usr/bin/cabal");
    assert_eq!(b.args, vec!["build", "--builddir", "/out"]);
    let l = build.list_bin_command("/out", "foo");
    assert_eq!(l.args, vec!["list-bin", "--builddir", "/out", "foo"]);
    let i = build.include_dirs_command();
    assert_eq!(i.program, "/usr/bin/ghc-pkg");
    assert_eq!(i.args, vec!["field", "rts", "include-dirs", "--simple-output"]);
    let d = build.library_dirs_command();
    assert_eq!(d.args, vec!["field", "rts", "dynamic-library-dirs", "--simple-output"]);
    assert_eq!(build.ghc_pkg_cmd("list").args, vec!["list"]);
    assert_eq!(build.cabal_cmd("clean", "/o").args, vec!["clean", "--builddir", "/o"]);
}

#[test]
fn build_failure_has_no_io_error() {
    let build = config();
    let r = build.build(Ok(Some(1)), Ok("/out/libfoo.so".to_string()));
    assert!(matches!(r, Err(Error::BuildError(None))));
    let r = build.build(Ok(None), Ok("/out/libfoo.so".to_string()));
    assert!(matches!(r, Err(Error::BuildError(None))));
}

#[test]
fn build_spawn_failure_carries_io_error() {
    let build = config();
    let r = build.build(Err(io_error()), Ok("/out/libfoo.so".to_string()));
    assert!(matches!(r, Err(Error::BuildError(Some(_)))));
    let r = build.build(Ok(Some(0)), Err(io_error()));
    assert!(matches!(r, Err(Error::BuildError(Some(_)))));
}

#[test]
fn build_success_gives_library() {
    let build = config();
    let lib = build.build(Ok(Some(0)), Ok("/out/build/libfoo.so".to_string())).unwrap();
    assert_eq!(lib.path, "/out/build/libfoo.so");
    assert_eq!(lib.hs_deps, vec![HSDep::Ghc, HSDep::Base]);
}

#[test]
fn link_directives() {
    let build = config();
    let lib = build.build(Ok(Some(0)), Ok("/out/build/libfoo.so".to_string())).unwrap();
    let plain = lib.link(false, "foo").unwrap();
    assert_eq!(
        pairs(&plain),
        vec![
            (DirectiveKind::SearchPath, "/out/build".to_string()),
            (DirectiveKind::LinkDylib, "foo".to_string()),
        ]
    );
    let with_rpath = lib.link(true, "foo").unwrap();
    assert_eq!(
        pairs(&with_rpath),
        vec![
            (DirectiveKind::SearchPath, "/out/build".to_string()),
            (DirectiveKind::LinkDylib, "foo".to_string()),
            (DirectiveKind::Runpath, "/out/build".to_string()),
        ]
    );
}

#[test]
fn link_without_directory_fails() {
    let build = config();
    let lib = Lib { build: &build, path: "/".to_string(), hs_deps: vec![HSDep::Base] };
    assert!(matches!(lib.link(false, "foo"), Err(Error::PathError)));
}

#[test]
fn bindings_request() {
    let build = config();
    let lib = build.build(Ok(Some(0)), Ok("/out/build/libfoo.so".to_string())).unwrap();
    let req = lib.bindings("foo", Ok("/ghc/include".to_string())).unwrap();
    assert_eq!(req.header, "/out/build/foo-tmp/Lib_stub.h");
    assert_eq!(req.clang_args, vec!["-isystem", "/ghc/include"]);
}

#[test]
fn bindings_query_failure() {
    let build = config();
    let lib = build.build(Ok(Some(0)), Ok("/out/build/libfoo.so".to_string())).unwrap();
    let r = lib.bindings("foo", Err(io_error()));
    assert!(matches!(r, Err(Error::BindingsError(BindingsError::IoError(_)))));
}

#[test]
fn system_links_for_default_runtime() {
    let build = config();
    let lib = build.build(Ok(Some(0)), Ok("/out/build/libfoo.so".to_string())).unwrap();
    let r = lib.link_system("/ghc/lib", &runtime_listing(), Platform::Unix, true).unwrap();
    assert_eq!(
        pairs(&r),
        vec![
            (DirectiveKind::SearchPath, "/ghc/lib".to_string()),
            (DirectiveKind::LinkDylib, "HSbase-4.17.0-ghc9.4.7".to_string()),
            (DirectiveKind::LinkDylib, "HSrts-1.0.2-ghc9.4.7".to_string()),
            (DirectiveKind::LinkDylib, "HSghc-9.4.7-ghc9.4.7".to_string()),
            (DirectiveKind::Runpath, "/ghc/lib".to_string()),
        ]
    );
}

#[test]
fn system_links_for_threaded_runtime() {
    let mut build = config();
    build.use_rts(RTSVersion::Threaded);
    let lib = build.build(Ok(Some(0)), Ok("/out/build/libfoo.so".to_string())).unwrap();
    let r = lib.link_system("/ghc/lib", &runtime_listing(), Platform::Unix, false).unwrap();
    assert_eq!(
        pairs(&r),
        vec![
            (DirectiveKind::SearchPath, "/ghc/lib".to_string()),
            (DirectiveKind::LinkDylib, "HSbase-4.17.0-ghc9.4.7".to_string()),
            (DirectiveKind::LinkDylib, "HSrts-1.0.2_thr-ghc9.4.7".to_string()),
            (DirectiveKind::LinkDylib, "HSghc-9.4.7-ghc9.4.7".to_string()),
        ]
    );
}

#[test]
fn system_links_report_missing_dependency() {
    let build = config();
    let lib = build.build(Ok(Some(0)), Ok("/out/build/libfoo.so".to_string())).unwrap();
    let listing = vec![
        "libHSbase-4.17.0-ghc9.4.7.so".to_string(),
        "libHSrts-1.0.2-ghc9.4.7.so".to_string(),
    ];
    let r = lib.link_system("/ghc/lib", &listing, Platform::Unix, false);
    assert!(matches!(r, Err(Error::MissingLibrary(HSDep::Ghc))));
    let r = lib.link_system("/ghc/lib", &runtime_listing(), Platform::Apple, false);
    assert!(matches!(r, Err(Error::MissingLibrary(_))));
}

#[test]
fn overrides_chain() {
    let mut build = config();
    build.use_cabal("/a/cabal").use_ghc_pkg("/a/ghc-pkg").use_rts(RTSVersion::Threaded);
    assert_eq!(build.cabal, "/a/cabal");
    assert_eq!(build.ghc_pkg, "/a/ghc-pkg");
    assert_eq!(build.rts_version, RTSVersion::Threaded);
}
