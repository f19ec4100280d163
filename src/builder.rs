//! The build configuration, the built library, and what is derived from them:
//! the command lines of `cabal` and `ghc-pkg`, the linker directives and the
//! input of the binding generator.
use vstd::prelude::*;

use crate::error::{BindingsError, Error, InvocationError};
use crate::grammar::{
    dep_present, has_dependency_file, link_names, matched_link_names, string_views,
};
use crate::paths::{join_path, parent_dir, path_join, path_parent};
use crate::runtime::{dylib_ext_of, rts_suffix, HSDep, Platform, RTSVersion};
use std::io::Error as IoError;

verus! {

/// A builder for a Cabal library.
#[derive(Debug)]
pub struct Build {
    /// The `cabal` executable.
    pub cabal: String,
    /// The `ghc-pkg` executable.
    pub ghc_pkg: String,
    /// The runtime variant to link.
    pub rts_version: RTSVersion,
}

/// A handler for a library built by Cabal.
#[derive(Debug)]
pub struct Lib<'b> {
    /// The configuration that built the library.
    pub build: &'b Build,
    /// The path of the built shared library.
    pub path: String,
    /// The Haskell packages whose shared libraries the library needs.
    pub hs_deps: Vec<HSDep>,
}

/// A command line: the program and its arguments.
#[derive(Debug)]
pub struct Invocation {
    pub program: String,
    pub args: Vec<String>,
}

/// What a linker directive asks for.
#[derive(Debug, Clone, Copy, PartialEq, Eq, Structural)]
pub enum DirectiveKind {
    /// Add a directory to the library search path.
    SearchPath,
    /// Link a dynamic library by name.
    LinkDylib,
    /// Add a directory to the run path of the binary.
    Runpath,
}

/// One directive to the build orchestrator, with its directory or library name.
#[derive(Debug)]
pub struct LinkDirective {
    pub kind: DirectiveKind,
    pub value: String,
}

/// The input of the binding generator: the header to read, and the
/// arguments for the C compiler front end.
#[derive(Debug)]
pub struct BindingsRequest {
    pub header: String,
    pub clang_args: Vec<String>,
}

pub open spec fn directive_views(v: Seq<LinkDirective>) -> Seq<(DirectiveKind, Seq<char>)> {
    v.map_values(|d: LinkDirective| (d.kind, d.value@))
}

/// The directives for a library directory `dir` and the libraries `names` in it.
pub open spec fn dir_directives(dir: Seq<char>, names: Seq<Seq<char>>, rpath: bool) -> Seq<
    (DirectiveKind, Seq<char>),
> {
    seq![(DirectiveKind::SearchPath, dir)] + names.map_values(
        |n: Seq<char>| (DirectiveKind::LinkDylib, n),
    ) + if rpath {
        seq![(DirectiveKind::Runpath, dir)]
    } else {
        seq![]
    }
}

/// The dependencies that every foreign library needs: GHC's own package and `base`.
pub open spec fn required_deps() -> Seq<HSDep> {
    seq![HSDep::Ghc, HSDep::Base]
}

/// The file `Lib_stub.h` in the directory `<package>-tmp` beside the library.
pub open spec fn stub_header_path(dir: Seq<char>, package: Seq<char>) -> Seq<char> {
    path_join(path_join(dir, package + "-tmp"@), "Lib_stub.h"@)
}

fn owned(s: &str) -> (r: String)
    ensures
        r@ == s@,
{
    String::from_str(s)
}

fn directive(kind: DirectiveKind, value: &str) -> (r: LinkDirective)
    ensures
        r.kind == kind,
        r.value@ == value@,
{
    LinkDirective { kind, value: owned(value) }
}

/// The directives for `dir` and `names`, in that order.
fn directives_for(dir: &str, names: &Vec<String>, rpath: bool) -> (r: Vec<LinkDirective>)
    ensures
        directive_views(r@) == dir_directives(dir@, string_views(names@), rpath),
{
    let mut out: Vec<LinkDirective> = Vec::new();
    out.push(directive(DirectiveKind::SearchPath, dir));
    let ghost first = directive_views(out@);
    let mut i: usize = 0;
    while i < names.len()
        invariant
            i <= names@.len(),
            first == seq![(DirectiveKind::SearchPath, dir@)],
            directive_views(out@) == first + string_views(names@).take(i as int).map_values(
                |n: Seq<char>| (DirectiveKind::LinkDylib, n),
            ),
        decreases names@.len() - i,
    {
        let ghost before = out@;
        out.push(directive(DirectiveKind::LinkDylib, names[i].as_str()));
        assert(directive_views(out@) =~= directive_views(before).push(
            (DirectiveKind::LinkDylib, names@[i as int]@),
        ));
        assert(string_views(names@).take(i + 1) =~= string_views(names@).take(i as int).push(
            names@[i as int]@,
        ));
        assert(string_views(names@).take(i + 1).map_values(
            |n: Seq<char>| (DirectiveKind::LinkDylib, n),
        ) =~= string_views(names@).take(i as int).map_values(
            |n: Seq<char>| (DirectiveKind::LinkDylib, n),
        ).push((DirectiveKind::LinkDylib, names@[i as int]@)));
        i = i + 1;
    }
    assert(string_views(names@).take(names@.len() as int) =~= string_views(names@));
    if rpath {
        let ghost before = out@;
        out.push(directive(DirectiveKind::Runpath, dir));
        assert(directive_views(out@) =~= directive_views(before).push(
            (DirectiveKind::Runpath, dir@),
        ));
    }
    assert(directive_views(out@) =~= dir_directives(dir@, string_views(names@), rpath));
    out
}

impl Build {
    /// A configuration with the `cabal` and `ghc-pkg` executables that were
    /// found, and the default runtime variant. The first lookup that failed
    /// gives the error.
    pub fn new(
        cabal: Result<String, InvocationError>,
        ghc_pkg: Result<String, InvocationError>,
    ) -> (r: Result<Build, Error>)
        ensures
            match cabal {
                Err(e) => r is Err && r->Err_0 == Error::CabalError(e),
                Ok(c) => match ghc_pkg {
                    Err(e) => r is Err && r->Err_0 == Error::GHCPkgError(e),
                    Ok(g) => r is Ok && r->Ok_0.cabal == c && r->Ok_0.ghc_pkg == g
                        && r->Ok_0.rts_version == RTSVersion::NonThreaded,
                },
            },
    {
        let cabal = match cabal {
            Ok(c) => c,
            Err(e) => {
                return Err(Error::CabalError(e));
            },
        };
        let ghc_pkg = match ghc_pkg {
            Ok(g) => g,
            Err(e) => {
                return Err(Error::GHCPkgError(e));
            },
        };
        Ok(Build { cabal, ghc_pkg, rts_version: RTSVersion::default() })
    }

    /// Set the `cabal` binary. By default, `PATH` is searched for it.
    pub fn use_cabal(&mut self, path: &str) -> (r: &mut Self)
        ensures
            r.cabal@ == path@,
            r.ghc_pkg == old(self).ghc_pkg,
            r.rts_version == old(self).rts_version,
            *final(self) == *final(r),
    {
        self.cabal = owned(path);
        self
    }

    /// Set the `ghc-pkg` binary. By default, `PATH` is searched for it.
    pub fn use_ghc_pkg(&mut self, path: &str) -> (r: &mut Self)
        ensures
            r.ghc_pkg@ == path@,
            r.cabal == old(self).cabal,
            r.rts_version == old(self).rts_version,
            *final(self) == *final(r),
    {
        self.ghc_pkg = owned(path);
        self
    }

    /// Set the version of the GHC runtime. By default, the non-threaded
    /// runtime is used.
    pub fn use_rts(&mut self, rts_version: RTSVersion) -> (r: &mut Self)
        ensures
            r.rts_version == rts_version,
            r.cabal == old(self).cabal,
            r.ghc_pkg == old(self).ghc_pkg,
            *final(self) == *final(r),
    {
        self.rts_version = rts_version;
        self
    }

    /// `cabal <cmd> --builddir <out_dir>`.
    pub fn cabal_cmd(&self, cmd: &str, out_dir: &str) -> (r: Invocation)
        ensures
            r.program == self.cabal,
            string_views(r.args@) == seq![cmd@, "--builddir"@, out_dir@],
    {
        let args = vec![owned(cmd), owned("--builddir"), owned(out_dir)];
        assert(string_views(args@) =~= seq![cmd@, "--builddir"@, out_dir@]);
        Invocation { program: self.cabal.clone(), args }
    }

    /// `ghc-pkg <cmd>`.
    pub fn ghc_pkg_cmd(&self, cmd: &str) -> (r: Invocation)
        ensures
            r.program == self.ghc_pkg,
            string_views(r.args@) == seq![cmd@],
    {
        let args = vec![owned(cmd)];
        assert(string_views(args@) =~= seq![cmd@]);
        Invocation { program: self.ghc_pkg.clone(), args }
    }

    /// The command that builds the foreign library into `out_dir`.
    pub fn build_command(&self, out_dir: &str) -> (r: Invocation)
        ensures
            r.program == self.cabal,
            string_views(r.args@) == seq!["build"@, "--builddir"@, out_dir@],
    {
        self.cabal_cmd("build", out_dir)
    }

    /// The command that prints the path of the library built for `package`.
    pub fn list_bin_command(&self, out_dir: &str, package: &str) -> (r: Invocation)
        ensures
            r.program == self.cabal,
            string_views(r.args@) == seq!["list-bin"@, "--builddir"@, out_dir@, package@],
    {
        let mut inv = self.cabal_cmd("list-bin", out_dir);
        let ghost before = inv.args@;
        inv.args.push(owned(package));
        assert(string_views(inv.args@) =~= string_views(before).push(package@));
        assert(string_views(inv.args@) =~= seq!["list-bin"@, "--builddir"@, out_dir@, package@]);
        inv
    }

    /// The command that prints the field `field` of the runtime package.
    pub fn rts_field_command(&self, field: &str) -> (r: Invocation)
        ensures
            r.program == self.ghc_pkg,
            string_views(r.args@) == seq!["field"@, "rts"@, field@, "--simple-output"@],
    {
        let mut inv = self.ghc_pkg_cmd("field");
        let ghost args0 = inv.args@;
        inv.args.push(owned("rts"));
        let ghost args1 = inv.args@;
        assert(string_views(args1) =~= string_views(args0).push("rts"@));
        inv.args.push(owned(field));
        let ghost args2 = inv.args@;
        assert(string_views(args2) =~= string_views(args1).push(field@));
        inv.args.push(owned("--simple-output"));
        assert(string_views(inv.args@) =~= string_views(args2).push("--simple-output"@));
        assert(string_views(inv.args@) =~= seq!["field"@, "rts"@, field@, "--simple-output"@]);
        inv
    }

    /// The command that prints the runtime's header directory.
    pub fn include_dirs_command(&self) -> (r: Invocation)
        ensures
            r.program == self.ghc_pkg,
            string_views(r.args@) == seq!["field"@, "rts"@, "include-dirs"@, "--simple-output"@],
    {
        self.rts_field_command("include-dirs")
    }

    /// The command that prints the runtime's shared library directory.
    pub fn library_dirs_command(&self) -> (r: Invocation)
        ensures
            r.program == self.ghc_pkg,
            string_views(r.args@) == seq![
                "field"@,
                "rts"@,
                "dynamic-library-dirs"@,
                "--simple-output"@,
            ],
    {
        self.rts_field_command("dynamic-library-dirs")
    }

    /// The library built by `cabal`. `status` is how the build command ended:
    /// its exit code, none where a signal ended it, or the error that kept it
    /// from running. `listed` is the trimmed output of the `list-bin` command,
    /// which is looked at only where the build succeeded.
    pub fn build(&self, status: Result<Option<i32>, IoError>, listed: Result<String, IoError>) -> (r:
        Result<Lib<'_>, Error>)
        ensures
            match status {
                Err(e) => r is Err && r->Err_0 == Error::BuildError(Some(e)),
                Ok(code) => if code != Some(0i32) {
                    r is Err && r->Err_0 == Error::BuildError(None)
                } else {
                    match listed {
                        Err(e) => r is Err && r->Err_0 == Error::BuildError(Some(e)),
                        Ok(p) => r is Ok && r->Ok_0.build == self && r->Ok_0.path == p
                            && r->Ok_0.hs_deps@ == required_deps(),
                    }
                },
            },
    {
        let code = match status {
            Ok(c) => c,
            Err(e) => {
                return Err(Error::BuildError(Some(e)));
            },
        };
        let success = match code {
            Some(c) => c == 0,
            None => false,
        };
        if !success {
            return Err(Error::BuildError(None));
        }
        let path = match listed {
            Ok(p) => p,
            Err(e) => {
                return Err(Error::BuildError(Some(e)));
            },
        };
        let hs_deps = vec![HSDep::Ghc, HSDep::Base];
        assert(hs_deps@ =~= required_deps());
        Ok(Lib { build: self, path, hs_deps })
    }
}

impl<'b> Lib<'b> {
    /// The directives that link the crate to the built library `package`:
    /// its directory as search path, the library, and, where `rpath` holds,
    /// the directory as run path.
    pub fn link(&self, rpath: bool, package: &str) -> (r: Result<Vec<LinkDirective>, Error>)
        ensures
            match path_parent(self.path@) {
                None => r is Err && r->Err_0 == Error::PathError,
                Some(dir) => r is Ok && directive_views(r->Ok_0@) == dir_directives(
                    dir,
                    seq![package@],
                    rpath,
                ),
            },
    {
        let dir = match parent_dir(self.path.as_str()) {
            Some(d) => d,
            None => {
                return Err(Error::PathError);
            },
        };
        let names = vec![owned(package)];
        assert(string_views(names@) =~= seq![package@]);
        Ok(directives_for(dir.as_str(), &names, rpath))
    }

    /// What the binding generator is given: the stub header `Lib_stub.h` in
    /// `<package>-tmp` beside the library, and the runtime's header
    /// directory `include_dirs` (the output of the include directory query)
    /// as a system include.
    pub fn bindings(&self, package: &str, include_dirs: Result<String, IoError>) -> (r: Result<
        BindingsRequest,
        Error,
    >)
        ensures
            match include_dirs {
                Err(e) => r is Err && r->Err_0 == Error::BindingsError(BindingsError::IoError(e)),
                Ok(inc) => match path_parent(self.path@) {
                    None => r is Err && r->Err_0 == Error::PathError,
                    Some(dir) => r is Ok && r->Ok_0.header@ == stub_header_path(dir, package@)
                        && string_views(r->Ok_0.clang_args@) == seq!["-isystem"@, inc@],
                },
            },
    {
        let inc = match include_dirs {
            Ok(i) => i,
            Err(e) => {
                return Err(Error::BindingsError(BindingsError::IoError(e)));
            },
        };
        let dir = match parent_dir(self.path.as_str()) {
            Some(d) => d,
            None => {
                return Err(Error::PathError);
            },
        };
        let tmp = owned(package).concat("-tmp");
        let tmp_dir = join_path(dir.as_str(), tmp.as_str());
        let header = join_path(tmp_dir.as_str(), "Lib_stub.h");
        let clang_args = vec![owned("-isystem"), inc];
        assert(string_views(clang_args@) =~= seq!["-isystem"@, clang_args@[1]@]);
        Ok(BindingsRequest { header, clang_args })
    }

    /// The directives that link the crate to the runtime's shared libraries:
    /// `lib_dir` as search path, each file of `listing` (the names in
    /// `lib_dir`) that is the library of a dependency or the runtime core of
    /// the configured variant, in the order of `listing`, and, where `rpath`
    /// holds, `lib_dir` as run path. Fails where a dependency has no library
    /// in `listing`.
    pub fn link_system(&self, lib_dir: &str, listing: &Vec<String>, platform: Platform, rpath: bool) -> (r:
        Result<Vec<LinkDirective>, Error>)
        ensures
            r is Err <==> exists|i: int|
                0 <= i < self.hs_deps@.len() && !dep_present(
                    string_views(listing@),
                    #[trigger] self.hs_deps@[i],
                    dylib_ext_of(platform),
                ),
            r is Err ==> exists|i: int|
                0 <= i < self.hs_deps@.len() && !dep_present(
                    string_views(listing@),
                    #[trigger] self.hs_deps@[i],
                    dylib_ext_of(platform),
                ) && r->Err_0 == Error::MissingLibrary(self.hs_deps@[i]),
            r is Ok ==> directive_views(r->Ok_0@) == dir_directives(
                lib_dir@,
                link_names(
                    string_views(listing@),
                    self.hs_deps@,
                    rts_suffix(self.build.rts_version),
                    dylib_ext_of(platform),
                ),
                rpath,
            ),
    {
        let ext = platform.dylib_ext();
        let mut i: usize = 0;
        while i < self.hs_deps.len()
            invariant
                i <= self.hs_deps@.len(),
                ext@ == dylib_ext_of(platform),
                forall|j: int|
                    0 <= j < i ==> dep_present(
                        string_views(listing@),
                        #[trigger] self.hs_deps@[j],
                        dylib_ext_of(platform),
                    ),
            decreases self.hs_deps@.len() - i,
        {
            let d = self.hs_deps[i];
            if !has_dependency_file(listing, d, ext) {
                return Err(Error::MissingLibrary(d));
            }
            i = i + 1;
        }
        let names = matched_link_names(listing, &self.hs_deps, self.build.rts_version, ext);
        Ok(directives_for(lib_dir, &names, rpath))
    }
}

} // verus!
