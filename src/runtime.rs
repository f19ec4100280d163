use vstd::prelude::*;

verus! {

/// The version of the Haskell runtime library.
#[derive(Debug, Clone, Copy, PartialEq, Eq, Structural)]
pub enum RTSVersion {
    NonThreaded,
    NonThreadedL,
    NonThreadedDebug,
    Threaded,
    ThreadedL,
    ThreadedDebug,
}

/// The token that a runtime variant adds to the name of the runtime's shared library.
pub open spec fn rts_suffix(v: RTSVersion) -> Seq<char> {
    match v {
        RTSVersion::NonThreaded => seq![],
        RTSVersion::NonThreadedL => seq!['_', 'l'],
        RTSVersion::NonThreadedDebug => seq!['_', 'd', 'e', 'b', 'u', 'g'],
        RTSVersion::Threaded => seq!['_', 't', 'h', 'r'],
        RTSVersion::ThreadedL => seq!['_', 't', 'h', 'r', '_', 'l'],
        RTSVersion::ThreadedDebug => seq!['_', 't', 'h', 'r', '_', 'd', 'e', 'b', 'u', 'g'],
    }
}

impl RTSVersion {
    /// The variant used unless another one is asked for: the non-threaded runtime.
    pub fn default() -> (r: Self)
        ensures
            r == RTSVersion::NonThreaded,
    {
        RTSVersion::NonThreaded
    }

    /// The file name token of this runtime variant.
    pub fn suffix(&self) -> (r: &'static str)
        ensures
            r@ == rts_suffix(*self),
    {
        match self {
            RTSVersion::NonThreaded => {
                proof {
                    reveal_strlit("");
                }
                ""
            },
            RTSVersion::NonThreadedL => {
                proof {
                    reveal_strlit("_l");
                }
                "_l"
            },
            RTSVersion::NonThreadedDebug => {
                proof {
                    reveal_strlit("_debug");
                }
                "_debug"
            },
            RTSVersion::Threaded => {
                proof {
                    reveal_strlit("_thr");
                }
                "_thr"
            },
            RTSVersion::ThreadedL => {
                proof {
                    reveal_strlit("_thr_l");
                }
                "_thr_l"
            },
            RTSVersion::ThreadedDebug => {
                proof {
                    reveal_strlit("_thr_debug");
                }
                "_thr_debug"
            },
        }
    }
}

/// A Haskell package whose shared library the foreign library needs at run time.
#[derive(Debug, Clone, Copy, PartialEq, Eq, Structural)]
pub enum HSDep {
    Ghc,
    Base,
}

/// The stem that names the shared library of a dependency.
pub open spec fn dep_prefix(d: HSDep) -> Seq<char> {
    match d {
        HSDep::Ghc => seq!['H', 'S', 'g', 'h', 'c'],
        HSDep::Base => seq!['H', 'S', 'b', 'a', 's', 'e'],
    }
}

impl HSDep {
    /// The stem of this dependency's shared library name.
    pub fn prefix(&self) -> (r: &'static str)
        ensures
            r@ == dep_prefix(*self),
    {
        match self {
            HSDep::Ghc => {
                proof {
                    reveal_strlit("HSghc");
                }
                "HSghc"
            },
            HSDep::Base => {
                proof {
                    reveal_strlit("HSbase");
                }
                "HSbase"
            },
        }
    }
}

/// The family of operating systems the build targets, which fixes the
/// extension of shared libraries.
#[derive(Debug, Clone, Copy, PartialEq, Eq, Structural)]
pub enum Platform {
    /// Linux and other systems whose shared libraries end in `.so`.
    Unix,
    /// Apple systems, with `.dylib`.
    Apple,
    /// Windows, with `.dll`.
    Windows,
}

pub open spec fn dylib_ext_of(p: Platform) -> Seq<char> {
    match p {
        Platform::Unix => seq!['s', 'o'],
        Platform::Apple => seq!['d', 'y', 'l', 'i', 'b'],
        Platform::Windows => seq!['d', 'l', 'l'],
    }
}

impl Platform {
    /// The extension of a shared library on this platform, without the dot.
    pub fn dylib_ext(&self) -> (r: &'static str)
        ensures
            r@ == dylib_ext_of(*self),
    {
        match self {
            Platform::Unix => {
                proof {
                    reveal_strlit("so");
                }
                "so"
            },
            Platform::Apple => {
                proof {
                    reveal_strlit("dylib");
                }
                "dylib"
            },
            Platform::Windows => {
                proof {
                    reveal_strlit("dll");
                }
                "dll"
            },
        }
    }
}

} // verus!
