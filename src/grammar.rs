//! The naming grammar of the GHC runtime's shared libraries.
//!
//! A library file is named `lib<stem>-<version><suffix>-ghc<version>.<ext>`,
//! where a version is a dotted run of decimal numbers with at least two
//! components (`4.17.0`). Dependencies use an empty suffix; the runtime core
//! uses the stem `HSrts` and the suffix of the active runtime variant.
use vstd::prelude::*;

use crate::runtime::{dep_prefix, rts_suffix, HSDep, RTSVersion};

verus! {

pub open spec fn is_digit(c: char) -> bool {
    '0' <= c && c <= '9'
}

/// A dotted numeric version: digits and dots, starting and ending with a
/// digit, no two dots in a row, and at least one dot.
pub open spec fn is_version(v: Seq<char>) -> bool {
    &&& v.len() > 0
    &&& is_digit(v[0])
    &&& is_digit(v[v.len() - 1])
    &&& forall|i: int| 0 <= i < v.len() ==> is_digit(#[trigger] v[i]) || v[i] == '.'
    &&& forall|i: int| 0 < i < v.len() && #[trigger] v[i] == '.' ==> is_digit(v[i - 1])
    &&& exists|i: int| 0 <= i < v.len() && #[trigger] v[i] == '.'
}

/// A suffix token may not hold the separator `-`.
pub open spec fn no_dash(s: Seq<char>) -> bool {
    forall|i: int| 0 <= i < s.len() ==> #[trigger] s[i] != '-'
}

/// The file name `lib<stem>-<a><suffix>-ghc<b>.<ext>`.
pub open spec fn lib_file_name(
    stem: Seq<char>,
    a: Seq<char>,
    suffix: Seq<char>,
    b: Seq<char>,
    ext: Seq<char>,
) -> Seq<char> {
    seq!['l', 'i', 'b'] + stem + seq!['-'] + a + suffix + seq!['-', 'g', 'h', 'c'] + b + seq!['.']
        + ext
}

/// `f` is, as a whole, the name of a library file with the given stem, suffix
/// and extension, for some two versions.
pub open spec fn is_lib_file(f: Seq<char>, stem: Seq<char>, suffix: Seq<char>, ext: Seq<char>) -> bool {
    exists|a: Seq<char>, b: Seq<char>|
        is_version(a) && is_version(b) && f == #[trigger] lib_file_name(stem, a, suffix, b, ext)
}

/// `f` names the shared library of the dependency with the given prefix.
pub open spec fn is_dependency_file(f: Seq<char>, prefix: Seq<char>, ext: Seq<char>) -> bool {
    is_lib_file(f, prefix, seq![], ext)
}

pub open spec fn rts_stem() -> Seq<char> {
    seq!['H', 'S', 'r', 't', 's']
}

/// `f` names the runtime core's shared library for the variant with the given suffix.
pub open spec fn is_runtime_file(f: Seq<char>, suffix: Seq<char>, ext: Seq<char>) -> bool {
    is_lib_file(f, rts_stem(), suffix, ext)
}

/// Where the parts of a library file name stand in it.
pub proof fn lemma_lib_file_shape(
    f: Seq<char>,
    stem: Seq<char>,
    a: Seq<char>,
    s: Seq<char>,
    b: Seq<char>,
    ext: Seq<char>,
)
    requires
        is_version(a),
        no_dash(s),
        f == lib_file_name(stem, a, s, b, ext),
    ensures
        ({
            let h: int = 4 + stem.len() as int;
            let q: int = h + a.len() + s.len();
            let t: int = f.len() - ext.len() - 1;
            &&& f.len() == q + 4 + b.len() + 1 + ext.len()
            &&& f[0] == 'l' && f[1] == 'i' && f[2] == 'b'
            &&& f.subrange(3, 3 + stem.len() as int) == stem
            &&& f[3 + stem.len() as int] == '-'
            &&& (forall|j: int| h <= j < q ==> #[trigger] f[j] != '-')
            &&& f[q] == '-' && f[q + 1] == 'g' && f[q + 2] == 'h' && f[q + 3] == 'c'
            &&& f.subrange(h, h + a.len()) == a
            &&& f.subrange(h + a.len(), q) == s
            &&& f.subrange(q + 4, t) == b
            &&& f[t] == '.'
            &&& f.subrange(t + 1, f.len() as int) == ext
        }),
{
    let h: int = 4 + stem.len() as int;
    let q: int = h + a.len() + s.len();
    let t: int = f.len() - ext.len() - 1;
    assert(f.subrange(3, 3 + stem.len() as int) =~= stem);
    assert(f.subrange(h, h + a.len()) =~= a);
    assert(f.subrange(h + a.len(), q) =~= s);
    assert(f.subrange(q + 4, t) =~= b);
    assert(f.subrange(t + 1, f.len() as int) =~= ext);
    assert forall|j: int| h <= j < q implies #[trigger] f[j] != '-' by {
        if j < h + a.len() {
            assert(f[j] == a[j - h]);
        } else {
            assert(f[j] == s[j - h - a.len()]);
        }
    }
}

/// Whether `p` stands in `f` from position `i` on.
fn occurs_at(f: &Vec<char>, i: usize, p: &Vec<char>) -> (r: bool)
    requires
        i <= f@.len(),
    ensures
        r == (p@.len() <= f@.len() - i && f@.subrange(i as int, i + p@.len()) == p@),
{
    if p.len() > f.len() - i {
        return false;
    }
    let n = f.len();
    let mut j: usize = 0;
    while j < p.len()
        invariant
            j <= p@.len(),
            n == f@.len(),
            i + p@.len() <= f@.len(),
            forall|k: int| 0 <= k < j ==> f@[i + k] == p@[k],
        decreases p@.len() - j,
    {
        if f[i + j] != p[j] {
            assert(f@.subrange(i as int, i + p@.len())[j as int] != p@[j as int]);
            return false;
        }
        j = j + 1;
    }
    assert(f@.subrange(i as int, i + p@.len()) =~= p@);
    true
}

fn is_digit_char(c: char) -> (r: bool)
    ensures
        r == is_digit(c),
{
    '0' <= c && c <= '9'
}

/// Whether the characters of `f` from `lo` up to `hi` form a version.
fn is_version_at(f: &Vec<char>, lo: usize, hi: usize) -> (r: bool)
    requires
        lo <= hi <= f@.len(),
    ensures
        r == is_version(f@.subrange(lo as int, hi as int)),
{
    let ghost v = f@.subrange(lo as int, hi as int);
    if lo == hi {
        return false;
    }
    if !is_digit_char(f[lo]) {
        assert(v[0] == f@[lo as int]);
        return false;
    }
    if !is_digit_char(f[hi - 1]) {
        assert(v[v.len() - 1] == f@[hi - 1]);
        return false;
    }
    let mut i: usize = lo;
    let mut seen_dot = false;
    while i < hi
        invariant
            lo <= i <= hi,
            hi <= f@.len(),
            v == f@.subrange(lo as int, hi as int),
            forall|k: int| 0 <= k < i - lo ==> is_digit(#[trigger] v[k]) || v[k] == '.',
            forall|k: int| 0 < k < i - lo && #[trigger] v[k] == '.' ==> is_digit(v[k - 1]),
            seen_dot == exists|k: int| 0 <= k < i - lo && #[trigger] v[k] == '.',
        decreases hi - i,
    {
        let c = f[i];
        assert(v[i - lo] == c);
        if c == '.' {
            if i > lo && !is_digit_char(f[i - 1]) {
                assert(v[i - lo - 1] == f@[i - 1]);
                return false;
            }
            assert(i > lo ==> v[i - lo - 1] == f@[i - 1]);
            seen_dot = true;
        } else if !is_digit_char(c) {
            return false;
        }
        i = i + 1;
    }
    assert(v[0] == f@[lo as int]);
    assert(v[v.len() - 1] == f@[hi - 1]);
    seen_dot
}

/// Decides whether `f` is the name of a library file with the given stem,
/// suffix and extension.
#[verifier::rlimit(60)]
fn matches_lib_file(f: &Vec<char>, stem: &Vec<char>, s: &Vec<char>, ext: &Vec<char>) -> (r: bool)
    requires
        no_dash(s@),
    ensures
        r == is_lib_file(f@, stem@, s@, ext@),
{
    let ghost mut wa: Seq<char> = Seq::empty();
    let ghost mut wb: Seq<char> = Seq::empty();
    proof {
        if is_lib_file(f@, stem@, s@, ext@) {
            let (a0, b0) = choose|a: Seq<char>, b: Seq<char>|
                is_version(a) && is_version(b) && f@ == #[trigger] lib_file_name(
                    stem@,
                    a,
                    s@,
                    b,
                    ext@,
                );
            wa = a0;
            wb = b0;
            lemma_lib_file_shape(f@, stem@, wa, s@, wb, ext@);
        }
    }
    let n = f.len();
    if n < 3 || f[0] != 'l' || f[1] != 'i' || f[2] != 'b' {
        return false;
    }
    if !occurs_at(f, 3, stem) {
        return false;
    }
    let d = 3 + stem.len();
    if d >= n || f[d] != '-' {
        return false;
    }
    let h = d + 1;
    let mut q: usize = h;
    while q < n && f[q] != '-'
        invariant
            h <= q <= n,
            n == f@.len(),
            forall|j: int| h <= j < q ==> #[trigger] f@[j] != '-',
        decreases n - q,
    {
        q = q + 1;
    }
    if q == n {
        return false;
    }
    proof {
        if is_lib_file(f@, stem@, s@, ext@) {
            let qq: int = h + wa.len() + s@.len();
            if q < qq {
                assert(f@[q as int] != '-');
            }
            if q > qq {
                assert(f@[qq] != '-');
            }
            assert(q == qq);
        }
    }
    let sl = s.len();
    if q - h < sl {
        return false;
    }
    let e = q - sl;
    if !occurs_at(f, e, s) {
        return false;
    }
    if !is_version_at(f, h, e) {
        return false;
    }
    if n - q < 4 || f[q + 1] != 'g' || f[q + 2] != 'h' || f[q + 3] != 'c' {
        return false;
    }
    let k = q + 4;
    let el = ext.len();
    if n - k <= el {
        return false;
    }
    let t = n - el - 1;
    if f[t] != '.' {
        return false;
    }
    if !occurs_at(f, t + 1, ext) {
        return false;
    }
    if !is_version_at(f, k, t) {
        return false;
    }
    proof {
        let a = f@.subrange(h as int, e as int);
        let b = f@.subrange(k as int, t as int);
        assert(f@ =~= lib_file_name(stem@, a, s@, b, ext@));
    }
    true
}

/// `f` is a file that must be linked: the library of one of `deps`, or the
/// runtime core of the variant with the given suffix.
pub open spec fn is_link_target(f: Seq<char>, deps: Seq<HSDep>, suffix: Seq<char>, ext: Seq<char>) -> bool {
    ||| exists|i: int| 0 <= i < deps.len() && is_dependency_file(f, dep_prefix(#[trigger] deps[i]), ext)
    ||| is_runtime_file(f, suffix, ext)
}

/// The name the linker is given for the library file `f`: `f` without its
/// leading `lib` and its trailing `.` and extension.
pub open spec fn link_name_of(f: Seq<char>, ext: Seq<char>) -> Seq<char> {
    f.subrange(3, f.len() - ext.len() - 1)
}

/// The linker names of the files of `files` that must be linked, in the order
/// of `files`.
pub open spec fn link_names(files: Seq<Seq<char>>, deps: Seq<HSDep>, suffix: Seq<char>, ext: Seq<char>) -> Seq<Seq<char>>
    decreases files.len(),
{
    if files.len() == 0 {
        seq![]
    } else {
        let rest = link_names(files.drop_last(), deps, suffix, ext);
        if is_link_target(files.last(), deps, suffix, ext) {
            rest.push(link_name_of(files.last(), ext))
        } else {
            rest
        }
    }
}

pub open spec fn string_views(v: Seq<String>) -> Seq<Seq<char>> {
    v.map_values(|s: String| s@)
}

/// The suffix of every runtime variant is empty or starts with `_`, and
/// holds no `-`.
pub proof fn lemma_rts_suffix_token(v: RTSVersion)
    ensures
        no_dash(rts_suffix(v)),
        rts_suffix(v).len() == 0 || rts_suffix(v)[0] == '_',
{
    let s = rts_suffix(v);
    assert forall|i: int| 0 <= i < s.len() implies #[trigger] s[i] != '-' by {
        match v {
            RTSVersion::NonThreaded => {},
            RTSVersion::NonThreadedL => {},
            RTSVersion::NonThreadedDebug => {},
            RTSVersion::Threaded => {},
            RTSVersion::ThreadedL => {},
            RTSVersion::ThreadedDebug => {},
        }
    }
}

/// Where a library file name has its extension.
proof fn lemma_lib_file_length(f: Seq<char>, stem: Seq<char>, suffix: Seq<char>, ext: Seq<char>)
    requires
        is_lib_file(f, stem, suffix, ext),
    ensures
        f.len() >= 4 + ext.len(),
        f.subrange(0, 3) == seq!['l', 'i', 'b'],
        f[f.len() - ext.len() - 1] == '.',
        f.subrange(f.len() - ext.len(), f.len() as int) == ext,
{
    let (a, b) = choose|a: Seq<char>, b: Seq<char>|
        is_version(a) && is_version(b) && f == #[trigger] lib_file_name(stem, a, suffix, b, ext);
    assert(f.subrange(0, 3) =~= seq!['l', 'i', 'b']);
    assert(f.subrange(f.len() - ext.len(), f.len() as int) =~= ext);
}

/// The linker name of a file that must be linked drops exactly its first
/// three characters and its last `.` with the extension; putting `lib` in
/// front of it and `.` with the extension behind it gives the file name again.
pub proof fn lemma_link_name_round_trip(f: Seq<char>, deps: Seq<HSDep>, suffix: Seq<char>, ext: Seq<char>)
    requires
        is_link_target(f, deps, suffix, ext),
    ensures
        f.len() >= 4 + ext.len(),
        link_name_of(f, ext).len() == f.len() - 3 - 1 - ext.len(),
        seq!['l', 'i', 'b'] + link_name_of(f, ext) + seq!['.'] + ext == f,
{
    if is_runtime_file(f, suffix, ext) {
        lemma_lib_file_length(f, rts_stem(), suffix, ext);
    } else {
        let j = choose|j: int| 0 <= j < deps.len() && is_dependency_file(f, dep_prefix(#[trigger] deps[j]), ext);
        lemma_lib_file_length(f, dep_prefix(deps[j]), seq![], ext);
    }
    let whole = seq!['l', 'i', 'b'] + link_name_of(f, ext) + seq!['.'] + ext;
    assert forall|i: int| 0 <= i < f.len() implies #[trigger] whole[i] == f[i] by {
        if i < 3 {
            assert(f.subrange(0, 3)[i] == f[i]);
        } else if i >= f.len() - ext.len() {
            assert(f.subrange(f.len() - ext.len(), f.len() as int)[i - (f.len() - ext.len())] == f[i]);
        }
    }
    assert(whole =~= f);
}

/// A file named for the runtime core of one variant is not taken for the
/// runtime core of a variant with another suffix token.
#[verifier::rlimit(80)]
pub proof fn lemma_runtime_variants_exclusive(
    v1: RTSVersion,
    v2: RTSVersion,
    a: Seq<char>,
    b: Seq<char>,
    ext: Seq<char>,
)
    requires
        rts_suffix(v1) != rts_suffix(v2),
        is_version(a),
        is_version(b),
    ensures
        is_runtime_file(lib_file_name(rts_stem(), a, rts_suffix(v1), b, ext), rts_suffix(v1), ext),
        !is_runtime_file(lib_file_name(rts_stem(), a, rts_suffix(v1), b, ext), rts_suffix(v2), ext),
{
    let s1 = rts_suffix(v1);
    let s2 = rts_suffix(v2);
    let f = lib_file_name(rts_stem(), a, s1, b, ext);
    lemma_rts_suffix_token(v1);
    lemma_rts_suffix_token(v2);
    if is_runtime_file(f, s2, ext) {
        let (a2, b2) = choose|a2: Seq<char>, b2: Seq<char>|
            is_version(a2) && is_version(b2) && f == #[trigger] lib_file_name(rts_stem(), a2, s2, b2, ext);
        lemma_lib_file_shape(f, rts_stem(), a, s1, b, ext);
        lemma_lib_file_shape(f, rts_stem(), a2, s2, b2, ext);
        let h: int = 9;
        let q1: int = h + a.len() + s1.len();
        let q2: int = h + a2.len() + s2.len();
        if q1 < q2 {
            assert(f[q1] != '-');
        }
        if q2 < q1 {
            assert(f[q2] != '-');
        }
        if a.len() == a2.len() {
            assert(s1 =~= s2);
        } else if a.len() < a2.len() {
            let p: int = h + a.len();
            assert(f.subrange(h, h + a2.len())[a.len() as int] == f[p]);
            assert(is_digit(a2[a.len() as int]) || a2[a.len() as int] == '.');
            assert(f.subrange(h + a.len(), q1)[0] == f[p]);
        } else {
            let p: int = h + a2.len();
            assert(f.subrange(h, h + a.len())[a2.len() as int] == f[p]);
            assert(is_digit(a[a2.len() as int]) || a[a2.len() as int] == '.');
            assert(f.subrange(h + a2.len(), q2)[0] == f[p]);
        }
    }
}

/// Matching a listing depends on nothing but the listing and the
/// configuration: two passes over the same input give the same names, in the
/// order of the listing.
pub proof fn lemma_matching_deterministic(
    listing: Seq<String>,
    deps: Seq<HSDep>,
    rts: RTSVersion,
    ext: Seq<char>,
    first: Seq<String>,
    second: Seq<String>,
)
    requires
        string_views(first) == link_names(string_views(listing), deps, rts_suffix(rts), ext),
        string_views(second) == link_names(string_views(listing), deps, rts_suffix(rts), ext),
    ensures
        string_views(first) == string_views(second),
{
}

fn chars_of(s: &str) -> (r: Vec<char>)
    ensures
        r@ == s@,
{
    let n = s.unicode_len();
    let mut v: Vec<char> = Vec::new();
    let mut i: usize = 0;
    while i < n
        invariant
            i <= n,
            n == s@.len(),
            v@ == s@.subrange(0, i as int),
        decreases n - i,
    {
        v.push(s.get_char(i));
        i = i + 1;
        assert(v@ =~= s@.subrange(0, i as int));
    }
    assert(v@ =~= s@);
    v
}

fn rts_stem_chars() -> (r: Vec<char>)
    ensures
        r@ == rts_stem(),
{
    proof {
        reveal_strlit("HSrts");
    }
    chars_of("HSrts")
}

fn matches_some_dependency(f: &Vec<char>, deps: &Vec<HSDep>, ext: &Vec<char>) -> (r: bool)
    ensures
        r == exists|i: int| 0 <= i < deps@.len() && is_dependency_file(f@, dep_prefix(#[trigger] deps@[i]), ext@),
{
    let empty: Vec<char> = Vec::new();
    assert(empty@ =~= seq![]);
    let mut i: usize = 0;
    while i < deps.len()
        invariant
            i <= deps@.len(),
            empty@ == Seq::<char>::empty(),
            forall|j: int| 0 <= j < i ==> !is_dependency_file(f@, dep_prefix(#[trigger] deps@[j]), ext@),
        decreases deps@.len() - i,
    {
        let prefix = chars_of(deps[i].prefix());
        if matches_lib_file(f, &prefix, &empty, ext) {
            return true;
        }
        i = i + 1;
    }
    false
}

/// Whether `name` is, as a whole, the shared library file of one of `deps`:
/// `lib<prefix>-<version>-ghc<version>.<ext>`.
pub fn is_dependency_library(name: &str, deps: &Vec<HSDep>, ext: &str) -> (r: bool)
    ensures
        r == exists|i: int| 0 <= i < deps@.len() && is_dependency_file(name@, dep_prefix(#[trigger] deps@[i]), ext@),
{
    let f = chars_of(name);
    let e = chars_of(ext);
    matches_some_dependency(&f, deps, &e)
}

/// Whether `name` is, as a whole, the runtime core's shared library file for
/// the variant `rts`: `libHSrts-<version><suffix>-ghc<version>.<ext>`.
pub fn is_runtime_library(name: &str, rts: RTSVersion, ext: &str) -> (r: bool)
    ensures
        r == is_runtime_file(name@, rts_suffix(rts), ext@),
{
    let f = chars_of(name);
    let e = chars_of(ext);
    let suffix = chars_of(rts.suffix());
    let stem = rts_stem_chars();
    proof {
        lemma_rts_suffix_token(rts);
    }
    matches_lib_file(&f, &stem, &suffix, &e)
}

/// The name under which the linker looks for the library file `name`.
pub fn link_name(name: &str, ext: &str) -> (r: String)
    requires
        name@.len() >= 4 + ext@.len(),
    ensures
        r@ == link_name_of(name@, ext@),
{
    let n = name.unicode_len();
    let el = ext.unicode_len();
    name.substring_char(3, n - el - 1).to_owned()
}

/// The linker names of the files of `listing` that must be linked for the
/// dependencies `deps` and the runtime variant `rts`, in the order of
/// `listing`. Other files are passed over.
pub fn matched_link_names(listing: &Vec<String>, deps: &Vec<HSDep>, rts: RTSVersion, ext: &str) -> (r: Vec<String>)
    ensures
        string_views(r@) == link_names(string_views(listing@), deps@, rts_suffix(rts), ext@),
{
    let e = chars_of(ext);
    let suffix = chars_of(rts.suffix());
    let stem = rts_stem_chars();
    proof {
        lemma_rts_suffix_token(rts);
    }
    let ghost files = string_views(listing@);
    let mut out: Vec<String> = Vec::new();
    let mut i: usize = 0;
    assert(string_views(out@) =~= link_names(files.take(0), deps@, rts_suffix(rts), ext@));
    while i < listing.len()
        invariant
            i <= listing@.len(),
            files == string_views(listing@),
            e@ == ext@,
            suffix@ == rts_suffix(rts),
            stem@ == rts_stem(),
            no_dash(suffix@),
            string_views(out@) == link_names(files.take(i as int), deps@, rts_suffix(rts), ext@),
        decreases listing@.len() - i,
    {
        let name = listing[i].as_str();
        let f = chars_of(name);
        assert(files.take(i + 1).drop_last() =~= files.take(i as int));
        assert(files.take(i + 1).last() == name@);
        let ghost before = out@;
        if matches_some_dependency(&f, deps, &e) || matches_lib_file(&f, &stem, &suffix, &e) {
            proof {
                lemma_link_name_round_trip(name@, deps@, rts_suffix(rts), ext@);
            }
            let ln = link_name(name, ext);
            out.push(ln);
            assert(string_views(out@) =~= string_views(before).push(ln@));
        }
        i = i + 1;
    }
    assert(files.take(listing@.len() as int) =~= files);
    out
}

/// Some file of `files` is the shared library of `d`.
pub open spec fn dep_present(files: Seq<Seq<char>>, d: HSDep, ext: Seq<char>) -> bool {
    exists|k: int| 0 <= k < files.len() && is_dependency_file(#[trigger] files[k], dep_prefix(d), ext)
}

/// Whether some file of `listing` is the shared library of `d`.
pub(crate) fn has_dependency_file(listing: &Vec<String>, d: HSDep, ext: &str) -> (r: bool)
    ensures
        r == dep_present(string_views(listing@), d, ext@),
{
    let e = chars_of(ext);
    let prefix = chars_of(d.prefix());
    let empty: Vec<char> = Vec::new();
    assert(empty@ =~= seq![]);
    let ghost files = string_views(listing@);
    let mut k: usize = 0;
    while k < listing.len()
        invariant
            k <= listing@.len(),
            files == string_views(listing@),
            e@ == ext@,
            prefix@ == dep_prefix(d),
            empty@ == Seq::<char>::empty(),
            forall|j: int| 0 <= j < k ==> !is_dependency_file(#[trigger] files[j], dep_prefix(d), ext@),
        decreases listing@.len() - k,
    {
        let f = chars_of(listing[k].as_str());
        assert(files[k as int] == listing@[k as int]@);
        if matches_lib_file(&f, &prefix, &empty, &e) {
            return true;
        }
        k = k + 1;
    }
    false
}

} // verus!
