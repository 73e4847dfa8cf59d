//! Byte-string model of filesystem paths.
//!
//! A path is a sequence of bytes; components are separated by `/`. The file
//! name is everything after the last separator, the extension everything
//! after the last dot of the file name (provided that dot is not the file
//! name's first byte, so that dot-files have no extension), and the stem is
//! what precedes that dot. Collision-avoiding alternative names are formed
//! by inserting underscores between the stem and the extension.

use vstd::prelude::*;

verus! {

/// Path component separator.
pub const SEPARATOR: u8 = 47;

/// The dot that introduces an extension.
pub const DOT: u8 = 46;

/// The byte appended to a stem to sidestep a name collision.
pub const UNDERSCORE: u8 = 95;

/// Index of the last occurrence of `c` in `s`, if any.
pub open spec fn find_last(s: Seq<u8>, c: u8) -> Option<int>
    decreases s.len(),
{
    if s.len() == 0 {
        None
    } else if s[s.len() - 1] == c {
        Some(s.len() - 1)
    } else {
        find_last(s.drop_last(), c)
    }
}

/// `find_last` returns the greatest index holding `c`, or reports that no
/// index holds it.
pub proof fn lemma_find_last(s: Seq<u8>, c: u8)
    ensures
        match find_last(s, c) {
            Some(i) => 0 <= i < s.len() && s[i] == c && (forall|j: int|
                i < j < s.len() ==> s[j] != c),
            None => forall|j: int| 0 <= j < s.len() ==> s[j] != c,
        },
    decreases s.len(),
{
    if s.len() > 0 && s[s.len() - 1] != c {
        lemma_find_last(s.drop_last(), c);
        assert(forall|j: int| 0 <= j < s.len() - 1 ==> s[j] == s.drop_last()[j]);
    }
}

/// An index that holds `c` with nothing but other bytes after it is the one
/// `find_last` returns.
pub proof fn lemma_find_last_unique(s: Seq<u8>, c: u8, i: int)
    requires
        0 <= i < s.len(),
        s[i] == c,
        forall|j: int| i < j < s.len() ==> s[j] != c,
    ensures
        find_last(s, c) == Some(i),
{
    lemma_find_last(s, c);
}

/// The file name of a path: the part after the last separator, or the whole
/// path when there is none; a path with nothing after its last separator
/// (and the empty path) has no file name.
pub open spec fn spec_file_name(p: Seq<u8>) -> Option<Seq<u8>> {
    match find_last(p, SEPARATOR) {
        Some(i) => if i + 1 == p.len() {
            None
        } else {
            Some(p.subrange(i + 1, p.len() as int))
        },
        None => if p.len() == 0 {
            None
        } else {
            Some(p)
        },
    }
}

/// The extension of a file name: the part after its last dot, unless that
/// dot is the first byte (a dot-file) or there is no dot at all.
pub open spec fn spec_extension(name: Seq<u8>) -> Option<Seq<u8>> {
    match find_last(name, DOT) {
        Some(i) => if i > 0 {
            Some(name.subrange(i + 1, name.len() as int))
        } else {
            None
        },
        None => None,
    }
}

/// The stem of a file name: what precedes the dot that introduces the
/// extension, or the whole name when there is no extension.
pub open spec fn spec_stem(name: Seq<u8>) -> Seq<u8> {
    match find_last(name, DOT) {
        Some(i) => if i > 0 {
            name.subrange(0, i)
        } else {
            name
        },
        None => name,
    }
}

/// The accepted image extension, `png`.
pub open spec fn png_extension() -> Seq<u8> {
    seq![112u8, 110u8, 103u8]
}

/// A path belongs in the candidate list exactly when its file name carries
/// the accepted image extension.
pub open spec fn is_candidate(p: Seq<u8>) -> bool {
    match spec_file_name(p) {
        Some(name) => spec_extension(name) == Some(png_extension()),
        None => false,
    }
}

/// `dir` and `name` joined with a separator; a separator already ending
/// `dir` is not doubled, and an empty `dir` contributes nothing.
pub open spec fn spec_join(dir: Seq<u8>, name: Seq<u8>) -> Seq<u8> {
    if dir.len() == 0 {
        name
    } else if dir[dir.len() - 1] == SEPARATOR {
        dir + name
    } else {
        dir + seq![SEPARATOR] + name
    }
}

/// `k` underscores.
pub open spec fn underscores(k: nat) -> Seq<u8> {
    Seq::new(k, |i: int| UNDERSCORE)
}

/// The `k`-th name tried for a colliding file name: `k` underscores are
/// inserted between the stem and the extension (appended to the whole name
/// when it has no extension). The zeroth candidate is the name itself.
pub open spec fn spec_candidate_name(name: Seq<u8>, k: nat) -> Seq<u8> {
    match spec_extension(name) {
        Some(e) => spec_stem(name) + underscores(k) + seq![DOT] + e,
        None => name + underscores(k),
    }
}

/// The `k`-th path tried when moving `name` into `dir`.
pub open spec fn spec_candidate_path(dir: Seq<u8>, name: Seq<u8>, k: nat) -> Seq<u8> {
    spec_join(dir, spec_candidate_name(name, k))
}

/// The zeroth candidate is the original name.
pub proof fn lemma_candidate_zero(name: Seq<u8>)
    ensures
        spec_candidate_name(name, 0) == name,
{
    lemma_find_last(name, DOT);
    match spec_extension(name) {
        Some(e) => {
            let i = find_last(name, DOT)->Some_0;
            assert(spec_stem(name) + underscores(0) + seq![DOT] + e =~= name);
        },
        None => {
            assert(name + underscores(0) =~= name);
        },
    }
}

/// Each candidate name is exactly `k` bytes longer than the original.
pub proof fn lemma_candidate_len(name: Seq<u8>, k: nat)
    ensures
        spec_candidate_name(name, k).len() == name.len() + k,
{
    lemma_find_last(name, DOT);
}

/// Distinct probe counts give distinct candidate paths: no two attempts
/// ever name the same destination.
pub proof fn lemma_candidates_distinct(dir: Seq<u8>, name: Seq<u8>, j: nat, k: nat)
    requires
        j != k,
    ensures
        spec_candidate_path(dir, name, j) != spec_candidate_path(dir, name, k),
{
    lemma_candidate_len(name, j);
    lemma_candidate_len(name, k);
    let c1 = spec_candidate_name(name, j);
    let c2 = spec_candidate_name(name, k);
    assert(c1.len() != c2.len());
    assert(spec_join(dir, c1).len() != spec_join(dir, c2).len());
}

/// Collision renaming preserves the extension and only grows the stem: the
/// `k`-th candidate's stem is the original stem followed by `k` underscores.
pub proof fn lemma_candidate_preserves_extension(name: Seq<u8>, k: nat)
    requires
        spec_extension(name) is Some,
    ensures
        spec_extension(spec_candidate_name(name, k)) == spec_extension(name),
        spec_stem(spec_candidate_name(name, k)) == spec_stem(name) + underscores(k),
{
    lemma_find_last(name, DOT);
    let i = find_last(name, DOT)->Some_0;
    let e = spec_extension(name)->Some_0;
    let cand = spec_candidate_name(name, k);
    let p = i + k;
    assert(cand[p] == DOT);
    assert forall|j: int| p < j < cand.len() implies cand[j] != DOT by {
        assert(cand[j] == e[j - p - 1]);
        assert(e[j - p - 1] == name[i + 1 + (j - p - 1)]);
    }
    lemma_find_last_unique(cand, DOT, p);
    assert(cand.subrange(p + 1, cand.len() as int) =~= e);
    assert(cand.subrange(0, p) =~= spec_stem(name) + underscores(k));
}

/// Index of the last occurrence of `c` in `v`, if any.
pub fn rfind_byte(v: &Vec<u8>, c: u8) -> (r: Option<usize>)
    ensures
        match r {
            Some(i) => i < v@.len() && v@[i as int] == c && find_last(v@, c) == Some(
                i as int,
            ),
            None => find_last(v@, c) is None,
        },
{
    let mut i: usize = v.len();
    while i > 0
        invariant
            i <= v@.len(),
            forall|j: int| i <= j < v@.len() ==> v@[j] != c,
        decreases i,
    {
        i = i - 1;
        if v[i] == c {
            proof {
                lemma_find_last_unique(v@, c, i as int);
            }
            return Some(i);
        }
    }
    proof {
        lemma_find_last(v@, c);
    }
    None
}

/// Copy of the byte range `[start, end)` of `v`.
pub fn copy_range(v: &Vec<u8>, start: usize, end: usize) -> (r: Vec<u8>)
    requires
        start <= end <= v@.len(),
    ensures
        r@ == v@.subrange(start as int, end as int),
{
    let mut r: Vec<u8> = Vec::new();
    let mut j: usize = start;
    while j < end
        invariant
            start <= j <= end <= v@.len(),
            r@ == v@.subrange(start as int, j as int),
        decreases end - j,
    {
        r.push(v[j]);
        proof {
            assert(v@.subrange(start as int, j + 1) =~= v@.subrange(
                start as int,
                j as int,
            ).push(v@[j as int]));
        }
        j = j + 1;
    }
    r
}

/// The file name of `path`, as `spec_file_name` gives it.
pub fn file_name_of(path: &Vec<u8>) -> (r: Option<Vec<u8>>)
    ensures
        match r {
            Some(name) => spec_file_name(path@) == Some(name@),
            None => spec_file_name(path@) is None,
        },
{
    let n = path.len();
    let start: usize = match rfind_byte(path, SEPARATOR) {
        Some(i) => i + 1,
        None => 0,
    };
    if start == n {
        None
    } else {
        let name = copy_range(path, start, n);
        proof {
            if find_last(path@, SEPARATOR) is None {
                assert(path@.subrange(0, path@.len() as int) =~= path@);
            }
        }
        Some(name)
    }
}

/// The stem and extension of a file name, as `spec_stem` and
/// `spec_extension` give them.
pub fn split_name(name: &Vec<u8>) -> (r: (Vec<u8>, Option<Vec<u8>>))
    ensures
        r.0@ == spec_stem(name@),
        match r.1 {
            Some(e) => spec_extension(name@) == Some(e@),
            None => spec_extension(name@) is None,
        },
{
    let n = name.len();
    match rfind_byte(name, DOT) {
        Some(i) => {
            if i > 0 {
                let stem = copy_range(name, 0, i);
                let ext = copy_range(name, i + 1, n);
                (stem, Some(ext))
            } else {
                let stem = copy_range(name, 0, n);
                proof {
                    assert(name@.subrange(0, name@.len() as int) =~= name@);
                }
                (stem, None)
            }
        },
        None => {
            let stem = copy_range(name, 0, n);
            proof {
                assert(name@.subrange(0, name@.len() as int) =~= name@);
            }
            (stem, None)
        },
    }
}

/// Copy of `v`.
pub fn clone_bytes(v: &Vec<u8>) -> (r: Vec<u8>)
    ensures
        r@ == v@,
{
    let r = copy_range(v, 0, v.len());
    proof {
        assert(v@.subrange(0, v@.len() as int) =~= v@);
    }
    r
}

/// Appends all of `src` to `dst`.
pub fn append_bytes(dst: &mut Vec<u8>, src: &Vec<u8>)
    ensures
        final(dst)@ == old(dst)@ + src@,
{
    proof {
        assert(dst@ =~= old(dst)@ + src@.subrange(0, 0));
    }
    let mut j: usize = 0;
    while j < src.len()
        invariant
            j <= src@.len(),
            dst@ == old(dst)@ + src@.subrange(0, j as int),
        decreases src@.len() - j,
    {
        dst.push(src[j]);
        proof {
            assert(old(dst)@ + src@.subrange(0, j + 1) =~= (old(dst)@ + src@.subrange(
                0,
                j as int,
            )).push(src@[j as int]));
        }
        j = j + 1;
    }
    proof {
        assert(old(dst)@ + src@.subrange(0, src@.len() as int) =~= old(dst)@ + src@);
    }
}

/// `dir` and `name` joined, as `spec_join` gives it.
pub fn join_path(dir: &Vec<u8>, name: &Vec<u8>) -> (r: Vec<u8>)
    ensures
        r@ == spec_join(dir@, name@),
{
    if dir.len() == 0 {
        clone_bytes(name)
    } else {
        let mut r = clone_bytes(dir);
        if dir[dir.len() - 1] != SEPARATOR {
            r.push(SEPARATOR);
            proof {
                assert(r@ =~= dir@ + seq![SEPARATOR]);
            }
        }
        append_bytes(&mut r, name);
        r
    }
}

/// The `k`-th candidate name, as `spec_candidate_name` gives it.
pub fn candidate_name(name: &Vec<u8>, k: usize) -> (r: Vec<u8>)
    ensures
        r@ == spec_candidate_name(name@, k as nat),
{
    let (stem, ext) = split_name(name);
    let mut r = stem;
    proof {
        assert(r@ =~= spec_stem(name@) + underscores(0));
    }
    let mut j: usize = 0;
    while j < k
        invariant
            j <= k,
            r@ == spec_stem(name@) + underscores(j as nat),
        decreases k - j,
    {
        r.push(UNDERSCORE);
        proof {
            assert(r@ =~= spec_stem(name@) + underscores((j + 1) as nat));
        }
        j = j + 1;
    }
    match ext {
        Some(e) => {
            r.push(DOT);
            proof {
                assert(r@ =~= spec_stem(name@) + underscores(k as nat) + seq![DOT]);
            }
            append_bytes(&mut r, &e);
            proof {
                assert(r@ =~= spec_stem(name@) + underscores(k as nat) + seq![DOT] + e@);
            }
            r
        },
        None => {
            proof {
                assert(spec_stem(name@) == name@);
            }
            r
        },
    }
}

/// The `k`-th candidate path, as `spec_candidate_path` gives it.
pub fn candidate_path(dir: &Vec<u8>, name: &Vec<u8>, k: usize) -> (r: Vec<u8>)
    ensures
        r@ == spec_candidate_path(dir@, name@, k as nat),
{
    let cand = candidate_name(name, k);
    join_path(dir, &cand)
}

/// Whether `path` carries the accepted image extension.
pub fn is_png_path(path: &Vec<u8>) -> (r: bool)
    ensures
        r == is_candidate(path@),
{
    match file_name_of(path) {
        Some(name) => {
            let (_stem, ext) = split_name(&name);
            match ext {
                Some(e) => {
                    let ok = e.len() == 3 && e[0] == 112 && e[1] == 110 && e[2] == 103;
                    proof {
                        if ok {
                            assert(e@ =~= png_extension());
                        } else {
                            assert(e@ != png_extension());
                        }
                    }
                    ok
                },
                None => false,
            }
        },
        None => false,
    }
}

} // verus!
