//! What the library keeps of the evaluation of Python functions: the error
//! of an evaluation, and the fingerprint of a module's sources.
use vstd::prelude::*;

use xxhash_rust::xxh3::Xxh3Default;

verus! {

/// Why evaluating a Python function failed.
#[derive(Debug, Clone, PartialEq, Eq)]
pub enum PythonEvalError {
    /// Python raised an error, or an argument or result could not be
    /// converted.
    PyErr {
        /// The error message.
        message: String,
        /// The Python traceback, if there is one.
        traceback: Option<String>,
    },
    /// The function returned a value that cannot be used.
    InvalidReturnValue {
        /// The representation of the value.
        value_repr: String,
    },
}

#[verifier::external_type_specification]
#[verifier::external_body]
pub struct ExXxh3Default(Xxh3Default);

/// The bytes that a streaming XXH3 hasher has been fed, in order.
pub uninterp spec fn xxh3_fed(h: Xxh3Default) -> Seq<u8>;

/// The 64-bit XXH3 hash, with the default secret and seed, of `input`.
pub uninterp spec fn xxh3_of(input: Seq<u8>) -> u64;

/// `Xxh3Default::new`: a streaming hasher that has been fed nothing.
#[verifier::external_body]
fn hasher_new() -> (h: Xxh3Default)
    ensures
        xxh3_fed(h) == Seq::<u8>::empty(),
{
    Xxh3Default::new()
}

/// `Xxh3Default::update`: feeds `input` to the hasher, after what it was
/// fed before.
#[verifier::external_body]
fn hasher_update(h: &mut Xxh3Default, input: &[u8])
    ensures
        xxh3_fed(*final(h)) == xxh3_fed(*old(h)) + input@,
{
    h.update(input)
}

/// `Xxh3Default::digest`: the hash of all the bytes fed so far, which
/// depends on those bytes alone (not on how they were split into updates).
#[verifier::external_body]
fn hasher_digest(h: &Xxh3Default) -> (r: u64)
    ensures
        r == xxh3_of(xxh3_fed(*h)),
{
    h.digest()
}

/// The bytes of the UTF-8 encodings of `sources`, one after the other.
pub open spec fn all_source_bytes(sources: Seq<String>) -> Seq<u8>
    decreases sources.len(),
{
    if sources.len() == 0 {
        Seq::empty()
    } else {
        all_source_bytes(sources.drop_last()) + vstd::utf8::encode_utf8(sources.last()@)
    }
}

/// The fingerprint of the sources of a module and its dependencies, in the
/// order given: the XXH3 hash of all their bytes.
pub fn hash_sources(sources: &Vec<String>) -> (r: u64)
    ensures
        r == xxh3_of(all_source_bytes(sources@)),
{
    let mut h = hasher_new();
    let mut i: usize = 0;
    while i < sources.len()
        invariant
            i <= sources@.len(),
            xxh3_fed(h) == all_source_bytes(sources@.take(i as int)),
        decreases sources@.len() - i,
    {
        let bytes = sources[i].as_str().as_bytes();
        hasher_update(&mut h, bytes);
        proof {
            assert(sources@.take(i + 1).drop_last() =~= sources@.take(i as int));
        }
        i = i + 1;
    }
    proof {
        assert(sources@.take(i as int) =~= sources@);
    }
    hasher_digest(&h)
}

/// The positions, in increasing order, of the sources that could not be
/// read.
pub open spec fn unread_positions(reads: Seq<Option<String>>) -> Seq<int>
    decreases reads.len(),
{
    if reads.len() == 0 {
        Seq::empty()
    } else if reads.last() is None {
        unread_positions(reads.drop_last()).push(reads.len() - 1)
    } else {
        unread_positions(reads.drop_last())
    }
}

/// The texts of sources that were all read.
pub open spec fn read_texts(reads: Seq<Option<String>>) -> Seq<String> {
    reads.map_values(|o: Option<String>| o->Some_0)
}

/// Every position that `unread_positions` lists holds a source that could
/// not be read, and it lists one exactly when there is such a source.
proof fn lemma_unread_positions(reads: Seq<Option<String>>)
    ensures
        forall|k: int| 0 <= k < unread_positions(reads).len() ==> 0 <= #[trigger] unread_positions(reads)[k]
            < reads.len() && reads[unread_positions(reads)[k]] is None,
        unread_positions(reads).len() == 0 <==> forall|i: int| 0 <= i < reads.len() ==> #[trigger] reads[i] is Some,
    decreases reads.len(),
{
    if reads.len() > 0 {
        let init = reads.drop_last();
        lemma_unread_positions(init);
        assert forall|i: int| 0 <= i < init.len() implies #[trigger] init[i] == reads[i] by {}
        if unread_positions(reads).len() == 0 {
            assert forall|i: int| 0 <= i < reads.len() implies #[trigger] reads[i] is Some by {
                if i < init.len() {
                    assert(init[i] is Some);
                }
            }
        } else {
            let k0 = unread_positions(reads)[0];
            assert(reads[k0] is None);
        }
    }
}

/// The fingerprint of sources read from files, in the order given: the
/// hash of all their bytes when every file was read, else the positions of
/// the files that could not be read, all of them, in order.
pub fn hash_read_sources(reads: &Vec<Option<String>>) -> (r: Result<u64, Vec<usize>>)
    ensures
        r is Ok <==> forall|i: int| 0 <= i < reads@.len() ==> #[trigger] reads@[i] is Some,
        r matches Ok(h) ==> h == xxh3_of(all_source_bytes(read_texts(reads@))),
        r matches Err(v) ==> v@.len() > 0 && v@.map_values(|k: usize| k as int) == unread_positions(reads@),
{
    let mut missing: Vec<usize> = Vec::new();
    let mut texts: Vec<String> = Vec::new();
    let mut i: usize = 0;
    while i < reads.len()
        invariant
            i <= reads@.len(),
            missing@.map_values(|k: usize| k as int) == unread_positions(reads@.take(i as int)),
            missing@.len() == 0 ==> texts@ == read_texts(reads@.take(i as int)),
        decreases reads@.len() - i,
    {
        proof {
            assert(reads@.take(i + 1).drop_last() =~= reads@.take(i as int));
        }
        match &reads[i] {
            Some(t) => {
                if missing.len() == 0 {
                    texts.push(t.clone());
                    proof {
                        assert(texts@ =~= read_texts(reads@.take(i + 1)));
                    }
                }
                proof {
                    assert(missing@.map_values(|k: usize| k as int) =~= unread_positions(reads@.take(i + 1)));
                }
            },
            None => {
                let ghost before = missing@;
                missing.push(i);
                proof {
                    assert(missing@.map_values(|k: usize| k as int) =~= before.map_values(|k: usize| k as int).push(
                        i as int,
                    ));
                }
            },
        }
        i = i + 1;
    }
    proof {
        assert(reads@.take(i as int) =~= reads@);
        lemma_unread_positions(reads@);
    }
    if missing.len() == 0 {
        Ok(hash_sources(&texts))
    } else {
        Err(missing)
    }
}

/// The text holds a NUL character, which Python cannot be given.
pub open spec fn has_nul(t: Seq<char>) -> bool {
    exists|i: int| 0 <= i < t.len() && t[i] == '\u{0}'
}

/// Whether the Python source `source` holds a NUL character.
pub fn source_has_null_byte(source: &str) -> (r: bool)
    ensures
        r == has_nul(source@),
{
    let n = source.unicode_len();
    let mut i: usize = 0;
    while i < n
        invariant
            n == source@.len(),
            i <= n,
            forall|j: int| 0 <= j < i ==> source@[j] != '\u{0}',
        decreases n - i,
    {
        if source.get_char(i) == '\u{0}' {
            return true;
        }
        i = i + 1;
    }
    false
}

/// `t` without every trailing `.py`.
pub open spec fn strip_py(t: Seq<char>) -> Seq<char>
    decreases t.len(),
{
    if t.len() >= 3 && t.subrange(t.len() - 3, t.len() as int) == seq!['.', 'p', 'y'] {
        strip_py(t.subrange(0, t.len() - 3))
    } else {
        t
    }
}

/// `t` with each `/` written as `.`.
pub open spec fn slashes_to_dots(t: Seq<char>) -> Seq<char> {
    t.map_values(|c: char| if c == '/' { '.' } else { c })
}

/// The name of the Python module at the path `t`: the path without its
/// trailing `.py`s, with `/` written as `.`.
pub open spec fn module_name_of(t: Seq<char>) -> Seq<char> {
    slashes_to_dots(strip_py(t))
}

/// The length of `t` without its trailing `.py`s.
fn stripped_len(path: &str) -> (r: usize)
    ensures
        r <= path@.len(),
        strip_py(path@) == path@.subrange(0, r as int),
{
    let n = path.unicode_len();
    let mut k = n;
    proof {
        assert(path@.subrange(0, n as int) =~= path@);
    }
    while k >= 3 && path.get_char(k - 3) == '.' && path.get_char(k - 2) == 'p' && path.get_char(k - 1) == 'y'
        invariant
            n == path@.len(),
            k <= n,
            strip_py(path@) == strip_py(path@.subrange(0, k as int)),
        decreases k,
    {
        proof {
            let t = path@.subrange(0, k as int);
            assert(t.subrange(t.len() - 3, t.len() as int) =~= seq!['.', 'p', 'y']);
            assert(t.subrange(0, t.len() - 3) =~= path@.subrange(0, k - 3));
        }
        k = k - 3;
    }
    proof {
        let t = path@.subrange(0, k as int);
        if t.len() >= 3 && t.subrange(t.len() - 3, t.len() as int) == seq!['.', 'p', 'y'] {
            assert(t.subrange(t.len() - 3, t.len() as int)[0] == path@[k - 3]);
            assert(t.subrange(t.len() - 3, t.len() as int)[1] == path@[k - 2]);
            assert(t.subrange(t.len() - 3, t.len() as int)[2] == path@[k - 1]);
        }
    }
    k
}

/// The name of the Python module at `path`: the path without its trailing
/// `.py`s, with `/` written as `.`.
pub fn module_name(path: &str) -> (r: String)
    ensures
        r@ == module_name_of(path@),
{
    let m = stripped_len(path);
    let ghost t = path@.subrange(0, m as int);
    let mut r = String::from_str("");
    let mut start: usize = 0;
    let mut i: usize = 0;
    proof {
        reveal_strlit("");
        assert(slashes_to_dots(t.subrange(0, 0)) =~= Seq::<char>::empty());
    }
    while i < m
        invariant
            m <= path@.len(),
            t == path@.subrange(0, m as int),
            start <= i <= m,
            r@ == slashes_to_dots(t.subrange(0, start as int)),
            forall|j: int| start <= j < i ==> path@[j] != '/',
        decreases m - i,
    {
        if path.get_char(i) == '/' {
            let piece = path.substring_char(start, i);
            let ghost before = r@;
            r.append(piece);
            r.append(".");
            proof {
                reveal_strlit(".");
                assert(slashes_to_dots(t.subrange(0, i + 1)) =~= slashes_to_dots(t.subrange(0, start as int))
                    + path@.subrange(start as int, i as int) + seq!['.']);
            }
            start = i + 1;
        }
        i = i + 1;
    }
    let piece = path.substring_char(start, m);
    r.append(piece);
    proof {
        assert(slashes_to_dots(t) =~= slashes_to_dots(t.subrange(0, start as int)) + path@.subrange(
            start as int,
            m as int,
        ));
    }
    r
}

/// A name that a Python module exports to Oneil: one that does not start
/// with `__`.
pub open spec fn is_exported(name: Seq<char>) -> bool {
    !(name.len() >= 2 && name[0] == '_' && name[1] == '_')
}

/// Whether the Python name `name` is exported to Oneil: it does not start
/// with `__`.
pub fn is_exported_name(name: &str) -> (r: bool)
    ensures
        r == is_exported(name@),
{
    let n = name.unicode_len();
    !(n >= 2 && name.get_char(0) == '_' && name.get_char(1) == '_')
}

/// `t` without its trailing `/`s.
pub open spec fn trim_end_slashes(t: Seq<char>) -> Seq<char>
    decreases t.len(),
{
    if t.len() > 0 && t.last() == '/' {
        trim_end_slashes(t.drop_last())
    } else {
        t
    }
}

/// The position after the last `/` of `u`, or 0 when it has none.
pub open spec fn after_last_slash(u: Seq<char>) -> int
    decreases u.len(),
{
    if u.len() == 0 {
        0
    } else if u.last() == '/' {
        u.len() as int
    } else {
        after_last_slash(u.drop_last())
    }
}

/// The file name of the path `t`, as `Path::file_name` reads it: its last
/// component, where `.` components do not count and a last `..` has no file
/// name.
pub open spec fn file_name_of(t: Seq<char>) -> Option<Seq<char>>
    decreases t.len(),
{
    let u = trim_end_slashes(t);
    if u.len() == 0 {
        None
    } else {
        let i = after_last_slash(u);
        let comp = u.subrange(i, u.len() as int);
        if comp == seq!['.'] {
            if 0 <= i < t.len() && i <= u.len() {
                file_name_of(u.subrange(0, i))
            } else {
                None
            }
        } else if comp == seq!['.', '.'] {
            None
        } else {
            Some(comp)
        }
    }
}

/// The position after the last `.` of `n`, or 0 when it has none.
pub open spec fn after_last_dot(n: Seq<char>) -> int
    decreases n.len(),
{
    if n.len() == 0 {
        0
    } else if n.last() == '.' {
        n.len() as int
    } else {
        after_last_dot(n.drop_last())
    }
}

/// The path `t` names a Python module: its file name has the extension
/// `py`, as `Path::extension` reads it (the text after the last `.`, when
/// that `.` is not the first character of the name).
pub open spec fn has_py_extension(t: Seq<char>) -> bool {
    match file_name_of(t) {
        None => false,
        Some(n) => {
            let d = after_last_dot(n);
            d > 1 && n.subrange(d, n.len() as int) == seq!['p', 'y']
        },
    }
}

proof fn lemma_trim_end_slashes(t: Seq<char>, e: int)
    requires
        0 <= e <= t.len(),
        forall|j: int| e <= j < t.len() ==> t[j] == '/',
        e == 0 || t[e - 1] != '/',
    ensures
        trim_end_slashes(t) == t.subrange(0, e),
    decreases t.len(),
{
    if t.len() > e {
        lemma_trim_end_slashes(t.drop_last(), e);
        assert(t.drop_last().subrange(0, e) =~= t.subrange(0, e));
    } else {
        assert(t.subrange(0, e) =~= t);
    }
}

proof fn lemma_after_last(u: Seq<char>, i: int, c: char, last: spec_fn(Seq<char>) -> int)
    requires
        0 <= i <= u.len(),
        forall|j: int| i <= j < u.len() ==> u[j] != c,
        i == 0 || u[i - 1] == c,
        forall|v: Seq<char>|
            #[trigger] last(v) == if v.len() == 0 {
                0
            } else if v.last() == c {
                v.len() as int
            } else {
                last(v.drop_last())
            },
    ensures
        last(u) == i,
    decreases u.len(),
{
    if u.len() > i {
        lemma_after_last(u.drop_last(), i, c, last);
    }
}

/// The start and end of the file name of `path[..k]`, if it has one.
fn file_name_range(path: &str, k: usize) -> (r: Option<(usize, usize)>)
    requires
        k <= path@.len(),
    ensures
        match r {
            Some((a, b)) => a <= b <= k && file_name_of(path@.subrange(0, k as int)) == Some(
                path@.subrange(a as int, b as int),
            ),
            None => file_name_of(path@.subrange(0, k as int)) is None,
        },
    decreases k,
{
    let ghost t = path@.subrange(0, k as int);
    let mut e = k;
    while e > 0 && path.get_char(e - 1) == '/'
        invariant
            e <= k <= path@.len(),
            t == path@.subrange(0, k as int),
            forall|j: int| e <= j < k ==> path@[j] == '/',
        decreases e,
    {
        e = e - 1;
    }
    proof {
        lemma_trim_end_slashes(t, e as int);
        assert(t.subrange(0, e as int) =~= path@.subrange(0, e as int));
    }
    if e == 0 {
        return None;
    }
    let ghost u = path@.subrange(0, e as int);
    let mut i = e;
    while i > 0 && path.get_char(i - 1) != '/'
        invariant
            i <= e <= path@.len(),
            u == path@.subrange(0, e as int),
            forall|j: int| i <= j < e ==> path@[j] != '/',
        decreases i,
    {
        i = i - 1;
    }
    proof {
        lemma_after_last(u, i as int, '/', |v: Seq<char>| after_last_slash(v));
        assert(u.subrange(i as int, u.len() as int) =~= path@.subrange(i as int, e as int));
    }
    if e - i == 1 && path.get_char(i) == '.' {
        proof {
            assert(path@.subrange(i as int, e as int) =~= seq!['.']);
            assert(u.subrange(0, i as int) =~= path@.subrange(0, i as int));
        }
        return file_name_range(path, i);
    }
    if e - i == 2 && path.get_char(i) == '.' && path.get_char(i + 1) == '.' {
        proof {
            assert(path@.subrange(i as int, e as int) =~= seq!['.', '.']);
        }
        return None;
    }
    proof {
        if path@.subrange(i as int, e as int) == seq!['.'] {
            assert(path@.subrange(i as int, e as int)[0] == path@[i as int]);
        }
        if path@.subrange(i as int, e as int) == seq!['.', '.'] {
            assert(path@.subrange(i as int, e as int)[0] == path@[i as int]);
            assert(path@.subrange(i as int, e as int)[1] == path@[i + 1]);
        }
    }
    Some((i, e))
}

/// Whether the path `path` names a Python module: its file name has the
/// extension `py`.
pub fn is_python_module_path(path: &str) -> (r: bool)
    ensures
        r == has_py_extension(path@),
{
    let n = path.unicode_len();
    proof {
        assert(path@.subrange(0, n as int) =~= path@);
    }
    match file_name_range(path, n) {
        None => false,
        Some((a, b)) => {
            let ghost nm = path@.subrange(a as int, b as int);
            let mut d = b;
            while d > a && path.get_char(d - 1) != '.'
                invariant
                    a <= d <= b <= path@.len(),
                    nm == path@.subrange(a as int, b as int),
                    forall|j: int| d <= j < b ==> path@[j] != '.',
                decreases d,
            {
                d = d - 1;
            }
            proof {
                let dd = d - a;
                assert forall|j: int| dd <= j < nm.len() implies nm[j] != '.' by {
                    assert(nm[j] == path@[a + j]);
                }
                if dd > 0 {
                    assert(nm[dd - 1] == path@[d - 1]);
                }
                lemma_after_last(nm, dd as int, '.', |v: Seq<char>| after_last_dot(v));
                assert(nm.subrange(dd as int, nm.len() as int) =~= path@.subrange(d as int, b as int));
            }
            if d - a > 1 && b - d == 2 && path.get_char(d) == 'p' && path.get_char(d + 1) == 'y' {
                proof {
                    assert(path@.subrange(d as int, b as int) =~= seq!['p', 'y']);
                }
                true
            } else {
                proof {
                    if path@.subrange(d as int, b as int) == seq!['p', 'y'] {
                        assert(path@.subrange(d as int, b as int)[0] == path@[d as int]);
                        assert(path@.subrange(d as int, b as int)[1] == path@[d + 1]);
                    }
                }
                false
            }
        },
    }
}

} // verus!
