//! Character-level text operations on script names and paths.

use vstd::prelude::*;

verus! {

/// Whether two strings hold the same characters.
pub fn str_equal(a: &str, b: &str) -> (r: bool)
    ensures
        r == (a@ == b@),
{
    let n = a.unicode_len();
    if n != b.unicode_len() {
        return false;
    }
    let mut i: usize = 0;
    while i < n
        invariant
            n == a@.len(),
            n == b@.len(),
            i <= n,
            forall|j: int| 0 <= j < i ==> a@[j] == b@[j],
        decreases n - i,
    {
        if a.get_char(i) != b.get_char(i) {
            return false;
        }
        i = i + 1;
    }
    assert(a@ =~= b@);
    true
}

/// Whether `s` begins with `prefix`.
pub fn str_starts_with(s: &str, prefix: &str) -> (r: bool)
    ensures
        r == prefix@.is_prefix_of(s@),
{
    let n = prefix.unicode_len();
    if n > s.unicode_len() {
        return false;
    }
    let mut i: usize = 0;
    while i < n
        invariant
            n == prefix@.len(),
            n <= s@.len(),
            i <= n,
            forall|j: int| 0 <= j < i ==> prefix@[j] == s@[j],
        decreases n - i,
    {
        if prefix.get_char(i) != s.get_char(i) {
            return false;
        }
        i = i + 1;
    }
    assert(prefix@ =~= s@.subrange(0, n as int));
    true
}

/// `k` is the position of the last `'.'` in `s`.
pub open spec fn last_dot_at(s: Seq<char>, k: int) -> bool {
    &&& 0 <= k < s.len()
    &&& s[k] == '.'
    &&& forall|j: int| k < j < s.len() ==> s[j] != '.'
}

/// `s` holds a dot that separates a stem from an extension: its last dot,
/// which is not its first character.
pub open spec fn has_extension_dot(s: Seq<char>) -> bool {
    exists|k: int| last_dot_at(s, k) && k > 0
}

/// The position of the dot that separates a file name's stem from its
/// extension.
pub open spec fn extension_dot(s: Seq<char>) -> int {
    choose|k: int| last_dot_at(s, k) && k > 0
}

/// The stem of a file name, as `std::path::Path::file_stem` documents it: what
/// precedes its last dot; the whole name where it holds no dot, or where its
/// only dot leads it (as in `.profile`).
pub open spec fn stem_of(s: Seq<char>) -> Seq<char> {
    if has_extension_dot(s) {
        s.subrange(0, extension_dot(s))
    } else {
        s
    }
}

/// The extension of a file name, as `std::path::Path::extension` documents
/// it: what follows its last dot, where that dot is not the name's first
/// character; empty otherwise (no dot, or a name such as `.profile` whose only
/// dot leads it).
pub open spec fn extension_of(s: Seq<char>) -> Seq<char> {
    if has_extension_dot(s) {
        s.subrange(extension_dot(s) + 1, s.len() as int)
    } else {
        Seq::empty()
    }
}

/// `s` with every backslash turned into a forward slash.
pub open spec fn forward_slashes(s: Seq<char>) -> Seq<char> {
    s.map_values(|c: char| if c == '\\' { '/' } else { c })
}

/// Stem and extension of a name whose last dot is at position `k`.
pub proof fn lemma_split_at_last_dot(s: Seq<char>, k: int)
    requires
        last_dot_at(s, k),
    ensures
        k > 0 ==> stem_of(s) == s.subrange(0, k) && extension_of(s) == s.subrange(
            k + 1,
            s.len() as int,
        ),
        k == 0 ==> stem_of(s) == s && extension_of(s) == Seq::<char>::empty(),
{
    if k > 0 {
        let c = extension_dot(s);
        if c < k {
            assert(s[k] != '.');
        } else if k < c {
            assert(s[c] != '.');
        }
    } else {
        assert forall|c: int| last_dot_at(s, c) implies c == 0 by {
            if c > 0 {
                assert(s[c] != '.');
            }
        }
    }
}

/// Stem and extension of a name that holds no dot.
pub proof fn lemma_no_dot(s: Seq<char>)
    requires
        forall|j: int| 0 <= j < s.len() ==> s[j] != '.',
    ensures
        stem_of(s) == s,
        extension_of(s) == Seq::<char>::empty(),
{
    assert forall|c: int| !last_dot_at(s, c) by {
        if 0 <= c < s.len() {
            assert(s[c] != '.');
        }
    }
}

/// A name with no dot.
pub open spec fn dotless(s: Seq<char>) -> bool {
    forall|j: int| 0 <= j < s.len() ==> s[j] != '.'
}

/// A file name made of a nonempty stem, a dot and a dotless extension splits
/// back into that stem and that extension.
pub proof fn lemma_stem_and_extension_split(stem: Seq<char>, ext: Seq<char>)
    requires
        stem.len() > 0,
        dotless(ext),
    ensures
        stem_of(stem + seq!['.'] + ext) == stem,
        extension_of(stem + seq!['.'] + ext) == ext,
{
    let f = stem + seq!['.'] + ext;
    let k = stem.len() as int;
    assert(f[k] == '.');
    assert forall|j: int| k < j < f.len() implies f[j] != '.' by {
        assert(f[j] == ext[j - k - 1]);
    }
    lemma_split_at_last_dot(f, k);
    assert(f.subrange(0, k) =~= stem);
    assert(f.subrange(k + 1, f.len() as int) =~= ext);
}

/// A file name with an extension is its stem, a dot and its extension: the
/// name without its extension, followed by the extension, gives the name back.
pub proof fn lemma_stem_dot_extension(s: Seq<char>)
    requires
        extension_of(s).len() > 0,
    ensures
        stem_of(s) + seq!['.'] + extension_of(s) == s,
{
    let k = extension_dot(s);
    assert(stem_of(s) + seq!['.'] + extension_of(s) =~= s);
}

/// The position just past the last dot of `s[..end]`, or 0 where it holds none.
fn after_last_dot(file_name: &str, n: usize) -> (k: usize)
    requires
        n == file_name@.len(),
    ensures
        k <= n,
        forall|j: int| k <= j < n ==> file_name@[j] != '.',
        k > 0 ==> file_name@[k - 1] == '.',
{
    let mut k: usize = n;
    while k > 0 && file_name.get_char(k - 1) != '.'
        invariant
            n == file_name@.len(),
            k <= n,
            forall|j: int| k <= j < n ==> file_name@[j] != '.',
        decreases k,
    {
        k = k - 1;
    }
    k
}

/// The name of a script file: its file name without its extension, as
/// `std::path::Path::file_stem` documents it.
pub fn file_stem(file_name: &str) -> (r: String)
    ensures
        r@ == stem_of(file_name@),
{
    let n = file_name.unicode_len();
    let k = after_last_dot(file_name, n);
    if k <= 1 {
        proof {
            if k == 1 {
                lemma_split_at_last_dot(file_name@, 0);
            } else {
                lemma_no_dot(file_name@);
            }
        }
        String::from_str(file_name)
    } else {
        proof {
            lemma_split_at_last_dot(file_name@, k - 1);
        }
        String::from_str(file_name.substring_char(0, k - 1))
    }
}

/// The extension of a file name as `std::path::Path::extension` documents
/// it, with a missing extension read as empty.
pub fn file_extension(file_name: &str) -> (r: String)
    ensures
        r@ == extension_of(file_name@),
{
    let n = file_name.unicode_len();
    let k = after_last_dot(file_name, n);
    if k <= 1 {
        proof {
            if k == 1 {
                lemma_split_at_last_dot(file_name@, 0);
            } else {
                lemma_no_dot(file_name@);
            }
        }
        let r = String::new();
        proof {
            assert(r@ =~= extension_of(file_name@));
        }
        r
    } else {
        proof {
            lemma_split_at_last_dot(file_name@, k - 1);
        }
        String::from_str(file_name.substring_char(k, n))
    }
}

/// A path with every backslash turned into a forward slash.
pub fn to_forward_slashes(path: &str) -> (r: String)
    ensures
        r@ == forward_slashes(path@),
{
    let n = path.unicode_len();
    let mut out = String::new();
    let mut i: usize = 0;
    let slash = "/";
    proof {
        reveal_strlit("/");
    }
    while i < n
        invariant
            n == path@.len(),
            i <= n,
            slash@ == seq!['/'],
            out@ == forward_slashes(path@.subrange(0, i as int)),
        decreases n - i,
    {
        let c = path.get_char(i);
        let piece = path.substring_char(i, i + 1);
        let ghost before = out@;
        if c == '\\' {
            out.append(slash);
        } else {
            out.append(piece);
        }
        proof {
            assert(piece@ =~= seq![c]);
            assert(forward_slashes(path@.subrange(0, i + 1)) =~= forward_slashes(
                path@.subrange(0, i as int),
            ).push(if c == '\\' { '/' } else { c }));
            assert(out@ =~= forward_slashes(path@.subrange(0, i + 1)));
        }
        i = i + 1;
    }
    proof {
        assert(path@.subrange(0, n as int) =~= path@);
    }
    out
}

} // verus!
