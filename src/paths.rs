//! Paths as '/'-separated strings, joined the way a relative or absolute
//! component extends a base directory.

use vstd::prelude::*;

verus! {

/// The path separator used throughout the library.
pub const SEPARATOR: char = '/';

/// Joining `name` onto `base`: an absolute `name` replaces the base, an empty
/// base yields `name` alone, and otherwise exactly one separator stands between.
pub open spec fn join_path(base: Seq<char>, name: Seq<char>) -> Seq<char> {
    if name.len() > 0 && name[0] == '/' {
        name
    } else if base.len() == 0 {
        name
    } else if base[base.len() - 1] == '/' {
        base + name
    } else {
        base + seq!['/'] + name
    }
}

/// Whether `s` names one entry inside a directory: not empty, not `.` or
/// `..`, and without a '/' or '\\' separator.
pub open spec fn is_plain_component(s: Seq<char>) -> bool {
    &&& s.len() > 0
    &&& s != seq!['.']
    &&& s != seq!['.', '.']
    &&& forall|i: int| 0 <= i < s.len() ==> #[trigger] s[i] != '/' && s[i] != '\\'
}

/// Whether `s` names one entry inside a directory.
pub fn plain_component(s: &str) -> (r: bool)
    ensures
        r == is_plain_component(s@),
{
    let n = s.unicode_len();
    if n == 0 {
        return false;
    }
    if n <= 2 && s.get_char(0) == '.' && (n == 1 || s.get_char(1) == '.') {
        assert(s@ =~= seq!['.'] || s@ =~= seq!['.', '.']);
        return false;
    }
    let mut i: usize = 0;
    while i < n
        invariant
            n == s@.len(),
            i <= n,
            forall|k: int| 0 <= k < i ==> #[trigger] s@[k] != '/' && s@[k] != '\\',
        decreases n - i,
    {
        let c = s.get_char(i);
        if c == '/' || c == '\\' {
            return false;
        }
        i += 1;
    }
    proof {
        if n == 1 {
            assert(s@ != seq!['.', '.']);
            if s@ =~= seq!['.'] {
                assert(s@[0] == '.');
            }
        }
        if n == 2 && s@ =~= seq!['.', '.'] {
            assert(s@[0] == '.' && s@[1] == '.');
        }
    }
    true
}

/// Joins `name` onto the directory `base`.
pub fn join(base: &str, name: &str) -> (r: String)
    ensures
        r@ == join_path(base@, name@),
{
    let name_len = name.unicode_len();
    let base_len = base.unicode_len();
    if name_len > 0 && name.get_char(0) == SEPARATOR {
        return String::from_str(name);
    }
    if base_len == 0 {
        return String::from_str(name);
    }
    let mut r = String::from_str(base);
    if base.get_char(base_len - 1) != SEPARATOR {
        r.append("/");
        proof {
            reveal_strlit("/");
        }
    }
    r.append(name);
    assert(r@ =~= join_path(base@, name@));
    r
}

/// The characters of `s`, in order.
pub fn chars_of(s: &str) -> (r: Vec<char>)
    ensures
        r@ == s@,
{
    let n = s.unicode_len();
    let mut r: Vec<char> = Vec::new();
    let mut i: usize = 0;
    while i < n
        invariant
            n == s@.len(),
            i <= n,
            r@ == s@.subrange(0, i as int),
        decreases n - i,
    {
        r.push(s.get_char(i));
        i += 1;
        assert(r@ =~= s@.subrange(0, i as int));
    }
    assert(r@ =~= s@);
    r
}

} // verus!
