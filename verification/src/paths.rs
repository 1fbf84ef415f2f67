//! Path algebra on plain strings.
//!
//! Pack and file paths are relative, `/`-separated strings; `"."` names the
//! project root.  Everything the rules need from a path — its parent, its
//! file name, prefix tests — is defined here over `Seq<char>`, with
//! executable counterparts proved against those definitions.

use vstd::prelude::*;

verus! {

/// Index of the last occurrence of `c` in `s`, if any.
pub open spec fn last_index_of(s: Seq<char>, c: char) -> Option<int>
    decreases s.len(),
{
    if s.len() == 0 {
        None
    } else if s.last() == c {
        Some(s.len() - 1)
    } else {
        last_index_of(s.drop_last(), c)
    }
}

/// The portion of a path before its last `/`; empty for a single-component
/// path.
pub open spec fn parent_of(s: Seq<char>) -> Seq<char> {
    match last_index_of(s, '/') {
        Some(i) => s.subrange(0, i),
        None => Seq::empty(),
    }
}

/// The portion of a path after its last `/`; the whole path when it has a
/// single component.
pub open spec fn file_name_of(s: Seq<char>) -> Seq<char> {
    match last_index_of(s, '/') {
        Some(i) => s.subrange(i + 1, s.len() as int),
        None => s,
    }
}

/// `pre` is a literal prefix of `s`.
pub open spec fn is_prefix_of(pre: Seq<char>, s: Seq<char>) -> bool {
    pre.len() <= s.len() && s.subrange(0, pre.len() as int) == pre
}

pub proof fn lemma_last_index_of_in_bounds(s: Seq<char>, c: char)
    ensures
        match last_index_of(s, c) {
            Some(i) => 0 <= i < s.len() && s[i] == c,
            None => true,
        },
    decreases s.len(),
{
    if s.len() > 0 && s.last() != c {
        lemma_last_index_of_in_bounds(s.drop_last(), c);
    }
}

/// When no occurrence of `c` lies at or after position `i`, the last
/// occurrence in `s` is the last occurrence in the prefix ending at `i`.
proof fn lemma_last_index_of_ignores_clean_suffix(s: Seq<char>, c: char, i: int)
    requires
        0 <= i <= s.len(),
        forall|j: int| i <= j < s.len() ==> s[j] != c,
    ensures
        last_index_of(s, c) == last_index_of(s.subrange(0, i), c),
    decreases s.len(),
{
    if i == s.len() {
        assert(s.subrange(0, i) =~= s);
    } else {
        let t = s.drop_last();
        assert(s.last() != c);
        assert(t =~= s.subrange(0, s.len() - 1));
        lemma_last_index_of_ignores_clean_suffix(t, c, i);
        assert(t.subrange(0, i) =~= s.subrange(0, i));
    }
}

/// Position of the last occurrence of `c` in `s`, scanning from the end.
pub fn last_index_of_char(s: &str, c: char) -> (r: Option<usize>)
    ensures
        match r {
            Some(i) => last_index_of(s@, c) == Some(i as int),
            None => last_index_of(s@, c) is None,
        },
{
    let n = s.unicode_len();
    let mut i = n;
    while i > 0
        invariant
            i <= n,
            n == s@.len(),
            forall|j: int| i <= j < s@.len() ==> s@[j] != c,
        decreases i,
    {
        if s.get_char(i - 1) == c {
            proof {
                lemma_last_index_of_ignores_clean_suffix(s@, c, i as int);
                assert(s@.subrange(0, i as int).last() == s@[i - 1]);
            }
            return Some(i - 1);
        }
        i = i - 1;
    }
    proof {
        lemma_last_index_of_ignores_clean_suffix(s@, c, 0);
        assert(s@.subrange(0, 0) =~= Seq::<char>::empty());
    }
    None
}

/// The parent of a path: everything before the last `/`, or the empty
/// string when the path is a single component.
pub fn parent_str(s: &str) -> (r: &str)
    ensures
        r@ == parent_of(s@),
{
    proof {
        lemma_last_index_of_in_bounds(s@, '/');
    }
    match last_index_of_char(s, '/') {
        Some(i) => s.substring_char(0, i),
        None => {
            let r = s.substring_char(0, 0);
            proof {
                assert(r@ =~= Seq::<char>::empty());
            }
            r
        },
    }
}

/// The file name of a path: everything after the last `/`, or the whole
/// path when it has a single component.
pub fn file_name_str(s: &str) -> (r: &str)
    ensures
        r@ == file_name_of(s@),
{
    proof {
        lemma_last_index_of_in_bounds(s@, '/');
    }
    let n = s.unicode_len();
    match last_index_of_char(s, '/') {
        Some(i) => {
            assert(i < n);
            s.substring_char(i + 1, n)
        },
        None => s,
    }
}

/// Character-for-character string equality.
pub fn str_eq(a: &str, b: &str) -> (r: bool)
    ensures
        r == (a@ == b@),
{
    let na = a.unicode_len();
    let nb = b.unicode_len();
    if na != nb {
        return false;
    }
    let mut i: usize = 0;
    while i < na
        invariant
            i <= na,
            na == a@.len(),
            na == b@.len(),
            forall|j: int| 0 <= j < i ==> a@[j] == b@[j],
        decreases na - i,
    {
        if a.get_char(i) != b.get_char(i) {
            return false;
        }
        i = i + 1;
    }
    proof {
        assert(a@ =~= b@);
    }
    true
}

/// Whether `s` starts with `pre`, character for character.
pub fn starts_with_str(s: &str, pre: &str) -> (r: bool)
    ensures
        r == is_prefix_of(pre@, s@),
{
    let np = pre.unicode_len();
    let ns = s.unicode_len();
    if np > ns {
        return false;
    }
    let mut i: usize = 0;
    while i < np
        invariant
            i <= np,
            np == pre@.len(),
            ns == s@.len(),
            np <= ns,
            forall|j: int| 0 <= j < i ==> s@[j] == pre@[j],
        decreases np - i,
    {
        if s.get_char(i) != pre.get_char(i) {
            proof {
                assert(s@.subrange(0, pre@.len() as int)[i as int] != pre@[i as int]);
            }
            return false;
        }
        i = i + 1;
    }
    proof {
        assert(s@.subrange(0, pre@.len() as int) =~= pre@);
    }
    true
}

} // verus!
