//! String primitives for path and key manipulation.
//!
//! Paths and object keys are plain strings; every operation here is specified
//! over the `Seq<char>` view of its arguments.

use vstd::prelude::*;
use vstd::string::StrSliceExecFns;
use vstd::string::StringExecFns;

verus! {

/// `p` is a prefix of `s`.
pub open spec fn spec_starts_with(s: Seq<char>, p: Seq<char>) -> bool {
    p.len() <= s.len() && s.subrange(0, p.len() as int) == p
}

/// The last character of `s` is `c`.
pub open spec fn spec_ends_with(s: Seq<char>, c: char) -> bool {
    s.len() > 0 && s[s.len() - 1] == c
}

/// `s` with one leading occurrence of `p` removed; `s` itself when `p` is not
/// a prefix of `s`.
pub open spec fn spec_strip_prefix(s: Seq<char>, p: Seq<char>) -> Seq<char> {
    if spec_starts_with(s, p) {
        s.subrange(p.len() as int, s.len() as int)
    } else {
        s
    }
}

/// `s` with every leading occurrence of `c` removed.
pub open spec fn spec_trim_leading(s: Seq<char>, c: char) -> Seq<char>
    decreases s.len(),
{
    if s.len() > 0 && s[0] == c {
        spec_trim_leading(s.drop_first(), c)
    } else {
        s
    }
}

/// `s` with every trailing occurrence of `c` removed.
pub open spec fn spec_trim_trailing(s: Seq<char>, c: char) -> Seq<char>
    decreases s.len(),
{
    if s.len() > 0 && s[s.len() - 1] == c {
        spec_trim_trailing(s.drop_last(), c)
    } else {
        s
    }
}

/// The suffix of `s` after its last `/`; all of `s` when it has none.
pub open spec fn spec_last_segment(s: Seq<char>) -> Seq<char>
    decreases s.len(),
{
    if s.len() == 0 {
        s
    } else if s[s.len() - 1] == '/' {
        Seq::<char>::empty()
    } else {
        spec_last_segment(s.drop_last()).push(s[s.len() - 1])
    }
}

/// Path concatenation: a separator is inserted unless the root is empty or
/// already ends with one.
pub open spec fn spec_join(root: Seq<char>, sub: Seq<char>) -> Seq<char> {
    if root.len() == 0 {
        sub
    } else if spec_ends_with(root, '/') {
        root + sub
    } else {
        root + seq!['/'] + sub
    }
}

/// Concatenation with a fixed left part is injective.
pub proof fn lemma_concat_cancel_left(a: Seq<char>, x: Seq<char>, y: Seq<char>)
    requires
        a + x == a + y,
    ensures
        x == y,
{
    assert(x =~= (a + x).subrange(a.len() as int, (a + x).len() as int));
    assert(y =~= (a + y).subrange(a.len() as int, (a + y).len() as int));
}

/// `spec_join` with a fixed root is injective.
pub proof fn lemma_join_cancel(root: Seq<char>, x: Seq<char>, y: Seq<char>)
    requires
        spec_join(root, x) == spec_join(root, y),
    ensures
        x == y,
{
    if root.len() == 0 {
    } else if spec_ends_with(root, '/') {
        lemma_concat_cancel_left(root, x, y);
    } else {
        lemma_concat_cancel_left(root + seq!['/'], x, y);
    }
}

/// Character-wise string equality.
pub fn str_eq(a: &str, b: &str) -> (r: bool)
    ensures
        r == (a@ == b@),
{
    let alen = a.unicode_len();
    let blen = b.unicode_len();
    if alen != blen {
        assert(a@ != b@);
        return false;
    }
    let mut i: usize = 0;
    while i < alen
        invariant
            alen == a@.len(),
            alen == b@.len(),
            i <= alen,
            forall|j: int| 0 <= j < i ==> a@[j] == b@[j],
        decreases alen - i,
    {
        if a.get_char(i) != b.get_char(i) {
            return false;
        }
        i += 1;
    }
    assert(a@ =~= b@);
    true
}

/// Does `s` start with `p`?
pub fn starts_with_str(s: &str, p: &str) -> (r: bool)
    ensures
        r == spec_starts_with(s@, p@),
{
    let slen = s.unicode_len();
    let plen = p.unicode_len();
    if plen > slen {
        return false;
    }
    let mut i: usize = 0;
    while i < plen
        invariant
            slen == s@.len(),
            plen == p@.len(),
            plen <= slen,
            i <= plen,
            forall|j: int| 0 <= j < i ==> s@[j] == p@[j],
        decreases plen - i,
    {
        if s.get_char(i) != p.get_char(i) {
            assert(!spec_starts_with(s@, p@)) by {
                assert(s@.subrange(0, p@.len() as int)[i as int] != p@[i as int]);
            }
            return false;
        }
        i += 1;
    }
    assert(s@.subrange(0, p@.len() as int) =~= p@);
    true
}

/// Does `s` end with the character `c`?
pub fn ends_with_char(s: &str, c: char) -> (r: bool)
    ensures
        r == spec_ends_with(s@, c),
{
    let len = s.unicode_len();
    if len == 0 {
        false
    } else {
        s.get_char(len - 1) == c
    }
}

/// `s` with one leading occurrence of `p` removed, if present.
pub fn strip_prefix_str(s: &str, p: &str) -> (r: String)
    ensures
        r@ == spec_strip_prefix(s@, p@),
{
    if starts_with_str(s, p) {
        let slen = s.unicode_len();
        let plen = p.unicode_len();
        let tail = s.substring_char(plen, slen);
        String::from_str(tail)
    } else {
        String::from_str(s)
    }
}

proof fn lemma_trim_leading_subrange(s: Seq<char>, c: char, i: int)
    requires
        0 <= i <= s.len(),
        forall|j: int| 0 <= j < i ==> s[j] == c,
        i == s.len() || s[i] != c,
    ensures
        spec_trim_leading(s, c) == s.subrange(i, s.len() as int),
    decreases i,
{
    if i == 0 {
        assert(s.subrange(0, s.len() as int) =~= s);
    } else {
        assert(s[0] == c);
        lemma_trim_leading_subrange(s.drop_first(), c, i - 1);
        assert(s.drop_first().subrange(i - 1, s.drop_first().len() as int) =~= s.subrange(
            i,
            s.len() as int,
        ));
    }
}

/// `s` with every leading occurrence of `c` removed.
pub fn trim_leading_char(s: &str, c: char) -> (r: String)
    ensures
        r@ == spec_trim_leading(s@, c),
{
    let len = s.unicode_len();
    let mut i: usize = 0;
    while i < len && s.get_char(i) == c
        invariant
            len == s@.len(),
            i <= len,
            forall|j: int| 0 <= j < i ==> s@[j] == c,
        decreases len - i,
    {
        i += 1;
    }
    proof {
        lemma_trim_leading_subrange(s@, c, i as int);
    }
    String::from_str(s.substring_char(i, len))
}

proof fn lemma_trim_trailing_subrange(s: Seq<char>, c: char, i: int)
    requires
        0 <= i <= s.len(),
        forall|j: int| i <= j < s.len() ==> s[j] == c,
        i == 0 || s[i - 1] != c,
    ensures
        spec_trim_trailing(s, c) == s.subrange(0, i),
    decreases s.len() - i,
{
    if i == s.len() {
        assert(s.subrange(0, s.len() as int) =~= s);
    } else {
        assert(s[s.len() - 1] == c);
        lemma_trim_trailing_subrange(s.drop_last(), c, i);
        assert(s.drop_last().subrange(0, i) =~= s.subrange(0, i));
    }
}

/// `s` with every trailing occurrence of `c` removed.
pub fn trim_trailing_char(s: &str, c: char) -> (r: String)
    ensures
        r@ == spec_trim_trailing(s@, c),
{
    let len = s.unicode_len();
    let mut i: usize = len;
    while i > 0 && s.get_char(i - 1) == c
        invariant
            len == s@.len(),
            i <= len,
            forall|j: int| i <= j < len ==> s@[j] == c,
        decreases i,
    {
        i -= 1;
    }
    proof {
        lemma_trim_trailing_subrange(s@, c, i as int);
    }
    String::from_str(s.substring_char(0, i))
}

proof fn lemma_last_segment_subrange(s: Seq<char>, i: int)
    requires
        0 <= i <= s.len(),
        forall|j: int| i <= j < s.len() ==> s[j] != '/',
        i == 0 || s[i - 1] == '/',
    ensures
        spec_last_segment(s) == s.subrange(i, s.len() as int),
    decreases s.len(),
{
    if s.len() == 0 {
        assert(s.subrange(0, 0) =~= s);
    } else if s[s.len() - 1] == '/' {
        assert(i == s.len());
        assert(s.subrange(i, s.len() as int) =~= Seq::<char>::empty());
    } else {
        assert(i < s.len());
        lemma_last_segment_subrange(s.drop_last(), i);
        assert(s.drop_last().subrange(i, s.drop_last().len() as int).push(s[s.len() - 1]) =~= s
            .subrange(i, s.len() as int));
    }
}

/// The suffix of `s` after its last `/`; all of `s` when it has none.
pub fn last_segment_str(s: &str) -> (r: String)
    ensures
        r@ == spec_last_segment(s@),
{
    let len = s.unicode_len();
    let mut i: usize = len;
    while i > 0 && s.get_char(i - 1) != '/'
        invariant
            len == s@.len(),
            i <= len,
            forall|j: int| i <= j < len ==> s@[j] != '/',
        decreases i,
    {
        i -= 1;
    }
    proof {
        lemma_last_segment_subrange(s@, i as int);
    }
    String::from_str(s.substring_char(i, len))
}

/// The concatenation of `a` and `b`.
pub fn concat_str(a: &str, b: &str) -> (r: String)
    ensures
        r@ == a@ + b@,
{
    let first = String::from_str(a);
    first.concat(b)
}

/// Path concatenation with separator insertion, per `spec_join`.
pub fn join_path(root: &str, sub: &str) -> (r: String)
    ensures
        r@ == spec_join(root@, sub@),
{
    if root.unicode_len() == 0 {
        String::from_str(sub)
    } else if ends_with_char(root, '/') {
        concat_str(root, sub)
    } else {
        let mut r = String::from_str(root);
        r.append("/");
        r.append(sub);
        assert(r@ =~= root@ + seq!['/'] + sub@) by {
            reveal_strlit("/");
        }
        r
    }
}

} // verus!
