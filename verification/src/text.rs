//! Character-level helpers shared by path and URL handling: lexicographic
//! order on character sequences and slash trimming.

use vstd::prelude::*;
use vstd::string::StrSliceExecFns;
use vstd::string::StringExecFns;

verus! {

/// Strict lexicographic order on character sequences, comparing code points.
pub open spec fn chars_lt(a: Seq<char>, b: Seq<char>) -> bool
    decreases a.len(),
{
    if b.len() == 0 {
        false
    } else if a.len() == 0 {
        true
    } else if (a[0] as u32) < (b[0] as u32) {
        true
    } else if a[0] == b[0] {
        chars_lt(a.skip(1), b.skip(1))
    } else {
        false
    }
}

/// Reflexive lexicographic order on character sequences.
pub open spec fn chars_le(a: Seq<char>, b: Seq<char>) -> bool {
    chars_lt(a, b) || a == b
}

/// Exactly one of `chars_lt(a, b)`, `chars_lt(b, a)`, `a == b` holds.
pub proof fn lemma_chars_lt_trichotomy(a: Seq<char>, b: Seq<char>)
    ensures
        chars_lt(a, b) || chars_lt(b, a) || a == b,
        chars_lt(a, b) ==> !chars_lt(b, a) && a != b,
        chars_lt(b, a) ==> !chars_lt(a, b) && a != b,
    decreases a.len(),
{
    broadcast use vstd::utf8::char_u32_cast;

    if a.len() == 0 && b.len() == 0 {
        assert(a =~= b);
    } else if a.len() > 0 && b.len() > 0 {
        if (a[0] as u32) == (b[0] as u32) {
            vstd::utf8::char_u32_cast(a[0], a[0] as u32);
            vstd::utf8::char_u32_cast(b[0], b[0] as u32);
            assert(a[0] == b[0]);
            lemma_chars_lt_trichotomy(a.skip(1), b.skip(1));
            if a.skip(1) == b.skip(1) {
                assert(a.skip(1).len() == b.skip(1).len());
                assert(a =~= b) by {
                    assert forall|i: int| 0 <= i < a.len() implies a[i] == b[i] by {
                        if i > 0 {
                            assert(a.skip(1)[i - 1] == a[i]);
                            assert(b.skip(1)[i - 1] == b[i]);
                        }
                    }
                };
            } else {
                assert(a != b) by {
                    if a == b {
                        assert(a.skip(1) =~= b.skip(1));
                    }
                };
            }
        } else {
            assert(a[0] != b[0]);
            assert(a != b) by {
                if a == b {
                    assert(a[0] == b[0]);
                }
            };
        }
    } else {
        if a == b {
            assert(a.len() == b.len());
        }
    }
}

/// Lexicographic order is transitive.
pub proof fn lemma_chars_lt_trans(a: Seq<char>, b: Seq<char>, c: Seq<char>)
    requires
        chars_lt(a, b),
        chars_lt(b, c),
    ensures
        chars_lt(a, c),
    decreases a.len(),
{
    broadcast use vstd::utf8::char_u32_cast;

    if a.len() == 0 {
    } else {
        if (a[0] as u32) < (b[0] as u32) || (b[0] as u32) < (c[0] as u32) {
            assert((a[0] as u32) < (c[0] as u32));
        } else {
            assert(a[0] == b[0] && b[0] == c[0]);
            lemma_chars_lt_trans(a.skip(1), b.skip(1), c.skip(1));
        }
    }
}

/// Whether `a` sorts strictly before `b`.
pub fn str_lt(a: &str, b: &str) -> (r: bool)
    ensures
        r == chars_lt(a@, b@),
    decreases a@.len(),
{
    let alen = a.unicode_len();
    let blen = b.unicode_len();
    if blen == 0 {
        false
    } else if alen == 0 {
        true
    } else {
        let ca = a.get_char(0) as u32;
        let cb = b.get_char(0) as u32;
        if ca < cb {
            true
        } else if ca == cb {
            proof {
                vstd::utf8::char_u32_cast(a@[0], a@[0] as u32);
                vstd::utf8::char_u32_cast(b@[0], b@[0] as u32);
                assert(a@[0] == b@[0]);
            }
            let ra = a.substring_char(1, alen);
            let rb = b.substring_char(1, blen);
            assert(ra@ =~= a@.skip(1));
            assert(rb@ =~= b@.skip(1));
            str_lt(ra, rb)
        } else {
            false
        }
    }
}

/// `s` without its trailing slashes.
pub open spec fn trim_end_slashes(s: Seq<char>) -> Seq<char>
    decreases s.len(),
{
    if s.len() > 0 && s[s.len() - 1] == '/' {
        trim_end_slashes(s.drop_last())
    } else {
        s
    }
}

/// `s` without its leading slashes.
pub open spec fn trim_start_slashes(s: Seq<char>) -> Seq<char>
    decreases s.len(),
{
    if s.len() > 0 && s[0] == '/' {
        trim_start_slashes(s.skip(1))
    } else {
        s
    }
}

/// Removes every trailing slash of `s`.
pub fn trim_end_slashes_str(s: &str) -> (r: String)
    ensures
        r@ == trim_end_slashes(s@),
{
    let len = s.unicode_len();
    assert(s@.subrange(0, len as int) =~= s@);
    let mut end = len;
    while end > 0 && s.get_char(end - 1) == '/'
        invariant
            end <= len,
            len == s@.len(),
            trim_end_slashes(s@) == trim_end_slashes(s@.subrange(0, end as int)),
        decreases end,
    {
        proof {
            let cur = s@.subrange(0, end as int);
            assert(cur.drop_last() =~= s@.subrange(0, end - 1));
        }
        end = end - 1;
    }
    let r = s.substring_char(0, end);
    proof {
        let cur = s@.subrange(0, end as int);
        assert(trim_end_slashes(cur) == cur);
    }
    String::from_str(r)
}

/// Removes every leading slash of `s`.
pub fn trim_start_slashes_str(s: &str) -> (r: String)
    ensures
        r@ == trim_start_slashes(s@),
{
    let len = s.unicode_len();
    assert(s@.subrange(0, len as int) =~= s@);
    let mut start: usize = 0;
    while start < len && s.get_char(start) == '/'
        invariant
            start <= len,
            len == s@.len(),
            trim_start_slashes(s@) == trim_start_slashes(s@.subrange(start as int, len as int)),
        decreases len - start,
    {
        proof {
            let cur = s@.subrange(start as int, len as int);
            assert(cur.skip(1) =~= s@.subrange(start + 1, len as int));
        }
        start = start + 1;
    }
    let r = s.substring_char(start, len);
    proof {
        let cur = s@.subrange(start as int, len as int);
        assert(trim_start_slashes(cur) == cur);
    }
    String::from_str(r)
}

} // verus!
