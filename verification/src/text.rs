//! Trimming white space from chat text, verified over the character
//! sequence.
//!
//! `trim_spec` names the subsequence between the first and last characters
//! that are not white space; `trim_string` computes it. White space here is
//! the Unicode white-space set, written out code point by code point.

use vstd::prelude::*;
use vstd::string::StrSliceExecFns;

verus! {

/// The Unicode white-space code points.
pub open spec fn is_space_char(c: char) -> bool {
    let u = c as u32;
    u == 0x20 || (0x09 <= u && u <= 0x0D) || u == 0x85 || u == 0xA0 || u == 0x1680
        || (0x2000 <= u && u <= 0x200A) || u == 0x2028 || u == 0x2029 || u == 0x202F
        || u == 0x205F || u == 0x3000
}

/// Every character of the sequence is white space.
pub open spec fn all_space(s: Seq<char>) -> bool {
    forall|k: int| 0 <= k < s.len() ==> is_space_char(#[trigger] s[k])
}

/// The index of the first character that is not white space; the length if
/// there is none.
pub open spec fn content_start(s: Seq<char>) -> int
    decreases s.len(),
{
    if s.len() == 0 {
        0
    } else if !is_space_char(s[0]) {
        0
    } else {
        1 + content_start(s.drop_first())
    }
}

/// One past the index of the last character that is not white space; zero
/// if there is none.
pub open spec fn content_end(s: Seq<char>) -> int
    decreases s.len(),
{
    if s.len() == 0 {
        0
    } else if !is_space_char(s.last()) {
        s.len() as int
    } else {
        content_end(s.drop_last())
    }
}

/// The sequence with leading and trailing white space removed.
pub open spec fn trim_spec(s: Seq<char>) -> Seq<char> {
    if content_start(s) < content_end(s) {
        s.subrange(content_start(s), content_end(s))
    } else {
        Seq::empty()
    }
}

/// `content_start` is in range, everything before it is white space, and
/// the character at it (if any) is not.
pub proof fn lemma_content_start(s: Seq<char>)
    ensures
        0 <= content_start(s) <= s.len(),
        forall|k: int| 0 <= k < content_start(s) ==> is_space_char(#[trigger] s[k]),
        content_start(s) < s.len() ==> !is_space_char(s[content_start(s)]),
    decreases s.len(),
{
    if s.len() > 0 && is_space_char(s[0]) {
        lemma_content_start(s.drop_first());
        assert forall|k: int| 0 <= k < content_start(s) implies is_space_char(#[trigger] s[k]) by {
            if k > 0 {
                assert(s[k] == s.drop_first()[k - 1]);
            }
        }
        if content_start(s) < s.len() {
            assert(s[content_start(s)] == s.drop_first()[content_start(s.drop_first())]);
        }
    }
}

/// `content_end` is in range, everything from it on is white space, and the
/// character just before it (if any) is not.
pub proof fn lemma_content_end(s: Seq<char>)
    ensures
        0 <= content_end(s) <= s.len(),
        forall|k: int| content_end(s) <= k < s.len() ==> is_space_char(#[trigger] s[k]),
        content_end(s) > 0 ==> !is_space_char(s[content_end(s) - 1]),
    decreases s.len(),
{
    if s.len() > 0 && is_space_char(s.last()) {
        lemma_content_end(s.drop_last());
        assert forall|k: int| content_end(s) <= k < s.len() implies is_space_char(#[trigger] s[k]) by {
            if k < s.len() - 1 {
                assert(s[k] == s.drop_last()[k]);
            }
        }
        if content_end(s) > 0 {
            assert(s[content_end(s) - 1] == s.drop_last()[content_end(s.drop_last()) - 1]);
        }
    }
}

/// The trimmed sequence is empty exactly when the whole sequence is white
/// space.
pub proof fn lemma_trim_empty_iff_all_space(s: Seq<char>)
    ensures
        trim_spec(s).len() == 0 <==> all_space(s),
{
    lemma_content_start(s);
    lemma_content_end(s);
    if all_space(s) {
        if content_start(s) < s.len() {
            assert(is_space_char(s[content_start(s)]));
        }
        if content_end(s) > 0 {
            assert(is_space_char(s[content_end(s) - 1]));
        }
    } else {
        let k = choose|k: int| 0 <= k < s.len() && !is_space_char(s[k]);
        assert(content_start(s) <= k);
        assert(content_end(s) > k);
    }
}

/// Whether one character is white space.
fn is_space_char_exec(c: char) -> (r: bool)
    ensures
        r == is_space_char(c),
{
    let u = c as u32;
    u == 0x20 || (0x09 <= u && u <= 0x0D) || u == 0x85 || u == 0xA0 || u == 0x1680
        || (0x2000 <= u && u <= 0x200A) || u == 0x2028 || u == 0x2029 || u == 0x202F
        || u == 0x205F || u == 0x3000
}

/// The string with leading and trailing white space removed.
pub fn trim_string(s: &String) -> (r: String)
    ensures
        r@ == trim_spec(s@),
{
    let st = s.as_str();
    let n = st.unicode_len();
    proof {
        lemma_content_start(s@);
        lemma_content_end(s@);
    }

    let mut start: usize = 0;
    while start < n && is_space_char_exec(st.get_char(start))
        invariant
            st@ == s@,
            n == s@.len(),
            start <= n,
            forall|k: int| 0 <= k < start ==> is_space_char(#[trigger] s@[k]),
            start <= content_start(s@),
        decreases n - start,
    {
        proof {
            // The next character is white space, so the first content
            // character lies strictly beyond it.
            lemma_content_start(s@);
            if content_start(s@) == start {
                assert(!is_space_char(s@[start as int]));
            }
        }
        start = start + 1;
    }
    proof {
        if start < n && content_start(s@) > start {
            assert(is_space_char(s@[start as int]));
        }
        assert(start == content_start(s@));
    }

    let mut end: usize = n;
    while end > start && is_space_char_exec(st.get_char(end - 1))
        invariant
            st@ == s@,
            n == s@.len(),
            start <= end <= n,
            start == content_start(s@),
            forall|k: int| end <= k < n ==> is_space_char(#[trigger] s@[k]),
            content_end(s@) <= end,
        decreases end,
    {
        proof {
            // The character being dropped is white space, so the content
            // ends strictly before it.
            lemma_content_end(s@);
            if content_end(s@) == end {
                assert(!is_space_char(s@[end - 1]));
            }
        }
        end = end - 1;
    }
    proof {
        if end > start {
            // The loop stopped on a content character, so `end` is exactly
            // one past the last of them.
            if content_end(s@) < end {
                assert(is_space_char(s@[end - 1]));
            }
            assert(end == content_end(s@));
        } else {
            // Nothing but white space between `start` and the end: the
            // trimmed sequence is empty, and so is the slice we take.
            assert(content_end(s@) <= start);
            assert(trim_spec(s@) =~= s@.subrange(start as int, end as int));
        }
    }
    st.substring_char(start, end).to_owned()
}

} // verus!
