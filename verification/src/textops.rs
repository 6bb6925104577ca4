//! Verified text utilities: splitting an attribute value on whitespace
//! and joining text runs with single spaces.

use vstd::prelude::*;
use vstd::string::StrSliceExecFns;
use vstd::string::StringExecFns;

use crate::model::views;

verus! {

/// Whether `c` has the Unicode `White_Space` property — the
/// twenty-five code points that `char::is_whitespace` accepts.
pub open spec fn is_space(c: char) -> bool {
    let n = c as int;
    ||| n == 0x20
    ||| 0x09 <= n && n <= 0x0D
    ||| n == 0x85
    ||| n == 0xA0
    ||| n == 0x1680
    ||| 0x2000 <= n && n <= 0x200A
    ||| n == 0x2028
    ||| n == 0x2029
    ||| n == 0x202F
    ||| n == 0x205F
    ||| n == 0x3000
}

/// Decides the `White_Space` property by the same list the spec states.
pub(crate) fn char_is_space(c: char) -> (r: bool)
    ensures
        r == is_space(c),
{
    let n = c as u32;
    n == 0x20 || (0x09 <= n && n <= 0x0D) || n == 0x85 || n == 0xA0 || n == 0x1680 || (0x2000 <= n
        && n <= 0x200A) || n == 0x2028 || n == 0x2029 || n == 0x202F || n == 0x205F || n == 0x3000
}

/// The length of the leading run of non-whitespace characters.
pub open spec fn token_len(s: Seq<char>) -> nat
    decreases s.len(),
{
    if s.len() == 0 || is_space(s[0]) {
        0
    } else {
        1 + token_len(s.skip(1))
    }
}

pub proof fn lemma_token_len_le(s: Seq<char>)
    ensures
        token_len(s) <= s.len(),
    decreases s.len(),
{
    if s.len() == 0 || is_space(s[0]) {
    } else {
        lemma_token_len_le(s.skip(1));
    }
}

/// The whitespace-separated tokens of `s`, in order: the maximal runs of
/// non-whitespace characters, with no empty token among them.
pub open spec fn split_ws(s: Seq<char>) -> Seq<Seq<char>>
    decreases s.len(),
    via split_ws_decreases
{
    if s.len() == 0 {
        Seq::empty()
    } else if is_space(s[0]) {
        split_ws(s.skip(1))
    } else {
        seq![s.take(token_len(s) as int)] + split_ws(s.skip(token_len(s) as int))
    }
}

#[via_fn]
proof fn split_ws_decreases(s: Seq<char>) {
    lemma_token_len_le(s);
    if s.len() > 0 && !is_space(s[0]) {
        assert(token_len(s) == 1 + token_len(s.skip(1)));
    }
}

/// The leading token ends exactly at the first whitespace character (or
/// at the end of the sequence).
proof fn lemma_token_len_at(s: Seq<char>, k: int)
    requires
        0 <= k <= s.len(),
        forall|m: int| 0 <= m < k ==> !is_space(s[m]),
        k == s.len() || is_space(s[k]),
    ensures
        token_len(s) == k,
    decreases k,
{
    if k == 0 {
    } else {
        assert(!is_space(s[0]));
        let t = s.skip(1);
        assert forall|m: int| 0 <= m < k - 1 implies !is_space(t[m]) by {
            assert(t[m] == s[m + 1]);
        }
        if k - 1 < t.len() {
            assert(t[k - 1] == s[k]);
        }
        lemma_token_len_at(t, k - 1);
    }
}

/// Skipping a leading whitespace character does not change the split.
proof fn lemma_split_ws_space(s: Seq<char>, i: int)
    requires
        0 <= i < s.len(),
        is_space(s[i]),
    ensures
        split_ws(s.skip(i)) == split_ws(s.skip(i + 1)),
{
    assert(s.skip(i)[0] == s[i]);
    assert(s.skip(i).skip(1) =~= s.skip(i + 1));
}

/// A maximal non-whitespace run `[i, j)` is the next token of the split.
proof fn lemma_split_ws_token(s: Seq<char>, i: int, j: int)
    requires
        0 <= i < j <= s.len(),
        forall|m: int| i <= m < j ==> !is_space(s[m]),
        j == s.len() || is_space(s[j]),
    ensures
        split_ws(s.skip(i)) == seq![s.subrange(i, j)] + split_ws(s.skip(j)),
{
    let t = s.skip(i);
    assert forall|m: int| 0 <= m < j - i implies !is_space(t[m]) by {
        assert(t[m] == s[m + i]);
    }
    if j - i < t.len() {
        assert(t[j - i] == s[j]);
    }
    lemma_token_len_at(t, j - i);
    assert(t[0] == s[i]);
    assert(t.take(j - i) =~= s.subrange(i, j));
    assert(t.skip(j - i) =~= s.skip(j));
}

/// Splits a string on whitespace, as the split accessors report it.
pub fn split_whitespace(s: &String) -> (r: Vec<String>)
    ensures
        views(r@) == split_ws(s@),
{
    let text = s.as_str();
    let n = text.unicode_len();
    let mut out: Vec<String> = Vec::new();
    let mut i: usize = 0;
    proof {
        assert(s@.skip(0) =~= s@);
        assert(views(out@) + split_ws(s@.skip(0)) =~= split_ws(s@));
    }
    while i < n
        invariant
            text@ == s@,
            n == s@.len(),
            i <= n,
            split_ws(s@) =~= views(out@) + split_ws(s@.skip(i as int)),
        decreases n - i,
    {
        let c = text.get_char(i);
        if char_is_space(c) {
            proof {
                lemma_split_ws_space(s@, i as int);
            }
            i += 1;
        } else {
            let start = i;
            let mut j: usize = i + 1;
            while j < n && !char_is_space(text.get_char(j))
                invariant
                    text@ == s@,
                    n == s@.len(),
                    start < j <= n,
                    forall|m: int| start <= m < j ==> !is_space(s@[m]),
                decreases n - j,
            {
                j += 1;
            }
            let token = text.substring_char(start, j).to_owned();
            let ghost out0 = out@;
            out.push(token);
            proof {
                lemma_split_ws_token(s@, start as int, j as int);
                assert(views(out@) =~= views(out0) + seq![s@.subrange(start as int, j as int)]);
                assert(split_ws(s@) =~= views(out@) + split_ws(s@.skip(j as int)));
            }
            i = j;
        }
    }
    proof {
        assert(s@.skip(n as int) =~= Seq::<char>::empty());
        assert(split_ws(s@) =~= views(out@));
    }
    out
}

/// The runs joined with a single space between neighbours.
pub open spec fn joined(runs: Seq<Seq<char>>) -> Seq<char>
    decreases runs.len(),
{
    if runs.len() == 0 {
        Seq::empty()
    } else if runs.len() == 1 {
        runs[0]
    } else {
        joined(runs.drop_last()) + seq![' '] + runs.last()
    }
}

/// Joins text runs with single spaces, as the text accessor reports it.
pub fn join_with_spaces(runs: &Vec<String>) -> (r: String)
    ensures
        r@ == joined(views(runs@)),
{
    let mut out = String::new();
    let mut i: usize = 0;
    while i < runs.len()
        invariant
            i <= runs.len(),
            out@ =~= joined(views(runs@).take(i as int)),
        decreases runs.len() - i,
    {
        if i > 0 {
            out.append(" ");
        }
        out.append(runs[i].as_str());
        proof {
            reveal_strlit(" ");
            assert(" "@ =~= seq![' ']);
            let rs = views(runs@);
            assert(rs.take(i as int + 1).drop_last() =~= rs.take(i as int));
            assert(rs.take(i as int + 1).last() == rs[i as int]);
            assert(out@ =~= joined(rs.take(i as int + 1)));
        }
        i += 1;
    }
    proof {
        assert(views(runs@).take(runs@.len() as int) =~= views(runs@));
    }
    out
}

} // verus!
