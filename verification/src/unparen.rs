//! Elision of one redundant layer of grouping parentheses.
//!
//! An operand of a directive that already groups its content, such as a
//! numerator, loses its outermost pair of auto-sizing parentheses. The pair
//! is elided only where the opening directive at the very start is closed
//! by the directive at the very end; nested pairs stay.

use vstd::prelude::*;
use crate::text::chars_of;

verus! {

/// The length of the directive that opens an auto-sizing parenthesis.
pub const OPEN_LEN: usize = 6;

/// The length of the directive that closes an auto-sizing parenthesis.
pub const CLOSE_LEN: usize = 7;

/// The directive that opens an auto-sizing parenthesis.
pub open spec fn open_paren() -> Seq<char> {
    seq!['\\', 'l', 'e', 'f', 't', '(']
}

/// The directive that closes an auto-sizing parenthesis.
pub open spec fn close_paren() -> Seq<char> {
    seq!['\\', 'r', 'i', 'g', 'h', 't', ')']
}

/// The markup `body` inside one pair of auto-sizing parentheses.
pub open spec fn wrapped(body: Seq<char>) -> Seq<char> {
    open_paren() + body + close_paren()
}

/// Whether an opening directive starts at position `i`.
pub open spec fn opens_at(s: Seq<char>, i: int) -> bool {
    &&& 0 <= i
    &&& i + 6 <= s.len()
    &&& s[i] == '\\'
    &&& s[i + 1] == 'l'
    &&& s[i + 2] == 'e'
    &&& s[i + 3] == 'f'
    &&& s[i + 4] == 't'
    &&& s[i + 5] == '('
}

/// Whether a closing directive starts at position `i`.
pub open spec fn closes_at(s: Seq<char>, i: int) -> bool {
    &&& 0 <= i
    &&& i + 7 <= s.len()
    &&& s[i] == '\\'
    &&& s[i + 1] == 'r'
    &&& s[i + 2] == 'i'
    &&& s[i + 3] == 'g'
    &&& s[i + 4] == 'h'
    &&& s[i + 5] == 't'
    &&& s[i + 6] == ')'
}

/// By how much the directive that starts at position `i`, if any, changes
/// the nesting depth.
pub open spec fn step(s: Seq<char>, i: int) -> int {
    if opens_at(s, i) {
        1
    } else if closes_at(s, i) {
        -1
    } else {
        0
    }
}

/// The nesting depth that the directives starting before position `i`
/// leave: the opening ones among them minus the closing ones.
pub open spec fn depth(s: Seq<char>, i: int) -> int
    decreases i,
{
    if i <= 0 {
        0
    } else {
        depth(s, i - 1) + step(s, i - 1)
    }
}

/// Whether every closing directive in `s` closes a directive that was
/// opened in `s` before it, and none stays open.
pub open spec fn balanced(s: Seq<char>) -> bool {
    &&& forall|i: int| 0 <= i <= s.len() ==> depth(s, i) >= 0
    &&& depth(s, s.len() as int) == 0
}

/// Whether `s` is one pair of auto-sizing parentheses with nothing outside
/// it: it starts with an opening directive, ends with a closing one, and
/// the depth first returns to zero at that closing directive.
pub open spec fn outer_pair_matches(s: Seq<char>) -> bool {
    &&& s.len() >= 13
    &&& opens_at(s, 0)
    &&& closes_at(s, s.len() - 7)
    &&& forall|k: int| 1 <= k <= s.len() - 7 ==> depth(s, k) >= 1
    &&& depth(s, s.len() - 7) == 1
}

/// The markup `s` without its outer pair of auto-sizing parentheses, if it
/// is such a pair, and `s` itself otherwise.
pub open spec fn unparened(s: Seq<char>) -> Seq<char> {
    if outer_pair_matches(s) {
        s.subrange(6, s.len() - 7)
    } else {
        s
    }
}

/// Tells whether an opening directive starts at position `i`.
pub fn starts_open(chars: &Vec<char>, i: usize) -> (found: bool)
    ensures
        found == opens_at(chars@, i as int),
{
    let n = chars.len();
    n >= OPEN_LEN && i <= n - OPEN_LEN && chars[i] == '\\' && chars[i + 1] == 'l' && chars[i + 2]
        == 'e' && chars[i + 3] == 'f' && chars[i + 4] == 't' && chars[i + 5] == '('
}

/// Tells whether a closing directive starts at position `i`.
pub fn starts_close(chars: &Vec<char>, i: usize) -> (found: bool)
    ensures
        found == closes_at(chars@, i as int),
{
    let n = chars.len();
    n >= CLOSE_LEN && i <= n - CLOSE_LEN && chars[i] == '\\' && chars[i + 1] == 'r' && chars[i
        + 2] == 'i' && chars[i + 3] == 'g' && chars[i + 4] == 'h' && chars[i + 5] == 't' && chars[i
        + 6] == ')'
}

/// Tells whether the markup is one outer pair of auto-sizing parentheses.
pub fn is_outer_pair(chars: &Vec<char>) -> (found: bool)
    ensures
        found == outer_pair_matches(chars@),
{
    let n = chars.len();
    if n < OPEN_LEN + CLOSE_LEN || !starts_open(chars, 0) || !starts_close(chars, n - CLOSE_LEN) {
        return false;
    }
    let last = n - CLOSE_LEN;
    let mut level: usize = 1;
    let mut k: usize = 1;
    assert(depth(chars@, 1) == 1) by {
        assert(depth(chars@, 0) == 0);
    }
    while k < last
        invariant
            1 <= k <= last,
            last == chars.len() - 7,
            1 <= level <= k,
            level == depth(chars@, k as int),
            forall|j: int| 1 <= j <= k ==> depth(chars@, j) >= 1,
        decreases last - k,
    {
        if starts_open(chars, k) {
            level += 1;
        } else if starts_close(chars, k) {
            level -= 1;
            if level == 0 {
                assert(depth(chars@, k + 1) == 0);
                return false;
            }
        }
        k += 1;
    }
    level == 1
}

/// Removes the outer pair of auto-sizing parentheses, if the whole markup
/// is such a pair.
pub fn unparen(s: String) -> (trimmed: String)
    ensures
        trimmed@ == unparened(s@),
{
    let chars = chars_of(s.as_str());
    if !is_outer_pair(&chars) {
        return s;
    }
    let end = chars.len() - CLOSE_LEN;
    let mut trimmed = String::new();
    let mut i: usize = OPEN_LEN;
    while i < end
        invariant
            6 <= i <= end,
            end == chars.len() - 7,
            trimmed@ == chars@.subrange(6, i as int),
        decreases end - i,
    {
        trimmed.push(chars[i]);
        assert(chars@.subrange(6, i + 1) =~= chars@.subrange(6, i as int).push(chars@[i as int]));
        i += 1;
    }
    trimmed
}

/// Inside the opening directive of a wrapped markup the depth is one.
proof fn lemma_depth_in_open(body: Seq<char>, k: int)
    requires
        1 <= k <= 6,
    ensures
        depth(wrapped(body), k) == 1,
{
    let w = wrapped(body);
    reveal_with_fuel(depth, 8);
    assert(w[0] == '\\' && w[1] == 'l' && w[2] == 'e' && w[3] == 'f' && w[4] == 't' && w[5] == '(');
    assert(opens_at(w, 0));
}

/// A directive starts at a position of the body of a wrapped markup exactly
/// if it starts there in the body alone.
proof fn lemma_step_in_wrapped(body: Seq<char>, k: int)
    requires
        0 <= k < body.len(),
    ensures
        step(wrapped(body), 6 + k) == step(body, k),
{
    let w = wrapped(body);
    let n = body.len() as int;
    assert(forall|i: int| 0 <= i < n ==> w[6 + i] == body[i]);
    assert(w[6 + n] == '\\');
    assert(opens_at(w, 6 + k) == opens_at(body, k)) by {
        if k + 6 <= n {
            assert(w[6 + k] == body[k]);
            assert(w[6 + k + 1] == body[k + 1]);
            assert(w[6 + k + 2] == body[k + 2]);
            assert(w[6 + k + 3] == body[k + 3]);
            assert(w[6 + k + 4] == body[k + 4]);
            assert(w[6 + k + 5] == body[k + 5]);
        } else {
            let m = n - k;
            assert(1 <= m <= 5);
            assert(w[6 + k + m] == '\\');
        }
    }
    assert(closes_at(w, 6 + k) == closes_at(body, k)) by {
        if k + 7 <= n {
            assert(w[6 + k] == body[k]);
            assert(w[6 + k + 1] == body[k + 1]);
            assert(w[6 + k + 2] == body[k + 2]);
            assert(w[6 + k + 3] == body[k + 3]);
            assert(w[6 + k + 4] == body[k + 4]);
            assert(w[6 + k + 5] == body[k + 5]);
            assert(w[6 + k + 6] == body[k + 6]);
        } else {
            let m = n - k;
            assert(1 <= m <= 6);
            assert(w[6 + k + m] == '\\');
        }
    }
}

/// Inside the body of a wrapped markup the depth is one more than in the
/// body alone.
pub proof fn lemma_depth_in_wrapped(body: Seq<char>, j: int)
    requires
        0 <= j <= body.len(),
    ensures
        depth(wrapped(body), 6 + j) == 1 + depth(body, j),
    decreases j,
{
    if j == 0 {
        lemma_depth_in_open(body, 6);
    } else {
        lemma_depth_in_wrapped(body, j - 1);
        lemma_step_in_wrapped(body, j - 1);
    }
}

/// From the closing directive of a wrapped markup on, the depth is that at
/// the end of the body.
proof fn lemma_depth_in_close(body: Seq<char>, k: int)
    requires
        1 <= k <= 7,
    ensures
        depth(wrapped(body), 6 + body.len() + k) == depth(body, body.len() as int),
{
    let w = wrapped(body);
    let n = body.len() as int;
    lemma_depth_in_wrapped(body, n);
    assert(w[6 + n] == '\\' && w[6 + n + 1] == 'r' && w[6 + n + 2] == 'i' && w[6 + n + 3] == 'g'
        && w[6 + n + 4] == 'h' && w[6 + n + 5] == 't' && w[6 + n + 6] == ')');
    assert(closes_at(w, 6 + n));
    assert(step(w, 6 + n) == -1);
    assert(step(w, 6 + n + 1) == 0);
    assert(step(w, 6 + n + 2) == 0);
    assert(step(w, 6 + n + 3) == 0);
    assert(step(w, 6 + n + 4) == 0);
    assert(step(w, 6 + n + 5) == 0);
    assert(step(w, 6 + n + 6) == 0);
    reveal_with_fuel(depth, 8);
}

/// One layer of grouping is elided: a balanced markup inside one pair of
/// auto-sizing parentheses comes out without that pair.
pub proof fn lemma_unparen_wrapped(body: Seq<char>)
    requires
        balanced(body),
    ensures
        outer_pair_matches(wrapped(body)),
        unparened(wrapped(body)) == body,
{
    let w = wrapped(body);
    let n = body.len() as int;
    assert(w[0] == '\\' && w[1] == 'l' && w[2] == 'e' && w[3] == 'f' && w[4] == 't' && w[5] == '(');
    assert(w[6 + n] == '\\' && w[6 + n + 1] == 'r' && w[6 + n + 2] == 'i' && w[6 + n + 3] == 'g'
        && w[6 + n + 4] == 'h' && w[6 + n + 5] == 't' && w[6 + n + 6] == ')');
    assert forall|k: int| 1 <= k <= w.len() - 7 implies depth(w, k) >= 1 by {
        if k <= 6 {
            lemma_depth_in_open(body, k);
        } else {
            lemma_depth_in_wrapped(body, k - 6);
        }
    }
    lemma_depth_in_wrapped(body, n);
    assert(w.subrange(6, w.len() - 7) =~= body);
}

/// A balanced markup inside a pair of auto-sizing parentheses is balanced.
pub proof fn lemma_wrapped_balanced(body: Seq<char>)
    requires
        balanced(body),
    ensures
        balanced(wrapped(body)),
{
    let w = wrapped(body);
    let n = body.len() as int;
    assert forall|k: int| 0 <= k <= w.len() implies depth(w, k) >= 0 by {
        if k == 0 {
        } else if k <= 6 {
            lemma_depth_in_open(body, k);
        } else if k <= 6 + n {
            lemma_depth_in_wrapped(body, k - 6);
        } else {
            lemma_depth_in_close(body, k - 6 - n);
        }
    }
    lemma_depth_in_close(body, 7);
}

/// Nested parentheses beyond the first stay: of two pairs around a balanced
/// markup, exactly the outer one is elided.
pub proof fn lemma_unparen_nested(body: Seq<char>)
    requires
        balanced(body),
    ensures
        unparened(wrapped(wrapped(body))) == wrapped(body),
{
    lemma_wrapped_balanced(body);
    lemma_unparen_wrapped(wrapped(body));
}

/// Nothing but one whole outer pair is ever elided: a markup that changes
/// is the pair around what is left, and what is left is balanced.
pub proof fn lemma_unparen_exact(s: Seq<char>)
    ensures
        outer_pair_matches(s) <==> exists|body: Seq<char>| balanced(body) && s == wrapped(body),
        outer_pair_matches(s) ==> s == wrapped(unparened(s)) && balanced(unparened(s)),
{
    if outer_pair_matches(s) {
        let body = s.subrange(6, s.len() - 7);
        assert(s =~= wrapped(body));
        assert forall|j: int| 0 <= j <= body.len() implies depth(body, j) >= 0 by {
            lemma_depth_in_wrapped(body, j);
        }
        lemma_depth_in_wrapped(body, body.len() as int);
        assert(balanced(body));
    }
    if exists|body: Seq<char>| balanced(body) && s == wrapped(body) {
        let body = choose|body: Seq<char>| balanced(body) && s == wrapped(body);
        lemma_unparen_wrapped(body);
    }
}

} // verus!
