//! How far normalising goes: one pass over pairs of spaces mends a text in
//! which no three spaces stand in a row, and no other.
use vstd::prelude::*;
use crate::text::{
    collapse_space_pairs, first_space, is_whitespace, lemma_first_space_at, split_on_space, trim,
    trim_end, trim_start,
};

verus! {

/// Three spaces stand in a row somewhere in `s`.
pub open spec fn has_three_spaces(s: Seq<char>) -> bool {
    exists|i: int|
        0 <= i && i + 2 < s.len() && #[trigger] s[i] == ' ' && s[i + 1] == ' ' && s[i + 2] == ' '
}

/// Two spaces stand in a row somewhere in `s`.
pub open spec fn has_two_spaces(s: Seq<char>) -> bool {
    exists|i: int| 0 <= i && i + 1 < s.len() && #[trigger] s[i] == ' ' && s[i + 1] == ' '
}

/// What is left of a text without three spaces in a row has none either.
proof fn lemma_skip_keeps_spacing(s: Seq<char>, n: int)
    requires
        0 <= n <= s.len(),
        !has_three_spaces(s),
    ensures
        !has_three_spaces(s.skip(n)),
{
    let t = s.skip(n);
    if has_three_spaces(t) {
        let i = choose|i: int|
            0 <= i && i + 2 < t.len() && #[trigger] t[i] == ' ' && t[i + 1] == ' ' && t[i + 2]
                == ' ';
        assert(s[i + n] == ' ' && s[i + n + 1] == ' ' && s[i + n + 2] == ' ');
    }
}

/// Collapsing keeps a text empty or not, and keeps whether it starts with
/// a space.
proof fn lemma_collapse_start(s: Seq<char>)
    ensures
        collapse_space_pairs(s).len() == 0 <==> s.len() == 0,
        s.len() > 0 ==> (collapse_space_pairs(s)[0] == ' ' <==> s[0] == ' '),
        s.len() > 0 ==> collapse_space_pairs(s)[0] == s[0],
{
}

/// After one pass, a text that had no three spaces in a row has no two.
pub proof fn lemma_collapse_leaves_single_spaces(s: Seq<char>)
    requires
        !has_three_spaces(s),
    ensures
        !has_two_spaces(collapse_space_pairs(s)),
    decreases s.len(),
{
    let c = collapse_space_pairs(s);
    if s.len() == 0 {
    } else if s.len() >= 2 && s[0] == ' ' && s[1] == ' ' {
        let rest = s.skip(2);
        lemma_skip_keeps_spacing(s, 2);
        lemma_collapse_leaves_single_spaces(rest);
        lemma_collapse_start(rest);
        let inner = collapse_space_pairs(rest);
        if rest.len() > 0 {
            assert(rest[0] == s[2]);
            assert(s[0] == ' ');
            assert(s[2] != ' ');
        }
        if has_two_spaces(c) {
            let i = choose|i: int|
                0 <= i && i + 1 < c.len() && #[trigger] c[i] == ' ' && c[i + 1] == ' ';
            if i == 0 {
                assert(c[1] == inner[0]);
            } else {
                assert(inner[i - 1] == ' ' && inner[i] == ' ');
            }
        }
    } else {
        let rest = s.skip(1);
        lemma_skip_keeps_spacing(s, 1);
        lemma_collapse_leaves_single_spaces(rest);
        lemma_collapse_start(rest);
        let inner = collapse_space_pairs(rest);
        if has_two_spaces(c) {
            let i = choose|i: int|
                0 <= i && i + 1 < c.len() && #[trigger] c[i] == ' ' && c[i + 1] == ' ';
            if i == 0 {
                assert(c[0] == s[0]);
                assert(c[1] == inner[0]);
                assert(rest[0] == s[1]);
            } else {
                assert(inner[i - 1] == ' ' && inner[i] == ' ');
            }
        }
    }
}

/// Trimming at the start leaves the end of the text: some number of
/// characters is gone, and what is left does not start with whitespace.
proof fn lemma_trim_start_is_skip(s: Seq<char>) -> (n: int)
    ensures
        0 <= n <= s.len(),
        trim_start(s) == s.skip(n),
        n < s.len() ==> !is_whitespace(s[n]),
    decreases s.len(),
{
    if s.len() > 0 && is_whitespace(s[0]) {
        let m = lemma_trim_start_is_skip(s.skip(1));
        assert(s.skip(1).skip(m) == s.skip(m + 1));
        if m + 1 < s.len() {
            assert(s.skip(1)[m] == s[m + 1]);
        }
        m + 1
    } else {
        assert(s.skip(0) == s);
        0
    }
}

/// Trimming at the end leaves the start of the text, and what is left does
/// not end with whitespace.
proof fn lemma_trim_end_is_take(s: Seq<char>) -> (n: int)
    ensures
        0 <= n <= s.len(),
        trim_end(s) == s.take(n),
        n > 0 ==> !is_whitespace(s[n - 1]),
    decreases s.len(),
{
    if s.len() > 0 && is_whitespace(s.last()) {
        let m = lemma_trim_end_is_take(s.drop_last());
        assert(s.drop_last().take(m) == s.take(m));
        if m > 0 {
            assert(s.drop_last()[m - 1] == s[m - 1]);
        }
        m
    } else {
        assert(s.take(s.len() as int) == s);
        s.len() as int
    }
}

/// A trimmed text neither starts nor ends with a space, and trimming puts
/// no two spaces in a row where there were none.
pub proof fn lemma_trim_is_clean(s: Seq<char>)
    ensures
        trim(s).len() > 0 ==> trim(s)[0] != ' ' && trim(s).last() != ' ',
        !has_two_spaces(s) ==> !has_two_spaces(trim(s)),
{
    let a = lemma_trim_start_is_skip(s);
    let middle = s.skip(a);
    let b = lemma_trim_end_is_take(middle);
    let t = trim(s);
    assert(t == middle.take(b));
    assert(is_whitespace(' '));
    if t.len() > 0 {
        assert(t[0] == s[a]);
        assert(t.last() == middle[b - 1]);
    }
    if has_two_spaces(t) {
        let i = choose|i: int|
            0 <= i && i + 1 < t.len() && #[trigger] t[i] == ' ' && t[i + 1] == ' ';
        assert(s[i + a] == ' ' && s[i + a + 1] == ' ');
    }
}

/// Where the first space of a text stands.
proof fn lemma_first_space_bounds(s: Seq<char>)
    ensures
        0 <= first_space(s) <= s.len(),
        first_space(s) < s.len() ==> s[first_space(s)] == ' ',
        forall|j: int| 0 <= j < first_space(s) ==> s[j] != ' ',
    decreases s.len(),
{
    if s.len() == 0 || s[0] == ' ' {
    } else {
        let t = s.skip(1);
        lemma_first_space_bounds(t);
        assert forall|j: int| 0 <= j < first_space(s) implies s[j] != ' ' by {
            if j > 0 {
                assert(t[j - 1] == s[j]);
            }
        }
        assert(first_space(s) < s.len() ==> t[first_space(t)] == s[first_space(s)]);
    }
}

/// A text that holds single spaces only, and none at either end, splits
/// into pieces none of which is empty.
pub proof fn lemma_split_of_clean_text(t: Seq<char>)
    requires
        t.len() > 0,
        t[0] != ' ',
        t.last() != ' ',
        !has_two_spaces(t),
    ensures
        forall|k: int|
            0 <= k < split_on_space(t).len() ==> (#[trigger] split_on_space(t)[k]).len() > 0,
    decreases t.len(),
{
    lemma_first_space_bounds(t);
    let i = first_space(t);
    let pieces = split_on_space(t);
    if i < t.len() {
        let rest = t.skip(i + 1);
        assert(i > 0);
        assert(i + 1 < t.len()) by {
            if i + 1 == t.len() {
                assert(t.last() == t[i]);
            }
        }
        assert(rest[0] == t[i + 1]);
        assert(rest[0] != ' ') by {
            if t[i + 1] == ' ' {
                assert(t[i] == ' ' && t[i + 1] == ' ');
            }
        }
        assert(rest.last() == t.last());
        if has_two_spaces(rest) {
            let j = choose|j: int|
                0 <= j && j + 1 < rest.len() && #[trigger] rest[j] == ' ' && rest[j + 1] == ' ';
            assert(t[j + i + 1] == ' ' && t[j + i + 2] == ' ');
        }
        lemma_split_of_clean_text(rest);
        let tail = split_on_space(rest);
        assert(pieces == seq![t.take(i)] + tail);
        assert forall|k: int| 0 <= k < pieces.len() implies (#[trigger] pieces[k]).len() > 0 by {
            if k > 0 {
                assert(pieces[k] == tail[k - 1]);
            }
        }
    } else {
        assert(pieces == seq![t]);
    }
}

/// Collapsing keeps the first and the last character of a text.
pub proof fn lemma_collapse_keeps_ends(s: Seq<char>)
    requires
        s.len() > 0,
    ensures
        collapse_space_pairs(s).len() > 0,
        collapse_space_pairs(s)[0] == s[0],
        collapse_space_pairs(s).last() == s.last(),
    decreases s.len(),
{
    let nothing = Seq::<char>::empty();
    assert(collapse_space_pairs(nothing) == nothing);
    if s.len() >= 2 && s[0] == ' ' && s[1] == ' ' {
        let rest = s.skip(2);
        if rest.len() > 0 {
            lemma_collapse_keeps_ends(rest);
            assert(rest.last() == s.last());
        } else {
            assert(rest == nothing);
        }
    } else {
        let rest = s.skip(1);
        if rest.len() > 0 {
            lemma_collapse_keeps_ends(rest);
            assert(rest.last() == s.last());
        } else {
            assert(rest == nothing);
        }
    }
}

/// A space in front of something that is no space is a place to cut:
/// collapsing the whole is collapsing what stands up to and including the
/// space, and then what stands behind it.
pub proof fn lemma_collapse_cut(x: Seq<char>, y: Seq<char>)
    requires
        y.len() == 0 || y[0] != ' ',
    ensures
        collapse_space_pairs(x + seq![' '] + y) == collapse_space_pairs(x + seq![' '])
            + collapse_space_pairs(y),
    decreases x.len(),
{
    let space = seq![' '];
    let whole = x + space + y;
    let front = x + space;
    let nothing = Seq::<char>::empty();
    assert(collapse_space_pairs(nothing) == nothing);
    assert(collapse_space_pairs(space) == space) by {
        assert(space.skip(1) == nothing);
        assert(seq![' '] + nothing == space);
    }
    if x.len() == 0 {
        assert(whole == space + y);
        assert(front == space);
        assert(whole.skip(1) == y);
        if y.len() > 0 {
            assert(whole[1] == y[0]);
        }
    } else if x.len() >= 2 && x[0] == ' ' && x[1] == ' ' {
        assert(whole[0] == ' ' && whole[1] == ' ');
        assert(front[0] == ' ' && front[1] == ' ');
        assert(whole.skip(2) == x.skip(2) + space + y);
        assert(front.skip(2) == x.skip(2) + space);
        lemma_collapse_cut(x.skip(2), y);
        assert(space + (collapse_space_pairs(x.skip(2) + space) + collapse_space_pairs(y)) == space
            + collapse_space_pairs(x.skip(2) + space) + collapse_space_pairs(y));
    } else if x.len() == 1 && x[0] == ' ' {
        assert(whole[0] == ' ' && whole[1] == ' ');
        assert(front[0] == ' ' && front[1] == ' ');
        assert(whole.skip(2) == y);
        assert(front.skip(2) == nothing);
        assert(collapse_space_pairs(front) == space + nothing);
        assert(space + nothing == space);
    } else {
        assert(whole[0] == x[0] && front[0] == x[0]);
        if x.len() >= 2 {
            assert(whole[1] == x[1] && front[1] == x[1]);
        } else {
            assert(whole[1] == ' ' && front[1] == ' ');
        }
        assert(whole.skip(1) == x.skip(1) + space + y);
        assert(front.skip(1) == x.skip(1) + space);
        lemma_collapse_cut(x.skip(1), y);
        assert(seq![x[0]] + (collapse_space_pairs(x.skip(1) + space) + collapse_space_pairs(y))
            == seq![x[0]] + collapse_space_pairs(x.skip(1) + space) + collapse_space_pairs(y));
    }
}

/// Every space is a place to cut for splitting: the pieces of the whole
/// are those of what stands before the space and those of what stands
/// behind it.
pub proof fn lemma_split_cut(u: Seq<char>, v: Seq<char>)
    ensures
        split_on_space(u + seq![' '] + v) == split_on_space(u) + split_on_space(v),
    decreases u.len(),
{
    let whole = u + seq![' '] + v;
    lemma_first_space_bounds(u);
    let i = first_space(u);
    assert forall|j: int| 0 <= j < i implies whole[j] != ' ' by {
        assert(whole[j] == u[j]);
    }
    if i < u.len() {
        assert(whole[i] == u[i]);
    } else {
        assert(whole[i] == ' ');
    }
    lemma_first_space_at(whole, i);
    assert(whole.take(i) == u.take(i));
    if i < u.len() {
        let rest = u.skip(i + 1);
        assert(whole.skip(i + 1) == rest + seq![' '] + v);
        lemma_split_cut(rest, v);
        assert(seq![u.take(i)] + (split_on_space(rest) + split_on_space(v)) == seq![u.take(i)]
            + split_on_space(rest) + split_on_space(v));
    } else {
        assert(u.take(i) == u);
        assert(whole.skip(i + 1) == v);
    }
}

/// Trimming the end of a text takes nothing from what stands before a part
/// that is not all whitespace.
pub proof fn lemma_trim_end_behind(w: Seq<char>, c: Seq<char>)
    requires
        trim_end(c).len() > 0,
    ensures
        trim_end(w + c) == w + trim_end(c),
    decreases c.len(),
{
    if c.len() > 0 && is_whitespace(c.last()) {
        assert((w + c).last() == c.last());
        assert((w + c).drop_last() == w + c.drop_last());
        lemma_trim_end_behind(w, c.drop_last());
    } else {
        assert(c.len() > 0);
        assert((w + c).last() == c.last());
    }
}

} // verus!
