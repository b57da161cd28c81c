//! Command lines as text: a head of words joined by single spaces, followed
//! by segments that each carry a space on both sides. Two segments in a row
//! therefore meet in a pair of spaces, which normalising removes again.
use vstd::prelude::*;
use crate::spacing::{
    lemma_collapse_cut, lemma_collapse_keeps_ends, lemma_split_cut, lemma_trim_end_behind,
};
use crate::text::{
    collapse_space_pairs, is_whitespace, lemma_first_space_at, normalized, split_on_space, trim,
    trim_end, trim_start,
};

verus! {

/// A non-empty text without a space.
pub open spec fn is_word(s: Seq<char>) -> bool {
    s.len() > 0 && forall|i: int| 0 <= i < s.len() ==> s[i] != ' '
}

/// Every entry of `words` is a word.
pub open spec fn all_words(words: Seq<Seq<char>>) -> bool {
    forall|i: int| 0 <= i < words.len() ==> is_word(#[trigger] words[i])
}

/// Every segment holds at least one entry, and all entries are words.
pub open spec fn segments_of_words(segments: Seq<Seq<Seq<char>>>) -> bool {
    forall|i: int|
        0 <= i < segments.len() ==> (#[trigger] segments[i]).len() > 0 && all_words(segments[i])
}

/// `words` with one space between neighbours.
pub open spec fn joined(words: Seq<Seq<char>>) -> Seq<char>
    decreases words.len(),
{
    if words.len() == 0 {
        Seq::empty()
    } else if words.len() == 1 {
        words[0]
    } else {
        words[0] + seq![' '] + joined(words.skip(1))
    }
}

/// One segment as it is appended to a command line: its entries joined, with
/// a space in front and a space behind.
pub open spec fn segment_text(tokens: Seq<Seq<char>>) -> Seq<char> {
    seq![' '] + joined(tokens) + seq![' ']
}

/// The texts of `segments`, one after the other.
pub open spec fn segments_text(segments: Seq<Seq<Seq<char>>>) -> Seq<char>
    decreases segments.len(),
{
    if segments.len() == 0 {
        Seq::empty()
    } else {
        segment_text(segments[0]) + segments_text(segments.skip(1))
    }
}

/// The entries of all `segments`, in order.
pub open spec fn entries(segments: Seq<Seq<Seq<char>>>) -> Seq<Seq<char>>
    decreases segments.len(),
{
    if segments.len() == 0 {
        Seq::empty()
    } else {
        segments[0] + entries(segments.skip(1))
    }
}

/// A command line as it is assembled: the head joined, then every segment.
pub open spec fn command_line(head: Seq<Seq<char>>, segments: Seq<Seq<Seq<char>>>) -> Seq<char> {
    joined(head) + segments_text(segments)
}

/// The arguments that a command line stands for: its normal form, split at
/// single spaces.
pub open spec fn arguments_of(line: Seq<char>) -> Seq<Seq<char>> {
    split_on_space(normalized(line))
}

/// Appending a list of segments appends its text.
pub proof fn lemma_segments_text_concat(a: Seq<Seq<Seq<char>>>, b: Seq<Seq<Seq<char>>>)
    ensures
        segments_text(a + b) == segments_text(a) + segments_text(b),
    decreases a.len(),
{
    if a.len() == 0 {
        assert(a + b == b);
    } else {
        assert((a + b).skip(1) == a.skip(1) + b);
        lemma_segments_text_concat(a.skip(1), b);
    }
}

/// Appending a list of segments appends its entries.
pub proof fn lemma_entries_concat(a: Seq<Seq<Seq<char>>>, b: Seq<Seq<Seq<char>>>)
    ensures
        entries(a + b) == entries(a) + entries(b),
    decreases a.len(),
{
    if a.len() == 0 {
        assert(a + b == b);
    } else {
        assert((a + b).skip(1) == a.skip(1) + b);
        lemma_entries_concat(a.skip(1), b);
    }
}

/// The entries of segments of words are words.
pub proof fn lemma_entries_are_words(segments: Seq<Seq<Seq<char>>>)
    requires
        segments_of_words(segments),
    ensures
        all_words(entries(segments)),
        segments.len() > 0 ==> entries(segments).len() > 0,
    decreases segments.len(),
{
    if segments.len() > 0 {
        let rest = segments.skip(1);
        assert forall|i: int| 0 <= i < rest.len() implies (#[trigger] rest[i]).len() > 0
            && all_words(rest[i]) by {
            assert(rest[i] == segments[i + 1]);
        }
        lemma_entries_are_words(rest);
    }
}

/// Joining two non-empty lists joins each and puts one space between them.
pub proof fn lemma_joined_concat(a: Seq<Seq<char>>, b: Seq<Seq<char>>)
    requires
        a.len() > 0,
        b.len() > 0,
    ensures
        joined(a + b) == joined(a) + seq![' '] + joined(b),
    decreases a.len(),
{
    assert((a + b).skip(1) == a.skip(1) + b);
    assert((a + b)[0] == a[0]);
    if a.len() == 1 {
        assert(a.skip(1) + b == b);
    } else {
        lemma_joined_concat(a.skip(1), b);
    }
}

/// A joined non-empty list of words starts as its first word does and ends as
/// its last word does.
pub proof fn lemma_joined_ends(words: Seq<Seq<char>>)
    requires
        words.len() > 0,
        all_words(words),
    ensures
        joined(words).len() > 0,
        joined(words)[0] == words[0][0],
        joined(words).last() == words.last().last(),
    decreases words.len(),
{
    assert(is_word(words[0]));
    if words.len() > 1 {
        let rest = words.skip(1);
        assert forall|i: int| 0 <= i < rest.len() implies is_word(#[trigger] rest[i]) by {
            assert(rest[i] == words[i + 1]);
        }
        lemma_joined_ends(rest);
        assert(rest.last() == words.last());
    }
}

/// Collapsing space pairs leaves a text without spaces as it is and goes on
/// behind it.
pub proof fn lemma_collapse_after_word(word: Seq<char>, rest: Seq<char>)
    requires
        forall|i: int| 0 <= i < word.len() ==> word[i] != ' ',
    ensures
        collapse_space_pairs(word + rest) == word + collapse_space_pairs(rest),
    decreases word.len(),
{
    if word.len() == 0 {
        assert(word + rest == rest);
        assert(word + collapse_space_pairs(rest) == collapse_space_pairs(rest));
    } else {
        let s = word + rest;
        assert(s[0] == word[0]);
        assert(s.skip(1) == word.skip(1) + rest);
        lemma_collapse_after_word(word.skip(1), rest);
        assert(seq![word[0]] + (word.skip(1) + collapse_space_pairs(rest)) == word
            + collapse_space_pairs(rest));
    }
}

/// A single space in front of a text that does not start with a space stays.
pub proof fn lemma_collapse_after_space(rest: Seq<char>)
    requires
        rest.len() == 0 || rest[0] != ' ',
    ensures
        collapse_space_pairs(seq![' '] + rest) == seq![' '] + collapse_space_pairs(rest),
{
    let s = seq![' '] + rest;
    assert(s.skip(1) == rest);
    if rest.len() > 0 {
        assert(s[1] == rest[0]);
    }
}

/// Collapsing space pairs leaves joined words as they are and goes on behind
/// them.
pub proof fn lemma_collapse_after_joined(words: Seq<Seq<char>>, rest: Seq<char>)
    requires
        words.len() > 0,
        all_words(words),
    ensures
        collapse_space_pairs(joined(words) + rest) == joined(words) + collapse_space_pairs(rest),
    decreases words.len(),
{
    assert(is_word(words[0]));
    if words.len() == 1 {
        lemma_collapse_after_word(words[0], rest);
    } else {
        let tail = words.skip(1);
        assert forall|i: int| 0 <= i < tail.len() implies is_word(#[trigger] tail[i]) by {
            assert(tail[i] == words[i + 1]);
        }
        lemma_joined_ends(tail);
        let behind = joined(tail) + rest;
        assert(behind[0] == joined(tail)[0]);
        assert(is_word(tail[0]));
        assert(joined(words) + rest == words[0] + (seq![' '] + behind));
        lemma_collapse_after_word(words[0], seq![' '] + behind);
        lemma_collapse_after_space(behind);
        lemma_collapse_after_joined(tail, rest);
        assert(words[0] + (seq![' '] + (joined(tail) + collapse_space_pairs(rest))) == joined(
            words,
        ) + collapse_space_pairs(rest));
    }
}

/// Collapsing the text of segments of words leaves their entries, joined,
/// between two spaces.
pub proof fn lemma_collapse_segments(segments: Seq<Seq<Seq<char>>>)
    requires
        segments.len() > 0,
        segments_of_words(segments),
    ensures
        collapse_space_pairs(segments_text(segments)) == segment_text(entries(segments)),
    decreases segments.len(),
{
    let first = segments[0];
    let rest = segments.skip(1);
    let space = seq![' '];
    assert forall|i: int| 0 <= i < rest.len() implies (#[trigger] rest[i]).len() > 0 && all_words(
        rest[i],
    ) by {
        assert(rest[i] == segments[i + 1]);
    }
    assert(first.len() > 0 && all_words(first));
    lemma_joined_ends(first);
    assert(is_word(first[0]));
    if rest.len() == 0 {
        assert(segments_text(rest) == Seq::<char>::empty());
        assert(entries(rest) == Seq::<Seq<char>>::empty());
        assert(first + entries(rest) == first);
        assert(segments_text(segments) == space + (joined(first) + space));
        assert((joined(first) + space)[0] == joined(first)[0]);
        lemma_collapse_after_space(joined(first) + space);
        lemma_collapse_after_joined(first, space);
        assert(space == space + Seq::<char>::empty());
        lemma_collapse_after_space(Seq::<char>::empty());
        assert(collapse_space_pairs(Seq::<char>::empty()) == Seq::<char>::empty());
        assert(collapse_space_pairs(space) == space);
        assert(space + (joined(first) + space) == segment_text(first));
    } else {
        let second = rest[0];
        assert(second.len() > 0 && all_words(second));
        lemma_joined_ends(second);
        assert(is_word(second[0]));
        // What follows the space in front of the second segment.
        let inner = joined(second) + space + segments_text(rest.skip(1));
        assert(inner[0] == joined(second)[0]);
        assert(segments_text(rest) == space + inner);
        let doubled = space + segments_text(rest);
        // A pair of spaces and a single space collapse alike in front of `inner`.
        assert(doubled.skip(2) == inner);
        assert(doubled[0] == ' ' && doubled[1] == ' ');
        assert(collapse_space_pairs(doubled) == space + collapse_space_pairs(inner));
        lemma_collapse_after_space(inner);
        assert(collapse_space_pairs(doubled) == collapse_space_pairs(segments_text(rest)));
        lemma_collapse_segments(rest);
        // The first segment, up to the space behind it.
        assert(segments_text(segments) == space + (joined(first) + doubled));
        assert((joined(first) + doubled)[0] == joined(first)[0]);
        lemma_collapse_after_space(joined(first) + doubled);
        lemma_collapse_after_joined(first, doubled);
        lemma_entries_are_words(rest);
        lemma_joined_concat(first, entries(rest));
        assert(space + (joined(first) + segment_text(entries(rest))) == segment_text(
            first + entries(rest),
        ));
    }
}

/// Splitting joined words gives the words back.
pub proof fn lemma_split_joined(words: Seq<Seq<char>>)
    requires
        words.len() > 0,
        all_words(words),
    ensures
        split_on_space(joined(words)) == words,
    decreases words.len(),
{
    let first = words[0];
    assert(is_word(first));
    if words.len() == 1 {
        lemma_first_space_at(first, first.len() as int);
        assert(seq![first] == words);
    } else {
        let tail = words.skip(1);
        assert forall|i: int| 0 <= i < tail.len() implies is_word(#[trigger] tail[i]) by {
            assert(tail[i] == words[i + 1]);
        }
        let s = joined(words);
        assert(s == first + seq![' '] + joined(tail));
        assert forall|j: int| 0 <= j < first.len() implies s[j] != ' ' by {
            assert(s[j] == first[j]);
        }
        assert(s[first.len() as int] == ' ');
        lemma_first_space_at(s, first.len() as int);
        assert(s.take(first.len() as int) == first);
        assert(s.skip(first.len() as int + 1) == joined(tail));
        lemma_split_joined(tail);
        assert(seq![first] + tail == words);
    }
}

/// The arguments of a command line made of words are its head followed by
/// the entries of its segments: nothing is lost, split or added, as long as
/// the first word does not start and the last does not end with whitespace.
pub proof fn lemma_arguments_of_command_line(
    head: Seq<Seq<char>>,
    segments: Seq<Seq<Seq<char>>>,
)
    requires
        head.len() > 0,
        all_words(head),
        segments_of_words(segments),
        !is_whitespace(head[0][0]),
        !is_whitespace((head + entries(segments)).last().last()),
    ensures
        arguments_of(command_line(head, segments)) == head + entries(segments),
{
    let all = head + entries(segments);
    lemma_entries_are_words(segments);
    assert(all_words(all)) by {
        assert forall|i: int| 0 <= i < all.len() implies is_word(#[trigger] all[i]) by {
            if i < head.len() {
                assert(all[i] == head[i]);
            } else {
                assert(all[i] == entries(segments)[i - head.len()]);
            }
        }
    }
    lemma_joined_ends(all);
    assert(all[0] == head[0]);
    let line = command_line(head, segments);
    lemma_collapse_after_joined(head, segments_text(segments));
    let collapsed = collapse_space_pairs(line);
    if segments.len() == 0 {
        assert(segments_text(segments) == Seq::<char>::empty());
        assert(entries(segments) == Seq::<Seq<char>>::empty());
        assert(all == head);
        assert(collapse_space_pairs(Seq::<char>::empty()) == Seq::<char>::empty());
        assert(collapsed == joined(all));
        assert(trim(joined(all)) == joined(all));
    } else {
        lemma_collapse_segments(segments);
        lemma_joined_concat(head, entries(segments));
        assert(collapsed == joined(all) + seq![' ']);
        assert(collapsed[0] == joined(all)[0]);
        assert(trim_start(collapsed) == collapsed);
        assert(collapsed.drop_last() == joined(all));
        assert(is_whitespace(' '));
        assert(trim_end(collapsed) == trim_end(joined(all)));
        assert(trim(collapsed) == joined(all));
    }
    lemma_split_joined(all);
}

/// Collapsing the text of segments of words in front of a further segment
/// leaves their entries, joined, between two spaces, and goes on behind the
/// space that opens the further segment.
pub proof fn lemma_collapse_segments_before(segments: Seq<Seq<Seq<char>>>, rest: Seq<char>)
    requires
        segments.len() > 0,
        segments_of_words(segments),
        rest.len() > 0,
        rest[0] == ' ',
    ensures
        collapse_space_pairs(segments_text(segments) + rest) == segment_text(entries(segments))
            + collapse_space_pairs(rest.skip(1)),
    decreases segments.len(),
{
    let first = segments[0];
    let others = segments.skip(1);
    let space = seq![' '];
    assert forall|i: int| 0 <= i < others.len() implies (#[trigger] others[i]).len() > 0
        && all_words(others[i]) by {
        assert(others[i] == segments[i + 1]);
    }
    assert(first.len() > 0 && all_words(first));
    lemma_joined_ends(first);
    assert(is_word(first[0]));
    // What follows the first segment: the other segments, then `rest`.
    let behind = segments_text(others) + rest;
    assert(behind[0] == ' ') by {
        if others.len() > 0 {
            assert(segments_text(others)[0] == ' ');
        }
    }
    let doubled = space + behind;
    assert(doubled[0] == ' ' && doubled[1] == ' ');
    assert(doubled.skip(2) == behind.skip(1));
    assert(collapse_space_pairs(doubled) == space + collapse_space_pairs(behind.skip(1)));
    assert(segments_text(segments) + rest == space + (joined(first) + doubled));
    assert((joined(first) + doubled)[0] == joined(first)[0]);
    lemma_collapse_after_space(joined(first) + doubled);
    lemma_collapse_after_joined(first, doubled);
    // So far: a space, the first segment's entries, a space, and then what
    // collapsing leaves of `behind` without the space that opens it.
    if others.len() == 0 {
        assert(segments_text(others) == Seq::<char>::empty());
        assert(behind == rest);
        assert(entries(others) == Seq::<Seq<char>>::empty());
        assert(first + entries(others) == first);
        assert(space + (joined(first) + (space + collapse_space_pairs(rest.skip(1))))
            == segment_text(first) + collapse_space_pairs(rest.skip(1)));
    } else {
        lemma_collapse_segments_before(others, rest);
        let second = others[0];
        assert(second.len() > 0 && all_words(second));
        lemma_joined_ends(second);
        assert(is_word(second[0]));
        let inner = behind.skip(1);
        assert(inner[0] == joined(second)[0]) by {
            assert(segments_text(others) == space + joined(second) + space + segments_text(
                others.skip(1),
            ));
            assert(behind[1] == joined(second)[0]);
        }
        assert(behind == space + inner);
        lemma_collapse_after_space(inner);
        lemma_entries_are_words(others);
        lemma_joined_concat(first, entries(others));
        let tail = collapse_space_pairs(rest.skip(1));
        assert(collapse_space_pairs(inner) == joined(entries(others)) + space + tail) by {
            assert(space + collapse_space_pairs(inner) == segment_text(entries(others)) + tail);
            let left = space + collapse_space_pairs(inner);
            let right = space + (joined(entries(others)) + space + tail);
            assert(left == right);
            assert(left.skip(1) == collapse_space_pairs(inner));
            assert(right.skip(1) == joined(entries(others)) + space + tail);
        }
        assert(space + (joined(first) + (space + (joined(entries(others)) + space + tail)))
            == segment_text(first + entries(others)) + tail);
    }
}

/// Segments of words stay whole whatever stands around them. In a line
/// that starts with something other than whitespace and ends with a
/// segment of words, the entries of a run of segments of words are
/// arguments, one after the other and unchanged, however the texts before
/// and behind them are spaced. What comes before them among the arguments
/// depends only on what stands before them in the line, and likewise
/// behind.
pub proof fn lemma_word_segments_stay_whole(
    before: Seq<char>,
    segments: Seq<Seq<Seq<char>>>,
    between: Seq<char>,
    last: Seq<Seq<char>>,
) -> (around: (Seq<Seq<char>>, Seq<Seq<char>>))
    requires
        before.len() > 0,
        !is_whitespace(before[0]),
        segments.len() > 0,
        segments_of_words(segments),
        between.len() == 0 || between[0] == ' ',
        last.len() > 0,
        all_words(last),
        !is_whitespace(last.last().last()),
    ensures
        arguments_of(before + segments_text(segments) + between + segment_text(last)) == around.0
            + entries(segments) + around.1,
        around.0 == split_on_space(collapse_space_pairs(before + seq![' ']).drop_last()),
{
    let space = seq![' '];
    let line = before + segments_text(segments) + between + segment_text(last);
    let found = entries(segments);
    lemma_entries_are_words(segments);
    lemma_joined_ends(found);
    lemma_joined_ends(last);
    assert(is_word(last[0]));
    // Behind the segments: `rest` opens with a space, and collapsing what
    // follows that space ends with the last segment's entries and a space.
    let rest = between + segment_text(last);
    assert(rest[0] == ' ');
    let closing = joined(last) + space;
    assert(collapse_space_pairs(closing) == closing) by {
        lemma_collapse_after_joined(last, space);
        lemma_collapse_cut(Seq::<char>::empty(), Seq::<char>::empty());
        assert(Seq::<char>::empty() + space + Seq::<char>::empty() == space);
        assert(Seq::<char>::empty() + space == space);
        assert(collapse_space_pairs(Seq::<char>::empty()) == Seq::<char>::empty());
        assert(collapse_space_pairs(space) + Seq::<char>::empty() == collapse_space_pairs(space));
        lemma_collapse_keeps_ends(space);
        assert(collapse_space_pairs(space).len() == 1) by {
            assert(space.skip(1) == Seq::<char>::empty());
        }
        assert(collapse_space_pairs(space) == space);
    }
    let opened = rest.skip(1);
    let middle: Seq<char> = if between.len() == 0 {
        Seq::empty()
    } else {
        collapse_space_pairs(between.skip(1) + space)
    };
    assert(collapse_space_pairs(opened) == middle + closing) by {
        if between.len() == 0 {
            assert(rest == space + closing);
            assert(opened == closing);
            assert(middle + closing == closing);
        } else {
            assert(opened == between.skip(1) + space + closing);
            assert(closing[0] == joined(last)[0]);
            lemma_collapse_cut(between.skip(1), closing);
        }
    }
    // The segments themselves, in front of `rest`.
    lemma_collapse_segments_before(segments, rest);
    let first = segments[0];
    assert(first.len() > 0 && all_words(first));
    lemma_joined_ends(first);
    assert(is_word(first[0]));
    let body = segments_text(segments) + rest;
    assert(body[0] == ' ');
    let inner = body.skip(1);
    assert(inner[0] == joined(first)[0]) by {
        assert(segments_text(segments) == space + joined(first) + space + segments_text(
            segments.skip(1),
        ));
        assert(body[1] == joined(first)[0]);
    }
    assert(body == space + inner);
    lemma_collapse_after_space(inner);
    assert(collapse_space_pairs(inner) == joined(found) + space + (middle + closing)) by {
        let left = space + collapse_space_pairs(inner);
        let right = space + (joined(found) + space + (middle + closing));
        assert(left == segment_text(found) + collapse_space_pairs(opened));
        assert(left == right);
        assert(left.skip(1) == collapse_space_pairs(inner));
        assert(right.skip(1) == joined(found) + space + (middle + closing));
    }
    // What stands before the segments, up to the space that opens them.
    assert(line == before + space + inner);
    lemma_collapse_cut(before, inner);
    let front = collapse_space_pairs(before + space);
    lemma_collapse_keeps_ends(before + space);
    assert(front.last() == ' ');
    assert(front[0] == before[0]);
    let kept = front.drop_last();
    assert(front == kept + space);
    let collapsed = collapse_space_pairs(line);
    let tail = middle + joined(last);
    assert(collapsed == kept + space + (joined(found) + space + (tail + space))) by {
        assert(middle + closing == tail + space);
    }
    // Trimming takes the one space at the end and nothing at the start.
    assert(trim_start(collapsed) == collapsed) by {
        assert(collapsed[0] == front[0]);
    }
    assert(is_whitespace(' '));
    assert(trim_end(tail + space) == tail) by {
        assert((tail + space).drop_last() == tail);
        assert((tail + space).last() == ' ');
        assert(tail.last() == joined(last).last());
        assert(trim_end(tail) == tail);
    }
    lemma_trim_end_behind(kept + space + (joined(found) + space), tail + space);
    assert(kept + space + (joined(found) + space) + (tail + space) == collapsed);
    let trimmed = kept + space + (joined(found) + space + tail);
    assert(trim(collapsed) == trimmed) by {
        assert(kept + space + (joined(found) + space) + tail == trimmed);
    }
    // Splitting cuts at the two spaces around the entries.
    lemma_split_cut(kept, joined(found) + space + tail);
    lemma_split_cut(joined(found), tail);
    lemma_split_joined(found);
    let pre = split_on_space(kept);
    let post = split_on_space(tail);
    assert(pre + (found + post) == pre + found + post);
    (pre, post)
}

} // verus!
