//! Character-level text operations used to turn an assembled command line
//! into its list of arguments.
use vstd::prelude::*;

verus! {

broadcast use vstd::string::group_string_axioms;

/// The characters that carry the Unicode `White_Space` property.
pub open spec fn is_whitespace(c: char) -> bool {
    let u = c as u32;
    ||| 0x09 <= u <= 0x0D
    ||| u == 0x20
    ||| u == 0x85
    ||| u == 0xA0
    ||| u == 0x1680
    ||| 0x2000 <= u <= 0x200A
    ||| u == 0x2028
    ||| u == 0x2029
    ||| u == 0x202F
    ||| u == 0x205F
    ||| u == 0x3000
}

/// One left-to-right pass that replaces each pair of spaces by one space.
/// Pairs do not overlap: a run of three spaces becomes two, a run of four
/// becomes two.
pub open spec fn collapse_space_pairs(s: Seq<char>) -> Seq<char>
    decreases s.len(),
{
    if s.len() == 0 {
        s
    } else if s.len() >= 2 && s[0] == ' ' && s[1] == ' ' {
        seq![' '] + collapse_space_pairs(s.skip(2))
    } else {
        seq![s[0]] + collapse_space_pairs(s.skip(1))
    }
}

/// `s` without its leading whitespace.
pub open spec fn trim_start(s: Seq<char>) -> Seq<char>
    decreases s.len(),
{
    if s.len() > 0 && is_whitespace(s[0]) {
        trim_start(s.skip(1))
    } else {
        s
    }
}

/// `s` without its trailing whitespace.
pub open spec fn trim_end(s: Seq<char>) -> Seq<char>
    decreases s.len(),
{
    if s.len() > 0 && is_whitespace(s.last()) {
        trim_end(s.drop_last())
    } else {
        s
    }
}

/// `s` without leading and trailing whitespace.
pub open spec fn trim(s: Seq<char>) -> Seq<char> {
    trim_end(trim_start(s))
}

/// The normal form of an assembled command line: space pairs collapsed once,
/// then trimmed.
pub open spec fn normalized(s: Seq<char>) -> Seq<char> {
    trim(collapse_space_pairs(s))
}

/// Index of the first space in `s`, or `s.len()` when it holds none.
pub open spec fn first_space(s: Seq<char>) -> int
    decreases s.len(),
{
    if s.len() == 0 || s[0] == ' ' {
        0
    } else {
        1 + first_space(s.skip(1))
    }
}

/// The pieces of `s` between single spaces. Two adjacent spaces enclose an
/// empty piece, and the empty text has one empty piece.
pub open spec fn split_on_space(s: Seq<char>) -> Seq<Seq<char>>
    decreases s.len(),
{
    let i = first_space(s);
    if 0 <= i < s.len() {
        seq![s.take(i)] + split_on_space(s.skip(i + 1))
    } else {
        seq![s]
    }
}

/// The characters of a string slice, in order.
pub fn chars_of(s: &str) -> (v: Vec<char>)
    ensures
        v@ == s@,
{
    let mut v: Vec<char> = Vec::new();
    for c in it: s.chars()
        invariant
            it.seq() == s@,
            v@ == s@.take(it.index()),
    {
        v.push(c);
    }
    v
}

/// The text made of the characters of `chars` from `from` up to `to`.
fn piece_of(chars: &Vec<char>, from: usize, to: usize) -> (s: String)
    requires
        from <= to <= chars.len(),
    ensures
        s@ == chars@.subrange(from as int, to as int),
{
    let mut s = String::new();
    let mut i: usize = from;
    while i < to
        invariant
            from <= i <= to <= chars.len(),
            s@ == chars@.subrange(from as int, i as int),
        decreases to - i,
    {
        s.push(chars[i]);
        i += 1;
    }
    s
}

/// The text made of `chars`.
pub fn string_of(chars: &Vec<char>) -> (s: String)
    ensures
        s@ == chars@,
{
    let s = piece_of(chars, 0, chars.len());
    assert(chars@.subrange(0, chars@.len() as int) == chars@);
    s
}

/// Whether `c` is a whitespace character.
pub fn is_whitespace_char(c: char) -> (b: bool)
    ensures
        b == is_whitespace(c),
{
    let u: u32 = c as u32;
    (0x09 <= u && u <= 0x0D) || u == 0x20 || u == 0x85 || u == 0xA0 || u == 0x1680 || (0x2000 <= u
        && u <= 0x200A) || u == 0x2028 || u == 0x2029 || u == 0x202F || u == 0x205F || u == 0x3000
}

/// Collapsing what is left of `s` after `i` characters.
proof fn lemma_collapse_step(s: Seq<char>, i: int)
    requires
        0 <= i < s.len(),
    ensures
        i + 1 < s.len() && s[i] == ' ' && s[i + 1] == ' ' ==> collapse_space_pairs(s.skip(i))
            == seq![' '] + collapse_space_pairs(s.skip(i + 2)),
        !(i + 1 < s.len() && s[i] == ' ' && s[i + 1] == ' ') ==> collapse_space_pairs(s.skip(i))
            == seq![s[i]] + collapse_space_pairs(s.skip(i + 1)),
{
    let t = s.skip(i);
    assert(t.skip(1) == s.skip(i + 1));
    if i + 1 < s.len() {
        assert(t.skip(2) == s.skip(i + 2));
    }
}

/// The characters of `chars` with each pair of spaces replaced by one space.
pub fn collapse_space_pairs_in(chars: &Vec<char>) -> (out: Vec<char>)
    ensures
        out@ == collapse_space_pairs(chars@),
{
    let mut out: Vec<char> = Vec::new();
    let mut i: usize = 0;
    assert(chars@.skip(0) == chars@);
    while i < chars.len()
        invariant
            i <= chars.len(),
            out@ + collapse_space_pairs(chars@.skip(i as int)) == collapse_space_pairs(chars@),
        decreases chars.len() - i,
    {
        proof {
            lemma_collapse_step(chars@, i as int);
        }
        let ghost before = out@;
        if chars[i] == ' ' && i + 1 < chars.len() && chars[i + 1] == ' ' {
            out.push(' ');
            i += 2;
            assert(out@ + collapse_space_pairs(chars@.skip(i as int)) == before + (seq![' ']
                + collapse_space_pairs(chars@.skip(i as int))));
        } else {
            out.push(chars[i]);
            i += 1;
            assert(out@ + collapse_space_pairs(chars@.skip(i as int)) == before + (seq![chars@[i
                - 1]] + collapse_space_pairs(chars@.skip(i as int))));
        }
    }
    assert(chars@.skip(i as int) == Seq::<char>::empty());
    assert(out@ + Seq::<char>::empty() == out@);
    out
}

/// The characters of `chars` without leading and trailing whitespace.
pub fn trim_in(chars: &Vec<char>) -> (out: Vec<char>)
    ensures
        out@ == trim(chars@),
{
    let n = chars.len();
    let mut a: usize = 0;
    assert(chars@.skip(0) == chars@);
    while a < n && is_whitespace_char(chars[a])
        invariant
            a <= n == chars.len(),
            trim_start(chars@) == trim_start(chars@.skip(a as int)),
        decreases n - a,
    {
        assert(chars@.skip(a as int).skip(1) == chars@.skip(a + 1));
        a += 1;
    }
    let mut b: usize = n;
    assert(chars@.subrange(a as int, n as int) == chars@.skip(a as int));
    while b > a && is_whitespace_char(chars[b - 1])
        invariant
            a <= b <= n == chars.len(),
            trim(chars@) == trim_end(chars@.subrange(a as int, b as int)),
        decreases b,
    {
        assert(chars@.subrange(a as int, b as int).drop_last() == chars@.subrange(
            a as int,
            b - 1,
        ));
        b -= 1;
    }
    let mut out: Vec<char> = Vec::new();
    let mut i: usize = a;
    while i < b
        invariant
            a <= i <= b <= chars.len(),
            out@ == chars@.subrange(a as int, i as int),
        decreases b - i,
    {
        out.push(chars[i]);
        i += 1;
    }
    out
}

/// Where the first space of `s` stands, given that none stands before `k`.
pub proof fn lemma_first_space_at(s: Seq<char>, k: int)
    requires
        0 <= k <= s.len(),
        forall|j: int| 0 <= j < k ==> s[j] != ' ',
        k < s.len() ==> s[k] == ' ',
    ensures
        first_space(s) == k,
    decreases k,
{
    if k > 0 {
        let t = s.skip(1);
        assert forall|j: int| 0 <= j < k - 1 implies t[j] != ' ' by {
            assert(t[j] == s[j + 1]);
        }
        lemma_first_space_at(t, k - 1);
    }
}

/// The views of a list of strings, one per string.
pub open spec fn texts(v: Seq<String>) -> Seq<Seq<char>> {
    Seq::new(v.len(), |i: int| v[i]@)
}

/// The characters of an optional string.
pub open spec fn text_of_option(value: Option<String>) -> Option<Seq<char>> {
    match value {
        Some(v) => Some(v@),
        None => None,
    }
}

/// The pieces of `chars` between single spaces.
pub fn split_on_space_in(chars: &Vec<char>) -> (pieces: Vec<String>)
    ensures
        texts(pieces@) == split_on_space(chars@),
{
    let n = chars.len();
    let mut pieces: Vec<String> = Vec::new();
    let mut start: usize = 0;
    let mut i: usize = 0;
    assert(chars@.skip(0) == chars@);
    assert(texts(pieces@) == Seq::<Seq<char>>::empty());
    while i < n
        invariant
            start <= i <= n == chars.len(),
            forall|k: int| start <= k < i ==> chars@[k] != ' ',
            texts(pieces@) + split_on_space(chars@.skip(start as int)) == split_on_space(chars@),
        decreases n - i,
    {
        if chars[i] == ' ' {
            let piece = piece_of(chars, start, i);
            proof {
                let rest = chars@.skip(start as int);
                lemma_first_space_at(rest, i - start);
                assert(rest.take(i - start) == piece@);
                assert(rest.skip(i - start + 1) == chars@.skip(i + 1));
                assert(texts(pieces@.push(piece)) == texts(pieces@).push(piece@));
            }
            pieces.push(piece);
            start = i + 1;
        }
        i += 1;
    }
    let piece = piece_of(chars, start, n);
    proof {
        let rest = chars@.skip(start as int);
        lemma_first_space_at(rest, n - start);
        assert(rest == piece@);
        assert(texts(pieces@.push(piece)) == texts(pieces@).push(piece@));
    }
    pieces.push(piece);
    pieces
}

/// `input` with space pairs collapsed once and then trimmed.
pub fn normalized_text(input: &str) -> (out: String)
    ensures
        out@ == normalized(input@),
{
    let chars = chars_of(input);
    let collapsed = collapse_space_pairs_in(&chars);
    let trimmed = trim_in(&collapsed);
    string_of(&trimmed)
}

/// The pieces of `input` between single spaces.
pub fn split_text(input: &str) -> (pieces: Vec<String>)
    ensures
        texts(pieces@) == split_on_space(input@),
{
    let chars = chars_of(input);
    split_on_space_in(&chars)
}

/// Whether two string slices hold the same characters.
pub fn same_text(a: &str, b: &str) -> (same: bool)
    ensures
        same == (a@ == b@),
{
    let left = chars_of(a);
    let right = chars_of(b);
    if left.len() != right.len() {
        return false;
    }
    let mut i: usize = 0;
    while i < left.len()
        invariant
            i <= left.len() == right.len(),
            left@ == a@,
            right@ == b@,
            forall|k: int| 0 <= k < i ==> left@[k] == right@[k],
        decreases left.len() - i,
    {
        if left[i] != right[i] {
            return false;
        }
        i += 1;
    }
    assert(left@ == right@);
    true
}

/// The character of a decimal digit.
pub open spec fn digit(d: nat) -> char {
    if d == 0 {
        '0'
    } else if d == 1 {
        '1'
    } else if d == 2 {
        '2'
    } else if d == 3 {
        '3'
    } else if d == 4 {
        '4'
    } else if d == 5 {
        '5'
    } else if d == 6 {
        '6'
    } else if d == 7 {
        '7'
    } else if d == 8 {
        '8'
    } else {
        '9'
    }
}

/// A number in decimal notation, without sign or leading zeros.
pub open spec fn decimal(n: nat) -> Seq<char>
    decreases n,
{
    if n < 10 {
        seq![digit(n)]
    } else {
        decimal(n / 10).push(digit(n % 10))
    }
}

fn digit_char(d: u16) -> (c: char)
    requires
        d < 10,
    ensures
        c == digit(d as nat),
{
    if d == 0 {
        '0'
    } else if d == 1 {
        '1'
    } else if d == 2 {
        '2'
    } else if d == 3 {
        '3'
    } else if d == 4 {
        '4'
    } else if d == 5 {
        '5'
    } else if d == 6 {
        '6'
    } else if d == 7 {
        '7'
    } else if d == 8 {
        '8'
    } else {
        '9'
    }
}

/// `n` in decimal notation.
pub fn decimal_text(n: u16) -> (s: String)
    ensures
        s@ == decimal(n as nat),
    decreases n,
{
    if n < 10 {
        let mut s = String::new();
        s.push(digit_char(n));
        assert(s@ == seq![digit(n as nat)]);
        s
    } else {
        let mut s = decimal_text(n / 10);
        s.push(digit_char(n % 10));
        s
    }
}

} // verus!
