//! Text layout: decimal numbers and padding to a column width.
//!
//! Widths count characters, and a text that is already as wide as the column
//! is left as it is.

use vstd::prelude::*;

verus! {

/// The character of a decimal digit.
pub open spec fn digit_char(d: nat) -> char
    recommends
        d < 10,
{
    if d == 0 {
        '0'
    } else if d == 1 {
        '1'
    } else if d == 2 {
        '2'
    } else if d == 3 {
        '3'
    } else if d == 4 {
        '4'
    } else if d == 5 {
        '5'
    } else if d == 6 {
        '6'
    } else if d == 7 {
        '7'
    } else if d == 8 {
        '8'
    } else {
        '9'
    }
}

/// The decimal digits of a number, most significant first, without leading
/// zeros; `0` is written "0".
pub open spec fn decimal(n: nat) -> Seq<char>
    decreases n,
{
    if n < 10 {
        seq![digit_char(n)]
    } else {
        decimal(n / 10).push(digit_char(n % 10))
    }
}

/// `count` copies of `unit`, one after the other.
pub open spec fn repeated(unit: Seq<char>, count: nat) -> Seq<char>
    decreases count,
{
    if count == 0 {
        Seq::empty()
    } else {
        repeated(unit, (count - 1) as nat) + unit
    }
}

/// `text` moved to the right edge of a column of `width` characters, with
/// spaces before it.
pub open spec fn pad_left(text: Seq<char>, width: nat) -> Seq<char> {
    if text.len() >= width {
        text
    } else {
        repeated(seq![' '], (width - text.len()) as nat) + text
    }
}

/// `text` in the middle of a column of `width` characters, with copies of
/// `fill` on both sides; where the room is odd, the right side is the longer.
pub open spec fn centered(text: Seq<char>, width: nat, fill: Seq<char>) -> Seq<char> {
    if text.len() >= width {
        text
    } else {
        let room = (width - text.len()) as nat;
        repeated(fill, room / 2) + text + repeated(fill, (room - room / 2) as nat)
    }
}

/// The length of a repetition is the count times the unit's length.
pub proof fn lemma_repeated_len(unit: Seq<char>, count: nat)
    ensures
        repeated(unit, count).len() == count * unit.len(),
    decreases count,
{
    if count > 0 {
        lemma_repeated_len(unit, (count - 1) as nat);
        assert(count * unit.len() == (count - 1) * unit.len() + unit.len()) by (nonlinear_arith);
    } else {
        assert(count * unit.len() == 0) by (nonlinear_arith)
            requires
                count == 0,
        ;
    }
}

/// A padded text fills its column: it is as wide as the column, or as wide
/// as the text where that is wider, and it ends with the text.
pub proof fn lemma_pad_left(text: Seq<char>, width: nat)
    ensures
        pad_left(text, width).len() == if text.len() >= width {
            text.len()
        } else {
            width
        },
        text.is_suffix_of(pad_left(text, width)),
{
    if text.len() < width {
        let room = (width - text.len()) as nat;
        lemma_repeated_len(seq![' '], room);
        assert(room * 1 == room) by (nonlinear_arith);
        let padded = pad_left(text, width);
        assert(padded.subrange(padded.len() - text.len(), padded.len() as int) =~= text);
    } else {
        assert(text.subrange(0, text.len() as int) =~= text);
    }
}

fn digit_text(d: u64) -> (s: &'static str)
    requires
        d < 10,
    ensures
        s@ == seq![digit_char(d as nat)],
{
    proof {
        reveal_strlit("0");
        reveal_strlit("1");
        reveal_strlit("2");
        reveal_strlit("3");
        reveal_strlit("4");
        reveal_strlit("5");
        reveal_strlit("6");
        reveal_strlit("7");
        reveal_strlit("8");
        reveal_strlit("9");
    }
    let s = if d == 0 {
        "0"
    } else if d == 1 {
        "1"
    } else if d == 2 {
        "2"
    } else if d == 3 {
        "3"
    } else if d == 4 {
        "4"
    } else if d == 5 {
        "5"
    } else if d == 6 {
        "6"
    } else if d == 7 {
        "7"
    } else if d == 8 {
        "8"
    } else {
        "9"
    };
    assert(s@ =~= seq![digit_char(d as nat)]);
    s
}

/// Writes a number in decimal.
pub fn decimal_text(n: u64) -> (s: String)
    ensures
        s@ == decimal(n as nat),
    decreases n,
{
    if n < 10 {
        String::from_str(digit_text(n))
    } else {
        let head = decimal_text(n / 10);
        let last = digit_text(n % 10);
        let s = head.concat(last);
        assert(s@ =~= decimal((n / 10) as nat).push(digit_char((n % 10) as nat)));
        s
    }
}

/// `count` copies of `unit`, one after the other.
pub fn repeat_text(unit: &str, count: usize) -> (s: String)
    ensures
        s@ == repeated(unit@, count as nat),
{
    let mut s = String::new();
    let mut done: usize = 0;
    while done < count
        invariant
            done <= count,
            s@ == repeated(unit@, done as nat),
        decreases count - done,
    {
        s.append(unit);
        done = done + 1;
    }
    s
}

/// Moves `text` to the right edge of a column of `width` characters.
pub fn right_align(text: &str, width: usize) -> (s: String)
    ensures
        s@ == pad_left(text@, width as nat),
{
    let len = text.unicode_len();
    if len >= width {
        String::from_str(text)
    } else {
        proof {
            reveal_strlit(" ");
            assert(" "@ =~= seq![' ']);
        }
        let mut s = repeat_text(" ", width - len);
        s.append(text);
        s
    }
}

/// Puts `text` in the middle of a column of `width` characters, between
/// copies of `fill`.
pub fn center(text: &str, width: usize, fill: &str) -> (s: String)
    ensures
        s@ == centered(text@, width as nat, fill@),
{
    let len = text.unicode_len();
    if len >= width {
        String::from_str(text)
    } else {
        let room = width - len;
        let mut s = repeat_text(fill, room / 2);
        s.append(text);
        let right = repeat_text(fill, room - room / 2);
        s.append(right.as_str());
        s
    }
}

} // verus!
