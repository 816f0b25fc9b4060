//! Zone labels: a ring letter, and for a wedge its two-digit clock position.

use vstd::prelude::*;

verus! {

/// How many rings can be told apart by a letter, the innermost circle included.
pub const RING_LETTERS: usize = 26;

/// `String::push` of the standard library: the character is appended at the
/// end of the string, and what the string held before stays in front of it.
pub assume_specification[ String::push ](s: &mut String, c: char)
    ensures
        final(s)@ == old(s)@.push(c),
;

/// The letter of ring `ring`: `A` for the innermost circle, `B` for the first
/// ring around it, and so on up to `Z`.
pub open spec fn letter_of(ring: int) -> char
    recommends
        0 <= ring < RING_LETTERS,
{
    ('A' as u8 + ring) as char
}

/// The character of the decimal digit `d`.
pub open spec fn digit_of(d: int) -> char
    recommends
        0 <= d < 10,
{
    ('0' as u8 + d) as char
}

/// The decimal digits of `n`, most significant first and without leading
/// zeros; zero has no digits.
pub open spec fn digits_of(n: nat) -> Seq<char>
    decreases n,
{
    if n == 0 {
        Seq::empty()
    } else {
        digits_of(n / 10).push(digit_of(n as int % 10))
    }
}

/// `n` in decimal, padded with zeros on the left to at least two digits.
pub open spec fn two_digits(n: nat) -> Seq<char> {
    if n == 0 {
        seq!['0', '0']
    } else if n < 10 {
        seq!['0', digit_of(n as int)]
    } else {
        digits_of(n)
    }
}

/// The label of the only zone of ring `ring`: its letter.
pub open spec fn ring_label(ring: int) -> Seq<char> {
    seq![letter_of(ring)]
}

/// The label of wedge `segment` (counted from zero) of ring `ring`: the ring's
/// letter followed by the wedge's position, counted from one, in two digits.
pub open spec fn wedge_label(ring: int, segment: nat) -> Seq<char> {
    ring_label(ring) + two_digits(segment + 1)
}

/// The number that a sequence of decimal digits stands for.
pub open spec fn digits_value(digits: Seq<char>) -> int
    decreases digits.len(),
{
    if digits.len() == 0 {
        0
    } else {
        digits_value(digits.drop_last()) * 10 + (digits.last() as int - '0' as int)
    }
}

/// The digits of a number stand for that number.
pub proof fn lemma_digits_value(n: nat)
    ensures
        digits_value(digits_of(n)) == n,
    decreases n,
{
    if n != 0 {
        lemma_digits_value(n / 10);
        assert(digits_of(n).drop_last() =~= digits_of(n / 10));
    }
}

/// The two digits of a number stand for that number, so that no two numbers
/// are written alike.
pub proof fn lemma_two_digits_value(n: nat)
    ensures
        digits_value(two_digits(n)) == n,
        two_digits(n).len() >= 2,
{
    if n < 10 {
        let padded = two_digits(n);
        assert(padded.drop_last() =~= seq!['0']);
        assert(padded.drop_last().drop_last() =~= Seq::<char>::empty());
        reveal_with_fuel(digits_value, 3);
    } else {
        lemma_digits_value(n);
        assert(digits_of(n / 10).len() >= 1);
    }
}

/// Looks up the letter of a ring. There is a letter for the first 26 rings and
/// none beyond.
pub fn ring_letter(ring: usize) -> (letter: Option<char>)
    ensures
        letter == if ring < RING_LETTERS {
            Some(letter_of(ring as int))
        } else {
            None
        },
{
    if ring < RING_LETTERS {
        let offset: u8 = ring as u8;
        Some(('A' as u8 + offset) as char)
    } else {
        None
    }
}

/// Appends the digits of `n` to `text`.
fn push_digits(text: &mut String, n: u128)
    ensures
        final(text)@ == old(text)@ + digits_of(n as nat),
    decreases n,
{
    if n != 0 {
        push_digits(text, n / 10);
        let d: u8 = (n % 10) as u8;
        text.push(('0' as u8 + d) as char);
    }
}

/// Builds the label of a ring that is not cut into wedges.
pub fn make_ring_label(letter: char) -> (label: String)
    ensures
        label@ == seq![letter],
{
    let mut label = String::new();
    label.push(letter);
    label
}

/// Builds the label of wedge `segment` of the ring with the given letter.
pub fn make_wedge_label(letter: char, segment: usize) -> (label: String)
    ensures
        label@ == seq![letter] + two_digits(segment as nat + 1),
{
    let position: u128 = segment as u128 + 1;
    let mut label = String::new();
    label.push(letter);
    if position < 10 {
        label.push('0');
    }
    push_digits(&mut label, position);
    assert(position < 10 ==> digits_of(position as nat) =~= seq![digit_of(position as int)]) by {
        reveal_with_fuel(digits_of, 2);
    }
    label
}

} // verus!
