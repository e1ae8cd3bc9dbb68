use vstd::prelude::*;
use vstd::string::*;

verus! {

/// `String::push`: appends one character.
#[verifier::external_body]
pub(crate) fn push_char(text: &mut String, c: char)
    ensures
        final(text)@ == old(text)@.push(c),
{
    text.push(c)
}

/// The character of a decimal digit.
pub open spec fn digit_char(d: int) -> char {
    (('0' as int + d) as u8) as char
}

/// A natural number in decimal, without leading zeros.
pub open spec fn natural_text(n: nat) -> Seq<char>
    decreases n,
{
    if n < 10 {
        seq![digit_char(n as int)]
    } else {
        natural_text(n / 10).push(digit_char((n % 10) as int))
    }
}

/// An integer in decimal, with a minus sign where it is negative.
pub open spec fn integer_text(n: int) -> Seq<char> {
    if n < 0 {
        seq!['-'] + natural_text((-n) as nat)
    } else {
        natural_text(n as nat)
    }
}

/// A text set to the right of a field: spaces are put before it until it
/// is `width` characters long. A longer text stays as it is.
pub open spec fn padded(text: Seq<char>, width: nat) -> Seq<char> {
    if text.len() >= width {
        text
    } else {
        Seq::new((width - text.len()) as nat, |i: int| ' ') + text
    }
}

/// Appends a text to another, character by character.
pub fn push_text(text: &mut String, more: &str)
    ensures
        final(text)@ == old(text)@ + more@,
{
    text.append(more);
}

/// Writes a natural number in decimal at the end of a text.
pub fn push_natural(text: &mut String, n: u64)
    ensures
        final(text)@ == old(text)@ + natural_text(n as nat),
    decreases n,
{
    if n >= 10 {
        push_natural(text, n / 10);
    }
    let d = (n % 10) as u8;
    let c = (0x30u8 + d) as char;
    assert(c == digit_char((n % 10) as int));
    let ghost before = text@;
    push_char(text, c);
    proof {
        if n >= 10 {
            assert(old(text)@ + natural_text((n / 10) as nat).push(c) =~= (old(text)@
                + natural_text((n / 10) as nat)).push(c));
        } else {
            assert(old(text)@ + seq![c] =~= old(text)@.push(c));
        }
    }
}

/// Writes an integer in decimal at the end of a text.
pub fn push_integer(text: &mut String, n: i64)
    ensures
        final(text)@ == old(text)@ + integer_text(n as int),
{
    if n < 0 {
        let magnitude: u64 = if n == i64::MIN {
            0x8000_0000_0000_0000
        } else {
            (-n) as u64
        };
        push_char(text, '-');
        push_natural(text, magnitude);
        assert(old(text)@.push('-') + natural_text(magnitude as nat) =~= old(text)@ + (seq!['-']
            + natural_text(magnitude as nat)));
    } else {
        push_natural(text, n as u64);
    }
}

/// An integer in decimal.
pub fn integer_to_string(n: i64) -> (text: String)
    ensures
        text@ == integer_text(n as int),
{
    let mut text = String::new();
    push_integer(&mut text, n);
    assert(Seq::<char>::empty() + integer_text(n as int) =~= integer_text(n as int));
    text
}

/// Sets a text to the right of a field of `width` characters.
pub fn pad_left(text: &str, width: usize) -> (field: String)
    ensures
        field@ == padded(text@, width as nat),
{
    let count = text.unicode_len();
    let mut field = String::new();
    if count < width {
        let gap = width - count;
        let mut i: usize = 0;
        while i < gap
            invariant
                i <= gap,
                field@ == Seq::new(i as nat, |k: int| ' '),
            decreases gap - i,
        {
            push_char(&mut field, ' ');
            i += 1;
            assert(field@ =~= Seq::new(i as nat, |k: int| ' '));
        }
    }
    assert(Seq::<char>::empty() + text@ =~= text@);
    push_text(&mut field, text);
    field
}

} // verus!
