//! Names of the files of a split: a template filled with the number of each.

use vstd::prelude::*;
use vstd::string::StrSliceExecFns;

verus! {

/// The decimal digit of a number below ten.
pub open spec fn digit(d: nat) -> char {
    if d == 0 {
        '0'
    } else if d == 1 {
        '1'
    } else if d == 2 {
        '2'
    } else if d == 3 {
        '3'
    } else if d == 4 {
        '4'
    } else if d == 5 {
        '5'
    } else if d == 6 {
        '6'
    } else if d == 7 {
        '7'
    } else if d == 8 {
        '8'
    } else {
        '9'
    }
}

/// A number written in decimal, without leading zeros.
pub open spec fn decimal(n: nat) -> Seq<char>
    decreases n,
{
    if n < 10 {
        seq![digit(n)]
    } else {
        decimal(n / 10).push(digit(n % 10))
    }
}

/// A template with each `{}` replaced by a text, from left to right.
pub open spec fn filled(template: Seq<char>, text: Seq<char>) -> Seq<char>
    decreases template.len(),
{
    if template.len() == 0 {
        Seq::empty()
    } else if template.len() >= 2 && template[0] == '{' && template[1] == '}' {
        text + filled(template.skip(2), text)
    } else {
        seq![template[0]] + filled(template.skip(1), text)
    }
}

/// A sequence from its last item to its first.
pub open spec fn backwards(items: Seq<char>) -> Seq<char> {
    Seq::new(items.len(), |i: int| items[items.len() - 1 - i])
}

/// `String::push`: one more character at the end.
#[verifier::external_body]
fn push_char(text: &mut String, c: char)
    ensures
        final(text)@ == old(text)@.push(c),
{
    text.push(c)
}

/// Computes `digit`.
pub fn digit_char(d: usize) -> (c: char)
    requires
        d < 10,
    ensures
        c == digit(d as nat),
{
    if d == 0 {
        '0'
    } else if d == 1 {
        '1'
    } else if d == 2 {
        '2'
    } else if d == 3 {
        '3'
    } else if d == 4 {
        '4'
    } else if d == 5 {
        '5'
    } else if d == 6 {
        '6'
    } else if d == 7 {
        '7'
    } else if d == 8 {
        '8'
    } else {
        '9'
    }
}

/// Writes a number in decimal at the end of a text.
pub fn push_decimal(text: &mut String, n: usize)
    ensures
        final(text)@ == old(text)@ + decimal(n as nat),
{
    // The digits from the last to the first.
    let mut digits: Vec<char> = Vec::new();
    digits.push(digit_char(n % 10));
    let mut rest: usize = n / 10;
    assert(backwards(digits@) =~= seq![digit((n % 10) as nat)]);
    while rest > 0
        invariant
            digits@.len() > 0,
            decimal(n as nat) == if rest > 0 {
                decimal(rest as nat) + backwards(digits@)
            } else {
                backwards(digits@)
            },
        decreases rest,
    {
        let ghost before = digits@;
        digits.push(digit_char(rest % 10));
        proof {
            let d = digit((rest % 10) as nat);
            assert(backwards(digits@) =~= seq![d] + backwards(before));
            if rest >= 10 {
                assert(decimal(rest as nat) + backwards(before) =~= decimal((rest / 10) as nat)
                    + backwards(digits@));
            } else {
                assert(decimal(rest as nat) + backwards(before) =~= backwards(digits@));
            }
        }
        rest = rest / 10;
    }
    let ghost start = text@;
    let ghost all = digits@;
    let count: usize = digits.len();
    let mut i: usize = 0;
    while i < count
        invariant
            i <= count,
            count == digits@.len(),
            all == digits@,
            text@ == start + backwards(all).take(i as int),
        decreases count - i,
    {
        push_char(text, digits[count - 1 - i]);
        assert(text@ =~= start + backwards(all).take(i + 1));
        i += 1;
    }
    assert(backwards(all).take(count as int) =~= backwards(all));
}

/// Fills a template with a number: each `{}` becomes the number in decimal.
pub fn fill(template: &str, index: usize) -> (name: String)
    ensures
        name@ == filled(template@, decimal(index as nat)),
{
    let ghost text = decimal(index as nat);
    let mut name = String::new();
    let len: usize = template.unicode_len();
    let mut i: usize = 0;
    assert(template@.skip(0) =~= template@);
    while i < len
        invariant
            i <= len,
            len == template@.len(),
            text == decimal(index as nat),
            name@ + filled(template@.skip(i as int), text) == filled(template@, text),
        decreases len - i,
    {
        let ghost rest = template@.skip(i as int);
        let ghost before = name@;
        let c = template.get_char(i);
        assert(rest[0] == c);
        if c == '{' && i + 1 < len && template.get_char(i + 1) == '}' {
            assert(rest[1] == '}');
            push_decimal(&mut name, index);
            assert(rest.skip(2) =~= template@.skip(i + 2));
            assert(before + (text + filled(rest.skip(2), text)) =~= (before + text) + filled(
                rest.skip(2),
                text,
            ));
            i += 2;
        } else {
            push_char(&mut name, c);
            assert(rest.skip(1) =~= template@.skip(i + 1));
            assert(before + (seq![c] + filled(rest.skip(1), text)) =~= before.push(c) + filled(
                rest.skip(1),
                text,
            ));
            i += 1;
        }
    }
    assert(name@ + Seq::<char>::empty() =~= name@);
    name
}

} // verus!
