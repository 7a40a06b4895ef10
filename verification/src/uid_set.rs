//! The text that names a set of UIDs in a fetch command: the UIDs in decimal,
//! separated by commas.

use vstd::prelude::*;
use vstd::string::StringExecFns;

verus! {

/// The character for a digit below ten.
pub open spec fn digit_char(digit: nat) -> char {
    if digit == 0 {
        '0'
    } else if digit == 1 {
        '1'
    } else if digit == 2 {
        '2'
    } else if digit == 3 {
        '3'
    } else if digit == 4 {
        '4'
    } else if digit == 5 {
        '5'
    } else if digit == 6 {
        '6'
    } else if digit == 7 {
        '7'
    } else if digit == 8 {
        '8'
    } else {
        '9'
    }
}

/// A number in decimal, without leading zeros.
pub open spec fn decimal(n: nat) -> Seq<char>
    decreases n,
{
    if n < 10 {
        seq![digit_char(n)]
    } else {
        decimal(n / 10).push(digit_char(n % 10))
    }
}

/// The UIDs in decimal, in the order given, with a comma between each two.
pub open spec fn uid_set_text(uids: Seq<u32>) -> Seq<char>
    decreases uids.len(),
{
    if uids.len() == 0 {
        Seq::empty()
    } else if uids.len() == 1 {
        decimal(uids[0] as nat)
    } else {
        uid_set_text(uids.drop_last()).push(',') + decimal(uids.last() as nat)
    }
}

/// The character is a decimal digit.
pub open spec fn is_digit(c: char) -> bool {
    exists|digit: nat| digit < 10 && c == #[trigger] digit_char(digit)
}

/// A number in decimal has at least one character, and all of them are
/// digits.
pub proof fn lemma_decimal_shape(n: nat)
    ensures
        decimal(n).len() > 0,
        forall|i: int| 0 <= i < decimal(n).len() ==> is_digit(#[trigger] decimal(n)[i]),
    decreases n,
{
    if n < 10 {
        assert(is_digit(digit_char(n)));
    } else {
        lemma_decimal_shape(n / 10);
        assert(is_digit(digit_char(n % 10)));
    }
}

/// The text of a set of UIDs holds nothing but digits and commas, so no
/// white space, and is empty only where there is no UID.
pub proof fn lemma_uid_set_text_shape(uids: Seq<u32>)
    ensures
        uids.len() > 0 ==> uid_set_text(uids).len() > 0,
        forall|i: int|
            0 <= i < uid_set_text(uids).len() ==> {
                let c = #[trigger] uid_set_text(uids)[i];
                c == ',' || is_digit(c)
            },
    decreases uids.len(),
{
    if uids.len() == 1 {
        lemma_decimal_shape(uids[0] as nat);
    } else if uids.len() > 1 {
        lemma_uid_set_text_shape(uids.drop_last());
        lemma_decimal_shape(uids.last() as nat);
    }
}

fn digit_text(digit: u32) -> (text: &'static str)
    requires
        digit < 10,
    ensures
        text@ == seq![digit_char(digit as nat)],
{
    proof {
        reveal_strlit("0");
        reveal_strlit("1");
        reveal_strlit("2");
        reveal_strlit("3");
        reveal_strlit("4");
        reveal_strlit("5");
        reveal_strlit("6");
        reveal_strlit("7");
        reveal_strlit("8");
        reveal_strlit("9");
    }
    let text = if digit == 0 {
        "0"
    } else if digit == 1 {
        "1"
    } else if digit == 2 {
        "2"
    } else if digit == 3 {
        "3"
    } else if digit == 4 {
        "4"
    } else if digit == 5 {
        "5"
    } else if digit == 6 {
        "6"
    } else if digit == 7 {
        "7"
    } else if digit == 8 {
        "8"
    } else {
        "9"
    };
    assert(text@ =~= seq![digit_char(digit as nat)]);
    text
}

fn push_decimal(text: &mut String, n: u32)
    ensures
        final(text)@ == old(text)@ + decimal(n as nat),
    decreases n,
{
    if n >= 10 {
        push_decimal(text, n / 10);
    }
    text.append(digit_text(n % 10));
    assert(text@ =~= old(text)@ + decimal(n as nat));
}

/// Writes the set of the given UIDs as a fetch command takes it.
pub fn uid_set(uids: &[u32]) -> (text: String)
    ensures
        text@ == uid_set_text(uids@),
{
    let mut text = String::new();
    let mut i: usize = 0;
    while i < uids.len()
        invariant
            i <= uids@.len(),
            text@ == uid_set_text(uids@.take(i as int)),
        decreases uids@.len() - i,
    {
        proof {
            reveal_strlit(",");
            assert(uids@.take(i + 1).drop_last() =~= uids@.take(i as int));
        }
        if i > 0 {
            text.append(",");
        }
        push_decimal(&mut text, uids[i]);
        assert(text@ =~= uid_set_text(uids@.take(i + 1)));
        i = i + 1;
    }
    assert(uids@.take(i as int) =~= uids@);
    text
}

} // verus!
