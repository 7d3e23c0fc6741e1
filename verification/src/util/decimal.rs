use vstd::prelude::*;
use vstd::string::StringExecFns;

verus! {

/// The character of a decimal digit.
pub open spec fn digit_char(digit: nat) -> char {
    if digit == 0 {
        '0'
    } else if digit == 1 {
        '1'
    } else if digit == 2 {
        '2'
    } else if digit == 3 {
        '3'
    } else if digit == 4 {
        '4'
    } else if digit == 5 {
        '5'
    } else if digit == 6 {
        '6'
    } else if digit == 7 {
        '7'
    } else if digit == 8 {
        '8'
    } else {
        '9'
    }
}

/// A number written in decimal, without leading zeros.
pub open spec fn decimal(number: nat) -> Seq<char>
    decreases number,
{
    if number < 10 {
        seq![digit_char(number)]
    } else {
        decimal(number / 10).push(digit_char(number % 10))
    }
}

/// The digits of `low` behind those of `high`, `low` written last digit
/// first.
pub open spec fn digits_behind(high: Seq<char>, low: Seq<u64>) -> Seq<char> {
    high + Seq::new(low.len(), |i: int| digit_char(low[low.len() - 1 - i] as nat))
}

/// The text of a decimal digit.
fn digit_text(digit: u64) -> (text: &'static str)
    requires
        digit < 10,
    ensures
        text@ == seq![digit_char(digit as nat)],
{
    proof {
        reveal_strlit("0");
        reveal_strlit("1");
        reveal_strlit("2");
        reveal_strlit("3");
        reveal_strlit("4");
        reveal_strlit("5");
        reveal_strlit("6");
        reveal_strlit("7");
        reveal_strlit("8");
        reveal_strlit("9");
    }
    let text: &'static str = if digit == 0 {
        "0"
    } else if digit == 1 {
        "1"
    } else if digit == 2 {
        "2"
    } else if digit == 3 {
        "3"
    } else if digit == 4 {
        "4"
    } else if digit == 5 {
        "5"
    } else if digit == 6 {
        "6"
    } else if digit == 7 {
        "7"
    } else if digit == 8 {
        "8"
    } else {
        "9"
    };
    assert(text@ =~= seq![digit_char(digit as nat)]);
    text
}

/// The number written in decimal, without leading zeros.
pub fn decimal_text(number: u64) -> (text: String)
    ensures
        text@ == decimal(number as nat),
{
    let mut digits: Vec<u64> = Vec::new();
    let mut rest: u64 = number;
    while rest >= 10
        invariant
            decimal(number as nat) == digits_behind(decimal(rest as nat), digits@),
            forall|i: int| 0 <= i < digits@.len() ==> digits@[i] < 10,
        decreases rest,
    {
        let ghost before: Seq<u64> = digits@;
        digits.push(rest % 10);
        proof {
            assert(digits_behind(decimal(rest as nat), before) =~= digits_behind(
                decimal((rest / 10) as nat),
                digits@,
            ));
        }
        rest = rest / 10;
    }
    digits.push(rest);
    assert(decimal(number as nat) =~= digits_behind(Seq::<char>::empty(), digits@));

    let mut text: String = String::new();
    let mut left: usize = digits.len();
    assert(text@ =~= digits_behind(Seq::<char>::empty(), digits@).take(0));
    while left > 0
        invariant
            left <= digits@.len(),
            forall|i: int| 0 <= i < digits@.len() ==> digits@[i] < 10,
            text@ == digits_behind(Seq::<char>::empty(), digits@).take(digits@.len() - left),
        decreases left,
    {
        left -= 1;
        text.append(digit_text(digits[left]));
        assert(text@ =~= digits_behind(Seq::<char>::empty(), digits@).take(
            digits@.len() - left,
        ));
    }
    assert(digits_behind(Seq::<char>::empty(), digits@).take(digits@.len() as int)
        =~= digits_behind(Seq::<char>::empty(), digits@));
    text
}

} // verus!
