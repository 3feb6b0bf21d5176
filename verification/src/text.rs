//! Decimal text of small numbers.
use vstd::prelude::*;
use vstd::string::*;

verus! {

/// The character that stands for a number below ten.
pub open spec fn digit_char(d: nat) -> char {
    ('0' as int + d) as char
}

/// The decimal digits of `n`, most significant first, without leading zeros.
pub open spec fn decimal_text(n: nat) -> Seq<char>
    decreases n,
{
    if n < 10 {
        seq![digit_char(n)]
    } else {
        decimal_text(n / 10).push(digit_char(n % 10))
    }
}

fn digit(d: u16) -> (text: &'static str)
    requires
        d < 10,
    ensures
        text@ == seq![digit_char(d as nat)],
{
    proof {
        reveal_strlit("0");
        reveal_strlit("1");
        reveal_strlit("2");
        reveal_strlit("3");
        reveal_strlit("4");
        reveal_strlit("5");
        reveal_strlit("6");
        reveal_strlit("7");
        reveal_strlit("8");
        reveal_strlit("9");
    }
    let text: &'static str = match d {
        0 => "0",
        1 => "1",
        2 => "2",
        3 => "3",
        4 => "4",
        5 => "5",
        6 => "6",
        7 => "7",
        8 => "8",
        _ => "9",
    };
    assert(text@ =~= seq![digit_char(d as nat)]);
    text
}

/// Writes `n` in decimal.
pub fn decimal(n: u16) -> (text: String)
    ensures
        text@ == decimal_text(n as nat),
    decreases n,
{
    if n < 10 {
        digit(n).to_owned()
    } else {
        let text = decimal(n / 10).concat(digit(n % 10));
        assert(text@ =~= decimal_text(n as nat));
        text
    }
}

/// The number that a sequence of decimal digits stands for.
pub open spec fn number(text: Seq<char>) -> int
    decreases text.len(),
{
    if text.len() == 0 {
        0
    } else {
        10 * number(text.drop_last()) + (text.last() as int - '0' as int)
    }
}

/// The decimal text of a number consists of digits, stands for that number, and does not start with
/// a zero unless it is one.
pub proof fn law_decimal(n: nat)
    ensures
        number(decimal_text(n)) == n,
        decimal_text(n).len() > 0,
        forall|i: int|
            0 <= i < decimal_text(n).len() ==> '0' <= #[trigger] decimal_text(n)[i] <= '9',
        n > 0 ==> decimal_text(n)[0] != '0',
    decreases n,
{
    if n < 10 {
        assert(decimal_text(n) =~= seq![digit_char(n)]);
        assert(seq![digit_char(n)].drop_last() =~= Seq::<char>::empty());
        assert(number(seq![digit_char(n)].drop_last()) == 0);
        assert(number(decimal_text(n)) == n);
    } else {
        law_decimal(n / 10);
        assert(decimal_text(n).drop_last() =~= decimal_text(n / 10));
    }
}

/// Writing a number gives its decimal text.
pub proof fn law_decimal_written(n: u16, text: String)
    requires
        call_ensures(decimal, (n,), text),
    ensures
        number(text@) == n,
        text@.len() > 0,
        forall|i: int| 0 <= i < text@.len() ==> '0' <= #[trigger] text@[i] <= '9',
        n > 0 ==> text@[0] != '0',
{
    law_decimal(n as nat);
}

} // verus!
