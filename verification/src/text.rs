//! Decimal text for error messages.
use vstd::prelude::*;
use vstd::string::StringExecFns;

verus! {

/// The decimal digit of a number below ten.
pub open spec fn digit(d: nat) -> char {
    (48 + d) as char
}

/// A natural number in decimal, without leading zeros.
pub open spec fn decimal_nat(n: nat) -> Seq<char>
    decreases n,
{
    if n < 10 {
        seq![digit(n)]
    } else {
        decimal_nat(n / 10).push(digit(n % 10))
    }
}

/// An integer in decimal, with a leading minus sign where it is negative.
pub open spec fn decimal(i: int) -> Seq<char> {
    if i < 0 {
        seq!['-'] + decimal_nat((-i) as nat)
    } else {
        decimal_nat(i as nat)
    }
}

fn digit_text(d: u64) -> (text: &'static str)
    requires
        d < 10,
    ensures
        text@ == seq![digit(d as nat)],
{
    proof {
        reveal_strlit("0");
        reveal_strlit("1");
        reveal_strlit("2");
        reveal_strlit("3");
        reveal_strlit("4");
        reveal_strlit("5");
        reveal_strlit("6");
        reveal_strlit("7");
        reveal_strlit("8");
        reveal_strlit("9");
    }
    match d {
        0 => "0",
        1 => "1",
        2 => "2",
        3 => "3",
        4 => "4",
        5 => "5",
        6 => "6",
        7 => "7",
        8 => "8",
        _ => "9",
    }
}

fn nat_text(n: u64) -> (text: String)
    ensures
        text@ == decimal_nat(n as nat),
    decreases n,
{
    if n < 10 {
        let mut text = String::new();
        text.append(digit_text(n));
        assert(text@ =~= decimal_nat(n as nat));
        text
    } else {
        let mut text = nat_text(n / 10);
        text.append(digit_text(n % 10));
        assert(text@ =~= decimal_nat(n as nat));
        text
    }
}

/// Writes an integer in decimal.
pub fn int_text(i: i64) -> (text: String)
    ensures
        text@ == decimal(i as int),
{
    if i < 0 {
        proof {
            reveal_strlit("-");
        }
        let mut text = String::new();
        text.append("-");
        let magnitude: u64 = (-(i as i128)) as u64;
        let digits = nat_text(magnitude);
        text.append(digits.as_str());
        assert(text@ =~= decimal(i as int));
        text
    } else {
        nat_text(i as u64)
    }
}

/// The number that decimal digits stand for.
pub open spec fn read_decimal(text: Seq<char>) -> int
    decreases text.len(),
{
    if text.len() == 0 {
        0
    } else {
        10 * read_decimal(text.drop_last()) + (text.last() as int - '0' as int)
    }
}

/// Decimal text consists of digits, reads back as its number, and does not start
/// with a zero unless it is the zero.
pub proof fn decimal_reads_back(n: nat)
    ensures
        decimal_nat(n).len() > 0,
        forall|i: int|
            0 <= i < decimal_nat(n).len() ==> '0' as int <= #[trigger] decimal_nat(n)[i] as int
                <= '9' as int,
        read_decimal(decimal_nat(n)) == n,
        n > 0 ==> decimal_nat(n)[0] != '0',
        n == 0 ==> decimal_nat(n) == seq!['0'],
    decreases n,
{
    let text = decimal_nat(n);
    assert(digit(n % 10) as int == '0' as int + n % 10);
    if n < 10 {
        assert(text.drop_last() =~= Seq::empty());
        assert(text.last() == digit(n));
        assert(read_decimal(text.drop_last()) == 0);
        if n == 0 {
            assert(text =~= seq!['0']);
        }
    } else {
        decimal_reads_back(n / 10);
        assert(text.drop_last() =~= decimal_nat(n / 10));
        assert(text[0] == decimal_nat(n / 10)[0]);
    }
}

/// A negative integer is a minus sign and its magnitude.
pub proof fn negative_text_has_a_sign(i: int)
    ensures
        i >= 0 ==> read_decimal(decimal(i)) == i && decimal(i)[0] != '-',
        i < 0 ==> decimal(i)[0] == '-' && read_decimal(decimal(i).skip(1)) == -i,
{
    if i >= 0 {
        decimal_reads_back(i as nat);
        assert('0' as int <= decimal_nat(i as nat)[0] as int);
    } else {
        decimal_reads_back((-i) as nat);
        assert(decimal(i).skip(1) =~= decimal_nat((-i) as nat));
    }
}

} // verus!
