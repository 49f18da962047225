//! The commands sent to the instrument, as bytes.

use vstd::prelude::*;

verus! {

/// The decimal digits of `n` in ASCII, without leading zeros.
pub open spec fn spec_decimal(n: nat) -> Seq<u8>
    decreases n,
{
    if n < 10 {
        seq![(48 + n) as u8]
    } else {
        spec_decimal(n / 10).push((48 + n % 10) as u8)
    }
}

/// The setup command `TRIG 4`, which arms the instrument before any query.
pub open spec fn spec_trigger_command() -> Seq<u8> {
    seq![84u8, 82u8, 73u8, 71u8, 32u8, 52u8]
}

/// The query `PEEK `, followed by the address in decimal.
pub open spec fn spec_peek_command(address: u16) -> Seq<u8> {
    seq![80u8, 69u8, 69u8, 75u8, 32u8] + spec_decimal(address as nat)
}

/// Appends the decimal digits of `n` to `out`.
pub fn push_decimal(n: u16, out: &mut Vec<u8>)
    ensures
        final(out)@ == old(out)@ + spec_decimal(n as nat),
    decreases n,
{
    if n >= 10 {
        push_decimal(n / 10, out);
    }
    let digit: u8 = (n % 10) as u8;
    out.push(48 + digit);
    proof {
        assert(final(out)@ =~= old(out)@ + spec_decimal(n as nat));
    }
}

/// The setup command that arms the instrument.
pub fn trigger_command() -> (v: Vec<u8>)
    ensures
        v@ == spec_trigger_command(),
{
    let mut v: Vec<u8> = Vec::new();
    v.push(84);
    v.push(82);
    v.push(73);
    v.push(71);
    v.push(32);
    v.push(52);
    assert(v@ =~= spec_trigger_command());
    v
}

/// The query that asks for the word at `address`.
pub fn peek_command(address: u16) -> (v: Vec<u8>)
    ensures
        v@ == spec_peek_command(address),
{
    let mut v: Vec<u8> = Vec::new();
    v.push(80);
    v.push(69);
    v.push(69);
    v.push(75);
    v.push(32);
    assert(v@ =~= seq![80u8, 69u8, 69u8, 75u8, 32u8]);
    push_decimal(address, &mut v);
    v
}

/// The number that a sequence of ASCII digits reads as.
pub open spec fn spec_decimal_value(digits: Seq<u8>) -> nat
    decreases digits.len(),
{
    if digits.len() == 0 {
        0
    } else {
        10 * spec_decimal_value(digits.drop_last()) + (digits.last() - 48) as nat
    }
}

/// The decimal digits of `n` are ASCII digits that read back as `n`, and
/// they start with a zero only where `n` is zero.
pub proof fn lemma_decimal_reads_back(n: nat)
    ensures
        spec_decimal(n).len() >= 1,
        forall|i: int| 0 <= i < spec_decimal(n).len() ==> 48 <= #[trigger] spec_decimal(n)[i] <= 57,
        spec_decimal_value(spec_decimal(n)) == n,
        n > 0 ==> spec_decimal(n)[0] != 48,
    decreases n,
{
    let digits = spec_decimal(n);
    if n < 10 {
        assert(digits.drop_last() =~= Seq::<u8>::empty());
        assert(spec_decimal_value(digits.drop_last()) == 0);
    } else {
        lemma_decimal_reads_back(n / 10);
        assert(digits.drop_last() =~= spec_decimal(n / 10));
        assert(digits[0] == spec_decimal(n / 10)[0]);
    }
}

} // verus!
