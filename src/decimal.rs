//! Decimal text of process ids and OOM score adjustments.
use vstd::prelude::*;

verus! {

/// ASCII digits of a natural number, most significant first, no leading zeros.
pub open spec fn digits_of(n: nat) -> Seq<u8>
    decreases n,
{
    if n < 10 {
        seq![(n + 48) as u8]
    } else {
        digits_of(n / 10).push((n % 10 + 48) as u8)
    }
}

/// Decimal text of an integer: a leading `-` for negative values.
pub open spec fn decimal_of(n: int) -> Seq<u8> {
    if n < 0 {
        seq![45u8] + digits_of((-n) as nat)
    } else {
        digits_of(n as nat)
    }
}

/// The number that a string of ASCII digits denotes.
pub open spec fn digits_value(s: Seq<u8>) -> int
    decreases s.len(),
{
    if s.len() == 0 {
        0
    } else {
        digits_value(s.drop_last()) * 10 + (s.last() - 48)
    }
}

/// The number that a decimal text denotes, as a reader of a pid file takes it.
pub open spec fn decimal_value(s: Seq<u8>) -> int {
    if s.len() > 0 && s[0] == 45u8 {
        -digits_value(s.drop_first())
    } else {
        digits_value(s)
    }
}

proof fn lemma_digits_round_trip(n: nat)
    ensures
        digits_value(digits_of(n)) == n,
        digits_of(n).len() >= 1,
        48 <= digits_of(n)[0] <= 57,
    decreases n,
{
    if n >= 10 {
        lemma_digits_round_trip(n / 10);
        let d = digits_of(n / 10);
        let s = d.push((n % 10 + 48) as u8);
        assert(s.drop_last() =~= d);
        assert(((n % 10 + 48) as u8) as int == n % 10 + 48);
        assert(s.last() - 48 == n % 10);
        assert(digits_of(n) == s);
        assert(digits_value(s) == digits_value(d) * 10 + (s.last() - 48));
        assert((n / 10) * 10 + n % 10 == n) by (nonlinear_arith);
    } else {
        let s = seq![(n + 48) as u8];
        assert(s.drop_last() =~= Seq::<u8>::empty());
        assert(s.last() - 48 == n);
        assert(digits_of(n) == s);
        assert(digits_value(s) == digits_value(s.drop_last()) * 10 + (s.last() - 48));
    }
}

/// Reading back the decimal text of an integer gives that integer.
pub proof fn lemma_decimal_round_trip(n: int)
    ensures
        decimal_value(decimal_of(n)) == n,
{
    if n < 0 {
        lemma_digits_round_trip((-n) as nat);
        assert((seq![45u8] + digits_of((-n) as nat)).drop_first() =~= digits_of((-n) as nat));
    } else {
        lemma_digits_round_trip(n as nat);
    }
}

fn push_digits(n: u32, out: &mut Vec<u8>)
    ensures
        final(out)@ == old(out)@ + digits_of(n as nat),
    decreases n,
{
    if n >= 10 {
        push_digits(n / 10, out);
    }
    let d: u8 = (n % 10) as u8 + 48;
    out.push(d);
    proof {
        if n >= 10 {
            assert(old(out)@ + digits_of(n as nat) =~= old(out)@ + digits_of((n / 10) as nat) + seq![d]);
        } else {
            assert(old(out)@ + digits_of(n as nat) =~= old(out)@ + seq![d]);
        }
    }
}

/// Decimal text of `n`, as written to a pid file or to the OOM score tunable.
pub fn decimal_text(n: i32) -> (r: Vec<u8>)
    ensures
        r@ == decimal_of(n as int),
{
    let mut out: Vec<u8> = Vec::new();
    if n < 0 {
        out.push(45u8);
        let m: u32 = (-(n as i64)) as u32;
        push_digits(m, &mut out);
        assert(out@ =~= seq![45u8] + digits_of((-n) as nat));
    } else {
        push_digits(n as u32, &mut out);
        assert(out@ =~= digits_of(n as nat));
    }
    out
}

} // verus!
