//! Decimal rendering of integers as character sequences, with the
//! zero-padded fixed-width forms that timestamps use.

use vstd::prelude::*;

verus! {

/// The decimal digit character for a value below ten.
pub open spec fn spec_digit_char(d: nat) -> char {
    if d == 0 {
        '0'
    } else if d == 1 {
        '1'
    } else if d == 2 {
        '2'
    } else if d == 3 {
        '3'
    } else if d == 4 {
        '4'
    } else if d == 5 {
        '5'
    } else if d == 6 {
        '6'
    } else if d == 7 {
        '7'
    } else if d == 8 {
        '8'
    } else {
        '9'
    }
}

/// The decimal digit string of a non-negative integer, most significant
/// digit first, with no leading zeros (a single `'0'` for zero).
pub open spec fn spec_dec(n: nat) -> Seq<char>
    decreases n,
{
    if n < 10 {
        seq![spec_digit_char(n)]
    } else {
        spec_dec(n / 10).push(spec_digit_char(n % 10))
    }
}

/// The decimal string of a signed integer: a leading `'-'` before the
/// digits when the value is negative.
pub open spec fn spec_dec_signed(n: int) -> Seq<char> {
    if n < 0 {
        seq!['-'] + spec_dec((-n) as nat)
    } else {
        spec_dec(n as nat)
    }
}

/// A value zero-padded on the left to at least two digits.
pub open spec fn spec_pad2(n: nat) -> Seq<char> {
    if n < 10 {
        seq!['0'] + spec_dec(n)
    } else {
        spec_dec(n)
    }
}

/// A value zero-padded on the left to at least four digits.
pub open spec fn spec_pad4(n: nat) -> Seq<char> {
    if n < 10 {
        seq!['0', '0', '0'] + spec_dec(n)
    } else if n < 100 {
        seq!['0', '0'] + spec_dec(n)
    } else if n < 1000 {
        seq!['0'] + spec_dec(n)
    } else {
        spec_dec(n)
    }
}

/// The decimal form of a value below ten thousand has as many digits as
/// its magnitude calls for.
pub proof fn lemma_dec_len_upto4(n: nat)
    requires
        n < 10000,
    ensures
        spec_dec(n).len() == if n < 10 {
            1int
        } else if n < 100 {
            2int
        } else if n < 1000 {
            3int
        } else {
            4int
        },
    decreases n,
{
    if n >= 10 {
        lemma_dec_len_upto4(n / 10);
    }
}

/// Two-digit padding renders values below one hundred at width two.
pub proof fn lemma_pad2_len(n: nat)
    requires
        n < 100,
    ensures
        spec_pad2(n).len() == 2,
{
    lemma_dec_len_upto4(n);
}

/// Four-digit padding renders values below ten thousand at width four.
pub proof fn lemma_pad4_len(n: nat)
    requires
        n < 10000,
    ensures
        spec_pad4(n).len() == 4,
{
    lemma_dec_len_upto4(n);
}

/// The digit character of a value below ten.
pub fn digit_char(d: u64) -> (c: char)
    requires
        d < 10,
    ensures
        c == spec_digit_char(d as nat),
{
    if d == 0 {
        '0'
    } else if d == 1 {
        '1'
    } else if d == 2 {
        '2'
    } else if d == 3 {
        '3'
    } else if d == 4 {
        '4'
    } else if d == 5 {
        '5'
    } else if d == 6 {
        '6'
    } else if d == 7 {
        '7'
    } else if d == 8 {
        '8'
    } else {
        '9'
    }
}

/// The decimal digits of `n`, most significant first.
pub fn u64_dec_chars(n: u64) -> (r: Vec<char>)
    ensures
        r@ == spec_dec(n as nat),
    decreases n,
{
    if n < 10 {
        let mut v: Vec<char> = Vec::new();
        v.push(digit_char(n));
        proof {
            assert(v@ =~= spec_dec(n as nat));
        }
        v
    } else {
        let mut v = u64_dec_chars(n / 10);
        v.push(digit_char(n % 10));
        proof {
            assert(v@ =~= spec_dec(n as nat));
        }
        v
    }
}

/// The decimal digits of a signed value, with a `'-'` sign when negative.
pub fn i64_dec_chars(n: i64) -> (r: Vec<char>)
    ensures
        r@ == spec_dec_signed(n as int),
{
    if n >= 0 {
        u64_dec_chars(n as u64)
    } else {
        let m: u64 = if n == i64::MIN {
            9223372036854775808u64
        } else {
            (-n) as u64
        };
        assert(m as nat == (-(n as int)) as nat);
        let mut v: Vec<char> = Vec::new();
        v.push('-');
        let mut d = u64_dec_chars(m);
        v.append(&mut d);
        proof {
            assert(v@ =~= spec_dec_signed(n as int));
        }
        v
    }
}

/// `n` zero-padded on the left to at least two digits.
pub fn pad2_chars(n: u64) -> (r: Vec<char>)
    ensures
        r@ == spec_pad2(n as nat),
{
    if n < 10 {
        let mut v: Vec<char> = Vec::new();
        v.push('0');
        let mut d = u64_dec_chars(n);
        v.append(&mut d);
        proof {
            assert(v@ =~= spec_pad2(n as nat));
        }
        v
    } else {
        u64_dec_chars(n)
    }
}

/// `n` zero-padded on the left to at least four digits.
pub fn pad4_chars(n: u64) -> (r: Vec<char>)
    ensures
        r@ == spec_pad4(n as nat),
{
    if n >= 1000 {
        u64_dec_chars(n)
    } else {
        let mut v: Vec<char> = Vec::new();
        if n < 10 {
            v.push('0');
            v.push('0');
            v.push('0');
        } else if n < 100 {
            v.push('0');
            v.push('0');
        } else {
            v.push('0');
        }
        let mut d = u64_dec_chars(n);
        v.append(&mut d);
        proof {
            assert(v@ =~= spec_pad4(n as nat));
        }
        v
    }
}

} // verus!
