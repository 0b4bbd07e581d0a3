//! Decimal rendering of signed integers, used by the error messages.
//!
//! `dec_int` is the mathematical statement of what the rendering returns; the
//! executable `i64_to_string` is proved to produce exactly that sequence of
//! characters, and `lemma_dec_int_injective` shows the rendering loses no
//! information (distinct integers render to distinct strings).

use vstd::prelude::*;

verus! {

use vstd::math::abs;
use vstd::string::StringExecFns;

/// The character for a single decimal digit.
pub open spec fn digit_char(d: int) -> char
    recommends
        0 <= d < 10,
{
    if d == 0 {
        '0'
    } else if d == 1 {
        '1'
    } else if d == 2 {
        '2'
    } else if d == 3 {
        '3'
    } else if d == 4 {
        '4'
    } else if d == 5 {
        '5'
    } else if d == 6 {
        '6'
    } else if d == 7 {
        '7'
    } else if d == 8 {
        '8'
    } else {
        '9'
    }
}

/// Numeric value of a decimal digit character; characters outside '0'..'9'
/// map to an out-of-band value.
pub open spec fn digit_val(c: char) -> int {
    if c == '0' {
        0
    } else if c == '1' {
        1
    } else if c == '2' {
        2
    } else if c == '3' {
        3
    } else if c == '4' {
        4
    } else if c == '5' {
        5
    } else if c == '6' {
        6
    } else if c == '7' {
        7
    } else if c == '8' {
        8
    } else if c == '9' {
        9
    } else {
        -1
    }
}

pub open spec fn is_digit(c: char) -> bool {
    0 <= digit_val(c) < 10
}

/// Decimal digits of a natural number, most significant first, no sign and no
/// leading zero (except for the number 0 itself).
pub open spec fn dec_nat(n: nat) -> Seq<char>
    decreases n,
{
    if n < 10 {
        seq![digit_char(n as int)]
    } else {
        dec_nat(n / 10) + seq![digit_char((n % 10) as int)]
    }
}

/// Decimal rendering of a signed integer: a leading '-' for negatives, then
/// the digits of the magnitude.
pub open spec fn dec_int(v: int) -> Seq<char> {
    if v < 0 {
        seq!['-'] + dec_nat((-v) as nat)
    } else {
        dec_nat(v as nat)
    }
}

/// Value of a digit sequence read as a base-10 numeral.
pub open spec fn seq_val(s: Seq<char>) -> int
    decreases s.len(),
{
    if s.len() == 0 {
        0
    } else {
        seq_val(s.drop_last()) * 10 + digit_val(s.last())
    }
}

/// The digits of `n` are non-empty, all decimal digits, and read back as `n`.
pub proof fn lemma_dec_nat_val(n: nat)
    ensures
        dec_nat(n).len() >= 1,
        forall|i: int| 0 <= i < dec_nat(n).len() ==> is_digit(#[trigger] dec_nat(n)[i]),
        seq_val(dec_nat(n)) == n,
    decreases n,
{
    if n < 10 {
        let s = dec_nat(n);
        assert(s =~= seq![digit_char(n as int)]);
        assert(s.last() == digit_char(n as int));
        assert(s.drop_last() =~= Seq::<char>::empty());
        assert(seq_val(Seq::<char>::empty()) == 0);
        assert(seq_val(s) == seq_val(s.drop_last()) * 10 + digit_val(s.last()));
        assert(seq_val(s) == digit_val(digit_char(n as int)));
    } else {
        lemma_dec_nat_val(n / 10);
        let prefix = dec_nat(n / 10);
        let whole = dec_nat(n);
        assert(whole =~= prefix + seq![digit_char((n % 10) as int)]);
        assert(whole.drop_last() =~= prefix);
        assert(whole.last() == digit_char((n % 10) as int));
        assert(seq_val(whole) == seq_val(prefix) * 10 + digit_val(digit_char((n % 10) as int)));
        assert(n / 10 * 10 + n % 10 == n) by {
            vstd::arithmetic::div_mod::lemma_fundamental_div_mod(n as int, 10);
        }
        assert(forall|i: int| 0 <= i < whole.len() ==> is_digit(#[trigger] whole[i])) by {
            assert(forall|i: int| 0 <= i < prefix.len() ==> is_digit(#[trigger] prefix[i]));
            assert(whole.last() == digit_char((n % 10) as int));
        }
    }
}

/// Distinct natural numbers have distinct digit strings.
pub proof fn lemma_dec_nat_injective(a: nat, b: nat)
    ensures
        dec_nat(a) == dec_nat(b) ==> a == b,
{
    if dec_nat(a) == dec_nat(b) {
        lemma_dec_nat_val(a);
        lemma_dec_nat_val(b);
    }
}

/// Distinct integers render to distinct decimal strings.
pub proof fn lemma_dec_int_injective(a: int, b: int)
    ensures
        dec_int(a) == dec_int(b) ==> a == b,
{
    lemma_dec_nat_val(abs(a));
    lemma_dec_nat_val(abs(b));
    if dec_int(a) == dec_int(b) {
        if a < 0 && b < 0 {
            let da = dec_nat((-a) as nat);
            let db = dec_nat((-b) as nat);
            assert(dec_int(a) == seq!['-'] + da);
            assert(dec_int(b) == seq!['-'] + db);
            assert(da =~= (seq!['-'] + da).subrange(1, (seq!['-'] + da).len() as int));
            assert(db =~= (seq!['-'] + db).subrange(1, (seq!['-'] + db).len() as int));
            lemma_dec_nat_injective((-a) as nat, (-b) as nat);
        } else if a < 0 && b >= 0 {
            assert(dec_int(a)[0] == '-');
            assert(is_digit(dec_int(b)[0]));
            assert(false);
        } else if a >= 0 && b < 0 {
            assert(is_digit(dec_int(a)[0]));
            assert(dec_int(b)[0] == '-');
            assert(false);
        } else {
            lemma_dec_nat_injective(a as nat, b as nat);
        }
    }
}

/// One-character string for a decimal digit.
fn digit_str(d: u64) -> (r: &'static str)
    requires
        d < 10,
    ensures
        r@ == seq![digit_char(d as int)],
{
    let r: &'static str = if d == 0 {
        "0"
    } else if d == 1 {
        "1"
    } else if d == 2 {
        "2"
    } else if d == 3 {
        "3"
    } else if d == 4 {
        "4"
    } else if d == 5 {
        "5"
    } else if d == 6 {
        "6"
    } else if d == 7 {
        "7"
    } else if d == 8 {
        "8"
    } else {
        "9"
    };
    proof {
        reveal_strlit("0");
        reveal_strlit("1");
        reveal_strlit("2");
        reveal_strlit("3");
        reveal_strlit("4");
        reveal_strlit("5");
        reveal_strlit("6");
        reveal_strlit("7");
        reveal_strlit("8");
        reveal_strlit("9");
        assert(r@ =~= seq![digit_char(d as int)]);
    }
    r
}

/// Appends the decimal digits of `n` to `out`.
fn push_dec_nat(n: u64, out: &mut String)
    ensures
        final(out)@ == old(out)@ + dec_nat(n as nat),
    decreases n,
{
    if n < 10 {
        out.append(digit_str(n));
    } else {
        proof {
            assert(n / 10 < n) by (nonlinear_arith)
                requires
                    n >= 10,
            ;
        }
        let ghost before = out@;
        push_dec_nat(n / 10, out);
        out.append(digit_str(n % 10));
        proof {
            assert(out@ =~= before + dec_nat(n as nat));
        }
    }
}

/// Renders `v` in decimal, exactly as `dec_int` states.
pub fn i64_to_string(v: i64) -> (r: String)
    ensures
        r@ == dec_int(v as int),
{
    let mut out = String::new();
    if v < 0 {
        out.append("-");
        proof {
            reveal_strlit("-");
            assert(out@ =~= seq!['-']);
        }
        let wide: i128 = -(v as i128);
        let mag: u64 = wide as u64;
        push_dec_nat(mag, &mut out);
        proof {
            assert(out@ =~= seq!['-'] + dec_nat(mag as nat));
        }
    } else {
        push_dec_nat(v as u64, &mut out);
    }
    out
}

} // verus!
