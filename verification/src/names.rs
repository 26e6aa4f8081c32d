use vstd::prelude::*;
use vstd::string::StringExecFns;

use rand_core::OsRng;
use rand_core::RngCore;

verus! {

/// The character of one decimal digit.
pub open spec fn digit_char(d: int) -> char {
    if d == 0 {
        '0'
    } else if d == 1 {
        '1'
    } else if d == 2 {
        '2'
    } else if d == 3 {
        '3'
    } else if d == 4 {
        '4'
    } else if d == 5 {
        '5'
    } else if d == 6 {
        '6'
    } else if d == 7 {
        '7'
    } else if d == 8 {
        '8'
    } else {
        '9'
    }
}

/// The decimal numeral of a nonnegative integer, most significant digit
/// first, without leading zeros (the numeral of zero is "0").
pub open spec fn decimal_chars(n: int) -> Seq<char>
    decreases n,
{
    if n < 10 {
        seq![digit_char(n)]
    } else {
        decimal_chars(n / 10).push(digit_char(n % 10))
    }
}

/// The numeral read off a digit stack, least significant digit first.
pub open spec fn stacked_digit_chars(digits: Seq<u64>) -> Seq<char> {
    digits.map_values(|d: u64| digit_char(d as int)).reverse()
}

fn digit_str(d: u64) -> (r: &'static str)
    requires
        d < 10,
    ensures
        r@ == seq![digit_char(d as int)],
{
    let r: &'static str = if d == 0 {
        "0"
    } else if d == 1 {
        "1"
    } else if d == 2 {
        "2"
    } else if d == 3 {
        "3"
    } else if d == 4 {
        "4"
    } else if d == 5 {
        "5"
    } else if d == 6 {
        "6"
    } else if d == 7 {
        "7"
    } else if d == 8 {
        "8"
    } else {
        "9"
    };
    proof {
        reveal_strlit("0");
        reveal_strlit("1");
        reveal_strlit("2");
        reveal_strlit("3");
        reveal_strlit("4");
        reveal_strlit("5");
        reveal_strlit("6");
        reveal_strlit("7");
        reveal_strlit("8");
        reveal_strlit("9");
        assert(r@ =~= seq![digit_char(d as int)]);
    }
    r
}

/// Render a 64-bit value as its decimal numeral.
pub fn decimal_string(n: u64) -> (r: String)
    ensures
        r@ == decimal_chars(n as int),
{
    let mut digits: Vec<u64> = Vec::new();
    let mut m: u64 = n;
    proof {
        assert(stacked_digit_chars(digits@) =~= Seq::<char>::empty());
        assert(decimal_chars(n as int) =~= decimal_chars(m as int) + stacked_digit_chars(
            digits@,
        ));
    }
    while m >= 10
        invariant
            decimal_chars(n as int) == decimal_chars(m as int) + stacked_digit_chars(digits@),
            forall|j: int| 0 <= j < digits@.len() ==> digits@[j] < 10,
        decreases m,
    {
        let d = m % 10;
        proof {
            let ghost before = digits@;
            assert(stacked_digit_chars(before.push(d)) =~= seq![digit_char(d as int)]
                + stacked_digit_chars(before));
            assert(decimal_chars(m as int) == decimal_chars((m / 10) as int).push(
                digit_char(d as int),
            ));
            assert(decimal_chars((m / 10) as int) + stacked_digit_chars(before.push(d))
                =~= decimal_chars(m as int) + stacked_digit_chars(before));
        }
        digits.push(d);
        m = m / 10;
    }
    proof {
        let ghost before = digits@;
        assert(decimal_chars(m as int) == seq![digit_char(m as int)]);
        assert(stacked_digit_chars(before.push(m)) =~= seq![digit_char(m as int)]
            + stacked_digit_chars(before));
        assert(stacked_digit_chars(before.push(m)) =~= decimal_chars(n as int));
    }
    digits.push(m);
    let ghost numeral = stacked_digit_chars(digits@);
    let mut r = String::new();
    let mut i: usize = digits.len();
    proof {
        assert(r@ =~= numeral.take(digits@.len() - i));
    }
    while i > 0
        invariant
            i <= digits@.len(),
            numeral == stacked_digit_chars(digits@),
            numeral == decimal_chars(n as int),
            forall|j: int| 0 <= j < digits@.len() ==> digits@[j] < 10,
            r@ == numeral.take(digits@.len() - i),
        decreases i,
    {
        i = i - 1;
        let ds = digit_str(digits[i]);
        r.append(ds);
        proof {
            let len = digits@.len() as int;
            assert(numeral[len - 1 - i] == digit_char(digits@[i as int] as int));
            assert(r@ =~= numeral.take(len - i));
        }
    }
    proof {
        assert(numeral.take(digits@.len() as int) =~= numeral);
    }
    r
}

pub proof fn lemma_decimal_chars_len(n: int)
    ensures
        decimal_chars(n).len() >= 1,
        n >= 10 ==> decimal_chars(n).len() >= 2,
    decreases n,
{
    if n >= 10 {
        lemma_decimal_chars_len(n / 10);
    }
}

/// Distinct nonnegative values have distinct decimal numerals.
pub proof fn lemma_decimal_chars_injective(a: int, b: int)
    requires
        0 <= a,
        0 <= b,
        decimal_chars(a) == decimal_chars(b),
    ensures
        a == b,
    decreases a,
{
    lemma_decimal_chars_len(a);
    lemma_decimal_chars_len(b);
    if a < 10 && b < 10 {
        assert(decimal_chars(a)[0] == digit_char(a));
        assert(decimal_chars(b)[0] == digit_char(b));
        assert(a == b);
    } else if a >= 10 && b >= 10 {
        let last_a = decimal_chars(a).last();
        assert(last_a == digit_char(a % 10));
        assert(decimal_chars(b).last() == digit_char(b % 10));
        assert(a % 10 == b % 10);
        assert(decimal_chars(a).drop_last() =~= decimal_chars(a / 10));
        assert(decimal_chars(b).drop_last() =~= decimal_chars(b / 10));
        lemma_decimal_chars_injective(a / 10, b / 10);
        vstd::arithmetic::div_mod::lemma_fundamental_div_mod(a, 10);
        vstd::arithmetic::div_mod::lemma_fundamental_div_mod(b, 10);
    } else {
        assert(false);
    }
}

/// The provable heart of collision-free public naming: two distinct
/// draws from the random source always yield distinct generated names,
/// because the numeral map is injective.
pub proof fn lemma_distinct_names(a: u64, b: u64)
    requires
        a != b,
    ensures
        decimal_chars(a as int) != decimal_chars(b as int),
{
    if decimal_chars(a as int) == decimal_chars(b as int) {
        lemma_decimal_chars_injective(a as int, b as int);
    }
}

/// Relies on rand_core: `RngCore::next_u64` on `OsRng`, a fresh 64-bit
/// value from the operating system's cryptographically secure randomness
/// source.  Nothing is promised of the value — callers must hold for
/// every outcome — and two calls may return anything, independently.
#[verifier::external_body]
fn os_random_u64() -> u64 {
    OsRng.next_u64()
}

/// A server-chosen destination name for the public endpoint: the decimal
/// numeral of a fresh draw from the secure random source, never a
/// predictable counter or timestamp.  Whatever the draw, the name is
/// some 64-bit value's numeral, and distinct draws give distinct names
/// (`lemma_distinct_names`).
pub fn generated_name() -> (name: String)
    ensures
        exists|n: u64| name@ == decimal_chars(n as int),
{
    let n = os_random_u64();
    let name = decimal_string(n);
    proof {
        assert(name@ == decimal_chars(n as int));
    }
    name
}

/// The destination name of a public-endpoint request: the caller's own,
/// when one was supplied, else a freshly generated one.
pub fn destination_name(supplied: Option<String>) -> (name: String)
    ensures
        supplied matches Some(s) ==> name == s,
        supplied is None ==> exists|n: u64| name@ == decimal_chars(n as int),
{
    match supplied {
        Some(s) => s,
        None => generated_name(),
    }
}

} // verus!
