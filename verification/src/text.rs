//! Decimal and upper-case hexadecimal rendering of integers and bytes,
//! specified over `Seq<char>` and proved.

use vstd::prelude::*;

verus! {

/// The ASCII character of a decimal or hexadecimal digit `d < 16`
/// (`0`..`9`, then upper-case `A`..`F`).
pub open spec fn hex_digit(d: nat) -> char {
    if d < 10 {
        (d + 48) as char
    } else {
        (d + 55) as char
    }
}

/// Decimal digits of a natural number, most significant first, no leading zeros.
pub open spec fn decimal_digits(n: nat) -> Seq<char>
    decreases n,
{
    if n < 10 {
        seq![hex_digit(n)]
    } else {
        decimal_digits(n / 10).push(hex_digit(n % 10))
    }
}

/// How an integer is written in base ten: a `-` before the digits of its
/// magnitude when it is negative.
pub open spec fn decimal(n: int) -> Seq<char> {
    if n < 0 {
        seq!['-'] + decimal_digits((-n) as nat)
    } else {
        decimal_digits(n as nat)
    }
}

/// Upper-case hexadecimal rendering of bytes: two digits per byte, high nibble first.
pub open spec fn hex_upper(bytes: Seq<u8>) -> Seq<char>
    decreases bytes.len(),
{
    if bytes.len() == 0 {
        Seq::empty()
    } else {
        hex_upper(bytes.drop_last()) + seq![
            hex_digit((bytes.last() / 16) as nat),
            hex_digit((bytes.last() % 16) as nat),
        ]
    }
}

/// A character of upper-case hexadecimal: `0`..`9` or `A`..`F`.
pub open spec fn is_hex_upper_char(c: char) -> bool {
    ('0' <= c && c <= '9') || ('A' <= c && c <= 'F')
}

/// A character that can occur in a decimal rendering: a digit or `-`.
pub open spec fn is_decimal_char(c: char) -> bool {
    ('0' <= c && c <= '9') || c == '-'
}

proof fn lemma_hex_digit_injective(a: nat, b: nat)
    requires
        a < 16,
        b < 16,
        hex_digit(a) == hex_digit(b),
    ensures
        a == b,
{
}

/// Hexadecimal rendering takes two characters per byte.
pub proof fn lemma_hex_upper_len(bytes: Seq<u8>)
    ensures
        hex_upper(bytes).len() == 2 * bytes.len(),
    decreases bytes.len(),
{
    if bytes.len() > 0 {
        lemma_hex_upper_len(bytes.drop_last());
    }
}

/// Hexadecimal rendering uses only the characters `0`..`9` and `A`..`F`.
pub proof fn lemma_hex_upper_alphabet(bytes: Seq<u8>)
    ensures
        forall|i: int| 0 <= i < hex_upper(bytes).len() ==> is_hex_upper_char(#[trigger] hex_upper(bytes)[i]),
    decreases bytes.len(),
{
    if bytes.len() > 0 {
        lemma_hex_upper_alphabet(bytes.drop_last());
        let prefix = hex_upper(bytes.drop_last());
        let tail = seq![
            hex_digit((bytes.last() / 16) as nat),
            hex_digit((bytes.last() % 16) as nat),
        ];
        assert forall|i: int| 0 <= i < hex_upper(bytes).len() implies is_hex_upper_char(
            #[trigger] hex_upper(bytes)[i],
        ) by {
            if i >= prefix.len() {
                assert(hex_upper(bytes)[i] == tail[i - prefix.len()]);
            } else {
                assert(hex_upper(bytes)[i] == prefix[i]);
            }
        }
    }
}

/// Different byte sequences have different hexadecimal renderings.
pub proof fn lemma_hex_upper_injective(a: Seq<u8>, b: Seq<u8>)
    requires
        hex_upper(a) == hex_upper(b),
    ensures
        a == b,
    decreases a.len(),
{
    lemma_hex_upper_len(a);
    lemma_hex_upper_len(b);
    if a.len() > 0 {
        let ha = hex_upper(a);
        let n = ha.len();
        let pa = hex_upper(a.drop_last());
        let pb = hex_upper(b.drop_last());
        lemma_hex_upper_len(a.drop_last());
        lemma_hex_upper_len(b.drop_last());
        assert(ha[n - 2] == hex_digit((a.last() / 16) as nat));
        assert(ha[n - 2] == hex_digit((b.last() / 16) as nat));
        assert(ha[n - 1] == hex_digit((a.last() % 16) as nat));
        assert(ha[n - 1] == hex_digit((b.last() % 16) as nat));
        lemma_hex_digit_injective((a.last() / 16) as nat, (b.last() / 16) as nat);
        lemma_hex_digit_injective((a.last() % 16) as nat, (b.last() % 16) as nat);
        assert(a.last() == b.last());
        assert(pa =~= ha.subrange(0, n - 2));
        assert(pb =~= ha.subrange(0, n - 2));
        lemma_hex_upper_injective(a.drop_last(), b.drop_last());
        assert(a =~= a.drop_last().push(a.last()));
        assert(b =~= b.drop_last().push(b.last()));
    } else {
        assert(a =~= b);
    }
}

proof fn lemma_decimal_digits_shape(n: nat)
    ensures
        decimal_digits(n).len() >= 1,
        n < 10 <==> decimal_digits(n).len() == 1,
        '0' <= decimal_digits(n)[0] && decimal_digits(n)[0] <= '9',
        forall|i: int| 0 <= i < decimal_digits(n).len() ==> {
            let c = #[trigger] decimal_digits(n)[i];
            '0' <= c && c <= '9'
        },
    decreases n,
{
    if n >= 10 {
        lemma_decimal_digits_shape(n / 10);
        let p = decimal_digits(n / 10);
        assert forall|i: int| 0 <= i < decimal_digits(n).len() implies {
            let c = #[trigger] decimal_digits(n)[i];
            '0' <= c && c <= '9'
        } by {
            if i < p.len() {
                assert(decimal_digits(n)[i] == p[i]);
            }
        }
    }
}

proof fn lemma_decimal_digits_injective(a: nat, b: nat)
    requires
        decimal_digits(a) == decimal_digits(b),
    ensures
        a == b,
    decreases a,
{
    lemma_decimal_digits_shape(a);
    lemma_decimal_digits_shape(b);
    if a < 10 {
        assert(decimal_digits(a)[0] == hex_digit(a));
        assert(decimal_digits(b)[0] == hex_digit(b));
        lemma_hex_digit_injective(a, b);
    } else {
        let s = decimal_digits(a);
        assert(s.last() == hex_digit(a % 10));
        assert(s.last() == hex_digit(b % 10));
        lemma_hex_digit_injective(a % 10, b % 10);
        assert(decimal_digits(a / 10) =~= s.drop_last());
        assert(decimal_digits(b / 10) =~= s.drop_last());
        lemma_decimal_digits_injective(a / 10, b / 10);
    }
}

/// Every character of a decimal rendering is a digit or `-`.
pub proof fn lemma_decimal_alphabet(n: int)
    ensures
        decimal(n).len() >= 1,
        forall|i: int| 0 <= i < decimal(n).len() ==> is_decimal_char(#[trigger] decimal(n)[i]),
{
    if n < 0 {
        lemma_decimal_digits_shape((-n) as nat);
        let d = decimal_digits((-n) as nat);
        assert forall|i: int| 0 <= i < decimal(n).len() implies is_decimal_char(#[trigger] decimal(n)[i]) by {
            if i > 0 {
                assert(decimal(n)[i] == d[i - 1]);
            }
        }
    } else {
        lemma_decimal_digits_shape(n as nat);
    }
}

/// Different integers have different decimal renderings, so a number written
/// in decimal reads back as itself.
pub proof fn lemma_decimal_injective(a: int, b: int)
    requires
        decimal(a) == decimal(b),
    ensures
        a == b,
{
    if a < 0 {
        lemma_decimal_digits_shape((-a) as nat);
    }
    if b < 0 {
        lemma_decimal_digits_shape((-b) as nat);
    }
    if a >= 0 {
        lemma_decimal_digits_shape(a as nat);
    }
    if b >= 0 {
        lemma_decimal_digits_shape(b as nat);
    }
    if a < 0 && b < 0 {
        assert(decimal_digits((-a) as nat) =~= decimal(a).subrange(1, decimal(a).len() as int));
        assert(decimal_digits((-b) as nat) =~= decimal(b).subrange(1, decimal(b).len() as int));
        lemma_decimal_digits_injective((-a) as nat, (-b) as nat);
    } else if a >= 0 && b >= 0 {
        lemma_decimal_digits_injective(a as nat, b as nat);
    } else if a < 0 {
        assert(decimal(a)[0] == '-');
        assert(decimal(b)[0] == decimal_digits(b as nat)[0]);
    } else {
        assert(decimal(b)[0] == '-');
        assert(decimal(a)[0] == decimal_digits(a as nat)[0]);
    }
}

/// Appends one character to a string (`String::push`).
#[verifier::external_body]
pub(crate) fn push_char(s: &mut String, c: char)
    ensures
        final(s)@ == old(s)@.push(c),
{
    s.push(c);
}

fn digit_char(d: u8) -> (c: char)
    requires
        d < 16,
    ensures
        c == hex_digit(d as nat),
{
    if d < 10 {
        (d + 48) as char
    } else {
        (d + 55) as char
    }
}

fn push_decimal_digits(s: &mut String, n: u64)
    ensures
        final(s)@ == old(s)@ + decimal_digits(n as nat),
    decreases n,
{
    if n >= 10 {
        push_decimal_digits(s, n / 10);
    }
    push_char(s, digit_char((n % 10) as u8));
    proof {
        assert(old(s)@ + decimal_digits(n as nat) =~= s@);
    }
}

/// Appends the decimal rendering of `n` (as `{}` formats an `i64`).
pub fn push_decimal(s: &mut String, n: i64)
    ensures
        final(s)@ == old(s)@ + decimal(n as int),
{
    if n < 0 {
        push_char(s, '-');
        let magnitude: u64 = if n == i64::MIN {
            9223372036854775808u64
        } else {
            (-n) as u64
        };
        push_decimal_digits(s, magnitude);
        proof {
            assert(old(s)@ + decimal(n as int) =~= s@);
        }
    } else {
        push_decimal_digits(s, n as u64);
    }
}

/// Renders bytes as upper-case hexadecimal (as `{:X}` formats a digest).
pub fn to_hex_upper(bytes: &[u8]) -> (res: String)
    ensures
        res@ == hex_upper(bytes@),
{
    let mut res = String::new();
    let n = bytes.len();
    for i in 0..n
        invariant
            n == bytes@.len(),
            res@ == hex_upper(bytes@.take(i as int)),
    {
        let b = bytes[i];
        push_char(&mut res, digit_char(b / 16));
        push_char(&mut res, digit_char(b % 16));
        proof {
            assert(bytes@.take(i + 1).drop_last() =~= bytes@.take(i as int));
        }
    }
    proof {
        assert(bytes@.take(n as int) =~= bytes@);
    }
    res
}

} // verus!
