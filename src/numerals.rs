//! Lowercase hexadecimal and decimal text, and the native object id's
//! parsing and printing as the database driver does them.
use mongodb::bson::oid::ObjectId;
use vstd::prelude::*;

verus! {

/// Number of bytes in a native object id.
pub const OID_LEN: usize = 12;

/// The character that stands for a digit value below 16, lowercase.
pub open spec fn digit_char(n: int) -> char {
    if n < 10 {
        (n + 48) as char
    } else {
        (n + 87) as char
    }
}

/// Two lowercase hex digits per byte, high nibble first.
pub open spec fn hex_of(b: Seq<u8>) -> Seq<char> {
    Seq::new(
        2 * b.len(),
        |i: int|
            if i % 2 == 0 {
                digit_char(b[i / 2] as int / 16)
            } else {
                digit_char(b[i / 2] as int % 16)
            },
    )
}

/// A hex digit of either case.
pub open spec fn is_hex_char(c: char) -> bool {
    let v = c as int;
    (48 <= v <= 57) || (97 <= v <= 102) || (65 <= v <= 70)
}

/// The value of a hex digit of either case.
pub open spec fn hex_value(c: char) -> int {
    let v = c as int;
    if 48 <= v <= 57 {
        v - 48
    } else if 97 <= v <= 102 {
        v - 87
    } else {
        v - 55
    }
}

/// Text that reads as a native object id: exactly 24 hex digits.
pub open spec fn is_object_id_hex(s: Seq<char>) -> bool {
    &&& s.len() == 2 * OID_LEN
    &&& forall|i: int| 0 <= i < s.len() ==> is_hex_char(#[trigger] s[i])
}

/// The bytes that pairs of hex digits stand for, high nibble first.
pub open spec fn hex_decode(s: Seq<char>) -> Seq<u8> {
    Seq::new(
        s.len() / 2,
        |i: int| (hex_value(s[2 * i]) * 16 + hex_value(s[2 * i + 1])) as u8,
    )
}

/// Decimal digits of a natural number, without leading zeros.
pub open spec fn digits_of(n: nat) -> Seq<char>
    decreases n,
{
    if n < 10 {
        seq![digit_char(n as int)]
    } else {
        digits_of(n / 10).push(digit_char((n % 10) as int))
    }
}

/// Decimal text of an integer, with a leading `-` when it is negative.
pub open spec fn decimal_of(i: int) -> Seq<char> {
    if i < 0 {
        seq!['-'] + digits_of((-i) as nat)
    } else {
        digits_of(i as nat)
    }
}

/// Relies on bson's `ObjectId::parse_str` (through `hex::decode`): it succeeds
/// exactly on 24 hex digits of either case, and reads two digits per byte,
/// high nibble first.
#[verifier::external_body]
pub(crate) fn parse_object_id(s: &str) -> (r: Option<[u8; 12]>)
    ensures
        r is Some <==> is_object_id_hex(s@),
        r matches Some(b) ==> b@ == hex_decode(s@),
{
    match ObjectId::parse_str(s) {
        Ok(o) => Some(o.bytes()),
        Err(_) => None,
    }
}

/// Relies on bson's `ObjectId::to_hex` (through `hex::encode`): two lowercase
/// hex digits per byte, high nibble first.
#[verifier::external_body]
pub(crate) fn object_id_hex(b: [u8; 12]) -> (r: String)
    ensures
        r@ == hex_of(b@),
{
    ObjectId::from_bytes(b).to_hex()
}

/// Appends the decimal digits of `n`, most significant first.
fn push_digits(s: &mut String, n: u64)
    ensures
        final(s)@ == old(s)@ + digits_of(n as nat),
    decreases n,
{
    let table = "0123456789";
    proof {
        reveal_strlit("0123456789");
    }
    if n >= 10 {
        push_digits(s, n / 10);
    }
    let d = (n % 10) as usize;
    let c = table.substring_char(d, d + 1);
    assert(c@ =~= seq![digit_char(d as int)]);
    s.append(c);
    assert(s@ =~= old(s)@ + digits_of(n as nat));
}

/// The decimal text of an integer: its digits without leading zeros, after
/// a `-` when it is negative.
pub fn decimal_string(i: i64) -> (r: String)
    ensures
        r@ == decimal_of(i as int),
{
    let mut s = String::new();
    if i < 0 {
        let minus = "-";
        proof {
            reveal_strlit("-");
        }
        s.append(minus);
        let m: u64 = if i == i64::MIN {
            0x8000_0000_0000_0000u64
        } else {
            (-i) as u64
        };
        push_digits(&mut s, m);
        assert(s@ =~= decimal_of(i as int));
    } else {
        push_digits(&mut s, i as u64);
        assert(s@ =~= decimal_of(i as int));
    }
    s
}

/// The digit characters stand for their values, and are hex digits.
pub proof fn lemma_digit_char(n: int)
    requires
        0 <= n < 16,
    ensures
        is_hex_char(digit_char(n)),
        hex_value(digit_char(n)) == n,
{
}

/// Decoding the hex text of a byte sequence gives back the bytes.
pub proof fn lemma_hex_round_trip(b: Seq<u8>)
    ensures
        hex_of(b).len() == 2 * b.len(),
        forall|i: int| 0 <= i < hex_of(b).len() ==> is_hex_char(#[trigger] hex_of(b)[i]),
        hex_decode(hex_of(b)) == b,
{
    let h = hex_of(b);
    assert forall|i: int| 0 <= i < h.len() implies is_hex_char(#[trigger] h[i]) by {
        lemma_digit_char(b[i / 2] as int / 16);
        lemma_digit_char(b[i / 2] as int % 16);
    }
    assert forall|j: int| 0 <= j < b.len() implies #[trigger] hex_decode(h)[j] == b[j] by {
        lemma_digit_char(b[j] as int / 16);
        lemma_digit_char(b[j] as int % 16);
        assert((2 * j) % 2 == 0);
        assert((2 * j + 1) % 2 == 1);
        assert((2 * j) / 2 == j);
        assert((2 * j + 1) / 2 == j);
    }
    assert(hex_decode(h) =~= b);
}

/// Tens raised to a natural power.
pub open spec fn pow10(k: nat) -> nat
    decreases k,
{
    if k == 0 {
        1
    } else {
        10 * pow10((k - 1) as nat)
    }
}

/// A number below ten to the power `k` has at most `k` decimal digits.
pub proof fn lemma_digits_len(n: nat, k: nat)
    requires
        k >= 1,
        n < pow10(k),
    ensures
        digits_of(n).len() <= k,
    decreases k,
{
    if n >= 10 {
        assert(k >= 2) by {
            if k == 1 {
                assert(pow10(1) == 10) by {
                    reveal_with_fuel(pow10, 2);
                }
            }
        }
        assert(n / 10 < pow10((k - 1) as nat));
        lemma_digits_len(n / 10, (k - 1) as nat);
    }
}

/// The decimal text of a 64-bit integer never reads as a native object id:
/// it is a `-` and digits, or at most 19 digits.
pub proof fn lemma_decimal_not_object_id(n: i64)
    ensures
        !is_object_id_hex(decimal_of(n as int)),
{
    let d = decimal_of(n as int);
    if n < 0 {
        assert(d[0] == '-');
        assert(!is_hex_char(d[0]));
    } else {
        assert(pow10(19) == 10_000_000_000_000_000_000nat) by {
            reveal_with_fuel(pow10, 20);
        }
        lemma_digits_len(n as nat, 19);
    }
}

} // verus!
