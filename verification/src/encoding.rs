//! The encoding of attribute values: a value that is the decimal text of an
//! unsigned 32-bit integer stands for itself; any other value is encoded as the
//! decimal text of its SHA-256 digest, read as a big-endian integer.
use vstd::prelude::*;
use vstd::slice::slice_to_vec;
use vstd::string::{StringExecFns, StringSliceAdditionalSpecFns};
use vstd::utf8::{encode_utf8, is_ascii_chars, is_ascii_chars_encode_utf8};

verus! {

/// The SHA-256 digest of the given bytes.
pub uninterp spec fn sha256_digest(bytes: Seq<u8>) -> Seq<u8>;

/// `Sha256::digest` of the crate sha2: the SHA-256 digest of the bytes, which
/// has 32 bytes. The contract gives the digest a name and states its length.
#[verifier::external_body]
pub(crate) fn sha256(bytes: &[u8]) -> (r: Vec<u8>)
    ensures
        r@ == sha256_digest(bytes@),
        r@.len() == 32,
{
    <sha2::Sha256 as sha2::Digest>::digest(bytes).to_vec()
}

/// The number that the bytes are, most significant byte first.
pub open spec fn be_value(bytes: Seq<u8>) -> nat
    decreases bytes.len(),
{
    if bytes.len() == 0 {
        0
    } else {
        be_value(bytes.drop_last()) * 256 + bytes.last() as nat
    }
}

/// The character of a decimal digit.
pub open spec fn digit_char(d: nat) -> char {
    if d == 0 {
        '0'
    } else if d == 1 {
        '1'
    } else if d == 2 {
        '2'
    } else if d == 3 {
        '3'
    } else if d == 4 {
        '4'
    } else if d == 5 {
        '5'
    } else if d == 6 {
        '6'
    } else if d == 7 {
        '7'
    } else if d == 8 {
        '8'
    } else {
        '9'
    }
}

/// The decimal text of a number, without leading zeros.
pub open spec fn decimal_text(n: nat) -> Seq<char>
    decreases n,
{
    if n < 10 {
        seq![digit_char(n)]
    } else {
        decimal_text(n / 10).push(digit_char(n % 10))
    }
}

/// Whether a character is a decimal digit.
pub open spec fn is_digit(c: char) -> bool {
    '0' <= c <= '9'
}

/// The number that a text of decimal digits stands for.
pub open spec fn digits_value(text: Seq<char>) -> nat
    decreases text.len(),
{
    if text.len() == 0 {
        0
    } else {
        digits_value(text.drop_last()) * 10 + (text.last() as nat - '0' as nat) as nat
    }
}

/// Whether a text is the decimal text of an unsigned 32-bit integer: digits
/// only, at least one, no leading zero but for zero itself, at most
/// 4294967295.
pub open spec fn is_u32_text(text: Seq<char>) -> bool {
    &&& 1 <= text.len() <= 10
    &&& forall|i: int| 0 <= i < text.len() ==> is_digit(#[trigger] text[i])
    &&& (text.len() > 1 ==> text[0] != '0')
    &&& digits_value(text) <= 0xffff_ffff
}

/// The encoding of an attribute value.
pub open spec fn encoded(value: Seq<char>) -> Seq<char> {
    if is_u32_text(value) {
        value
    } else {
        decimal_text(be_value(sha256_digest(encode_utf8(value))))
    }
}

/// The text of the given digits, the last one first.
pub open spec fn reversed_digits(digits: Seq<u8>) -> Seq<char> {
    Seq::new(digits.len(), |i: int| digit_char(digits[digits.len() - 1 - i] as nat))
}

proof fn lemma_be_value_push(bytes: Seq<u8>, i: int)
    requires
        0 <= i < bytes.len(),
    ensures
        be_value(bytes.take(i + 1)) == be_value(bytes.take(i)) * 256 + bytes[i] as nat,
{
    assert(bytes.take(i + 1).drop_last() =~= bytes.take(i));
}

proof fn lemma_digits_value_push(text: Seq<char>, i: int)
    requires
        0 <= i < text.len(),
    ensures
        digits_value(text.take(i + 1)) == digits_value(text.take(i)) * 10 + (text[i] as nat
            - '0' as nat) as nat,
{
    assert(text.take(i + 1).drop_last() =~= text.take(i));
}

/// Divides the number that the bytes are by ten, in place, and hands out the
/// remainder and whether the quotient is more than zero.
fn divide_by_ten(work: &mut Vec<u8>) -> (r: (u8, bool))
    ensures
        final(work)@.len() == old(work)@.len(),
        be_value(final(work)@) == be_value(old(work)@) / 10,
        r.0 as nat == be_value(old(work)@) % 10,
        r.1 == (be_value(final(work)@) != 0),
{
    let ghost orig = work@;
    let mut rem: u8 = 0;
    let mut nonzero = false;
    let mut i: usize = 0;
    while i < work.len()
        invariant
            i <= work@.len(),
            work@.len() == orig.len(),
            forall|j: int| i <= j < orig.len() ==> work@[j] == orig[j],
            rem < 10,
            be_value(work@.take(i as int)) * 10 + rem == be_value(orig.take(i as int)),
            nonzero == (be_value(work@.take(i as int)) != 0),
        decreases work@.len() - i,
    {
        let ghost before = work@;
        let cur: u32 = rem as u32 * 256 + work[i] as u32;
        let q: u32 = cur / 10;
        let next_rem: u32 = cur % 10;
        work.set(i, q as u8);
        proof {
            lemma_be_value_push(orig, i as int);
            lemma_be_value_push(work@, i as int);
            assert(work@.take(i as int) =~= before.take(i as int));
        }
        rem = next_rem as u8;
        if q != 0 {
            nonzero = true;
        }
        i += 1;
    }
    proof {
        assert(work@.take(i as int) =~= work@);
        assert(orig.take(i as int) =~= orig);
    }
    (rem, nonzero)
}

/// The one-character text of a decimal digit.
fn digit_str(d: u8) -> (r: &'static str)
    requires
        d < 10,
    ensures
        r@ == seq![digit_char(d as nat)],
{
    proof {
        reveal_strlit("0");
        reveal_strlit("1");
        reveal_strlit("2");
        reveal_strlit("3");
        reveal_strlit("4");
        reveal_strlit("5");
        reveal_strlit("6");
        reveal_strlit("7");
        reveal_strlit("8");
        reveal_strlit("9");
    }
    if d == 0 {
        "0"
    } else if d == 1 {
        "1"
    } else if d == 2 {
        "2"
    } else if d == 3 {
        "3"
    } else if d == 4 {
        "4"
    } else if d == 5 {
        "5"
    } else if d == 6 {
        "6"
    } else if d == 7 {
        "7"
    } else if d == 8 {
        "8"
    } else {
        "9"
    }
}

/// The decimal text of the number that the bytes are, most significant byte
/// first.
pub fn decimal_of_be_bytes(bytes: &[u8]) -> (r: String)
    ensures
        r@ == decimal_text(be_value(bytes@)),
{
    let mut work: Vec<u8> = slice_to_vec(bytes);
    let mut digits: Vec<u8> = Vec::new();
    let mut done = false;
    let ghost number = be_value(bytes@);
    while !done
        invariant
            forall|j: int| 0 <= j < digits@.len() ==> digits@[j] < 10,
            !done ==> decimal_text(number) == decimal_text(be_value(work@)) + reversed_digits(
                digits@,
            ),
            done ==> decimal_text(number) == reversed_digits(digits@),
        decreases
            (if done {
                0
            } else {
                1 + be_value(work@)
            }),
    {
        let (rem, nonzero) = divide_by_ten(&mut work);
        digits.push(rem);
        if !nonzero {
            done = true;
        }
    }
    let mut out = String::new();
    let mut k: usize = digits.len();
    while k > 0
        invariant
            k <= digits@.len(),
            forall|j: int| 0 <= j < digits@.len() ==> digits@[j] < 10,
            out@ == reversed_digits(digits@).take(digits@.len() - k),
        decreases k,
    {
        k -= 1;
        out.append(digit_str(digits[k]));
    }
    out
}

/// Whether a string is the decimal text of an unsigned 32-bit integer.
pub fn is_u32_str(s: &str) -> (r: bool)
    ensures
        r == is_u32_text(s@),
{
    if !s.is_ascii() {
        return false;
    }
    let bytes = s.as_bytes();
    proof {
        is_ascii_chars_encode_utf8(s@);
    }
    let n: usize = bytes.len();
    if n == 0 || n > 10 {
        return false;
    }
    if n > 1 && bytes[0] == 48u8 {
        return false;
    }
    let mut acc: u64 = 0;
    let mut i: usize = 0;
    while i < n
        invariant
            n == s@.len(),
            n <= 10,
            i <= n,
            bytes@.len() == n,
            is_ascii_chars(s@),
            forall|j: int| 0 <= j < n ==> bytes@[j] == s@[j] as u8,
            forall|j: int| 0 <= j < i ==> is_digit(#[trigger] s@[j]),
            acc == digits_value(s@.take(i as int)),
            acc < pow10(i as nat),
        decreases n - i,
    {
        let b: u8 = bytes[i];
        if b < 48u8 || b > 57u8 {
            return false;
        }
        proof {
            lemma_digits_value_push(s@, i as int);
            lemma_pow10_step(i as nat);
        }
        acc = acc * 10 + (b - 48u8) as u64;
        i += 1;
    }
    assert(s@.take(n as int) =~= s@);
    acc <= 0xffff_ffffu64
}

/// Ten to the given power.
pub open spec fn pow10(e: nat) -> nat
    decreases e,
{
    if e == 0 {
        1
    } else {
        10 * pow10((e - 1) as nat)
    }
}

proof fn lemma_pow10_step(e: nat)
    ensures
        pow10(e + 1) == 10 * pow10(e),
        e <= 10 ==> pow10(e) <= 10_000_000_000,
        pow10(e) >= 1,
    decreases e,
{
    reveal_with_fuel(pow10, 12);
    if e > 0 {
        lemma_pow10_step((e - 1) as nat);
    }
}

/// The number of a digit's character is the digit.
proof fn lemma_digit_char(d: nat)
    requires
        d < 10,
    ensures
        is_digit(digit_char(d)),
        (digit_char(d) as nat - '0' as nat) as nat == d,
{
}

/// The decimal text of a number stands for that number.
pub proof fn lemma_decimal_text_value(n: nat)
    ensures
        digits_value(decimal_text(n)) == n,
    decreases n,
{
    if n < 10 {
        lemma_digit_char(n);
        assert(decimal_text(n).drop_last() =~= Seq::<char>::empty());
        assert(digits_value(Seq::<char>::empty()) == 0);
    } else {
        lemma_decimal_text_value(n / 10);
        lemma_digit_char(n % 10);
        assert(decimal_text(n).drop_last() =~= decimal_text(n / 10));
    }
}

/// Two numbers with the same decimal text are the same number.
pub proof fn lemma_decimal_text_injective(a: nat, b: nat)
    requires
        decimal_text(a) == decimal_text(b),
    ensures
        a == b,
{
    lemma_decimal_text_value(a);
    lemma_decimal_text_value(b);
}

/// The decimal text of an unsigned 32-bit integer encodes to itself, so no
/// two such texts have the same encoding.
pub proof fn lemma_encoding_of_integers_is_injective(a: Seq<char>, b: Seq<char>)
    requires
        is_u32_text(a),
        is_u32_text(b),
        encoded(a) == encoded(b),
    ensures
        encoded(a) == a,
        a == b,
{
}

/// Two byte sequences of one length that are the same number are the same
/// bytes.
pub proof fn lemma_be_value_injective(a: Seq<u8>, b: Seq<u8>)
    requires
        a.len() == b.len(),
        be_value(a) == be_value(b),
    ensures
        a == b,
    decreases a.len(),
{
    if a.len() > 0 {
        lemma_be_value_injective(a.drop_last(), b.drop_last());
        assert(a =~= a.drop_last().push(a.last()));
        assert(b =~= b.drop_last().push(b.last()));
    } else {
        assert(a =~= b);
    }
}

/// Two values of which neither is the decimal text of an unsigned 32-bit
/// integer, and whose digests have the 32 bytes of a SHA-256 digest, have the
/// same encoding only if they have the same digest.
pub proof fn lemma_encoding_of_other_values_is_injective_on_digests(a: Seq<char>, b: Seq<char>)
    requires
        !is_u32_text(a),
        !is_u32_text(b),
        sha256_digest(encode_utf8(a)).len() == 32,
        sha256_digest(encode_utf8(b)).len() == 32,
        encoded(a) == encoded(b),
    ensures
        sha256_digest(encode_utf8(a)) == sha256_digest(encode_utf8(b)),
{
    lemma_encoding_of_other_values_follows_digest(a, b);
    lemma_be_value_injective(sha256_digest(encode_utf8(a)), sha256_digest(encode_utf8(b)));
}

/// Two values of which neither is the decimal text of an unsigned 32-bit
/// integer have the same encoding only if their SHA-256 digests are the same
/// number.
pub proof fn lemma_encoding_of_other_values_follows_digest(a: Seq<char>, b: Seq<char>)
    requires
        !is_u32_text(a),
        !is_u32_text(b),
        encoded(a) == encoded(b),
    ensures
        be_value(sha256_digest(encode_utf8(a))) == be_value(sha256_digest(encode_utf8(b))),
{
    lemma_decimal_text_injective(
        be_value(sha256_digest(encode_utf8(a))),
        be_value(sha256_digest(encode_utf8(b))),
    );
}

/// Encodes an attribute value: the decimal text of an unsigned 32-bit integer
/// stands for itself, any other value for the decimal text of its SHA-256
/// digest.
pub fn encode(value: &str) -> (r: String)
    ensures
        r@ == encoded(value@),
{
    if is_u32_str(value) {
        value.to_owned()
    } else {
        let digest = sha256(value.as_bytes());
        decimal_of_be_bytes(digest.as_slice())
    }
}

} // verus!
