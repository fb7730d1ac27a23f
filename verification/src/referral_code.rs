use vstd::prelude::*;

verus! {

/// The ASCII bytes of the decimal rendering of `n`.
pub open spec fn dec_digits(n: int) -> Seq<u8>
    recommends
        n >= 0,
    decreases n,
{
    if n < 10 {
        seq![(48 + if n >= 0 { n } else { 0 }) as u8]
    } else {
        dec_digits(n / 10).push((48 + n % 10) as u8)
    }
}

/// The lowercase hex digit for a value below sixteen.
pub open spec fn hex_char_of(n: int) -> char {
    seq!['0', '1', '2', '3', '4', '5', '6', '7', '8', '9', 'a', 'b', 'c', 'd', 'e', 'f'][n]
}

/// Lowercase hex rendering of a byte string, high nibble first.
pub open spec fn hex_of(bytes: Seq<u8>) -> Seq<char>
    decreases bytes.len(),
{
    if bytes.len() == 0 {
        Seq::empty()
    } else {
        seq![hex_char_of(bytes[0] as int / 16), hex_char_of(bytes[0] as int % 16)]
            + hex_of(bytes.drop_first())
    }
}

/// The SHA3-256 digest of a byte string; computable only by the hash
/// implementation, so it is left uninterpreted.
pub uninterp spec fn sha3_256_of(input: Seq<u8>) -> Seq<u8>;

/// The referral code derived from the id of the most recently created user:
/// the digest of the decimal rendering, spelled out in hex.
pub open spec fn referral_code_of(last_id: int) -> Seq<char> {
    hex_of(sha3_256_of(dec_digits(last_id)))
}

/// Appends the decimal rendering of `n` to `buf`.
fn push_decimal(buf: &mut Vec<u8>, n: i32)
    requires
        n >= 0,
    ensures
        final(buf)@ == old(buf)@ + dec_digits(n as int),
    decreases n,
{
    if n < 10 {
        buf.push(48 + n as u8);
        proof {
            assert(buf@ =~= old(buf)@ + dec_digits(n as int));
        }
    } else {
        push_decimal(buf, n / 10);
        buf.push(48 + (n % 10) as u8);
        proof {
            assert(buf@ =~= old(buf)@ + dec_digits(n as int));
        }
    }
}

/// Relies on sha3_rust::sha3_256: a 32-byte digest that is a function of the
/// input bytes alone.
#[verifier::external_body]
fn sha3_256_digest(input: &Vec<u8>) -> (r: Vec<u8>)
    ensures
        r@ == sha3_256_of(input@),
        r@.len() == 32,
{
    sha3_rust::sha3_256(input.as_slice()).to_vec()
}

/// Relies on hex::encode: two lowercase hex digits per input byte, high
/// nibble first.
#[verifier::external_body]
fn hex_encode(bytes: &Vec<u8>) -> (r: String)
    ensures
        r@ == hex_of(bytes@),
{
    hex::encode(bytes.as_slice())
}

/// Derives the referral code for a new user from the id of the most recently
/// created one.
pub fn derive_referral_code(last_id: i32) -> (r: String)
    requires
        last_id >= 0,
    ensures
        r@ == referral_code_of(last_id as int),
{
    let mut digits: Vec<u8> = Vec::new();
    push_decimal(&mut digits, last_id);
    let digest = sha3_256_digest(&digits);
    hex_encode(&digest)
}

/// Two decimal renderings agree only on equal numbers, so distinct counter
/// values can never feed the same bytes to the digest.
pub proof fn lemma_dec_digits_injective(a: int, b: int)
    requires
        a >= 0,
        b >= 0,
        dec_digits(a) == dec_digits(b),
    ensures
        a == b,
    decreases a,
{
    if a < 10 && b < 10 {
        assert(dec_digits(a)[0] == (48 + a) as u8);
        assert(dec_digits(b)[0] == (48 + b) as u8);
        assert((48 + a) as u8 == 48 + a);
        assert((48 + b) as u8 == 48 + b);
    } else if a < 10 && b >= 10 {
        assert(dec_digits(a).len() == 1);
        assert(dec_digits(b).len() == dec_digits(b / 10).len() + 1);
        assert(dec_digits(b / 10).len() >= 1);
    } else if a >= 10 && b < 10 {
        assert(dec_digits(b).len() == 1);
        assert(dec_digits(a).len() == dec_digits(a / 10).len() + 1);
        assert(dec_digits(a / 10).len() >= 1);
    } else {
        assert(dec_digits(a).last() == dec_digits(b).last());
        assert(dec_digits(a).last() == (48 + a % 10) as u8);
        assert(dec_digits(b).last() == (48 + b % 10) as u8);
        assert(0 <= a % 10 < 10 && 0 <= b % 10 < 10);
        assert((48 + a % 10) as u8 == 48 + a % 10);
        assert((48 + b % 10) as u8 == 48 + b % 10);
        assert(a % 10 == b % 10);
        assert(dec_digits(a).drop_last() =~= dec_digits(a / 10));
        assert(dec_digits(b).drop_last() =~= dec_digits(b / 10));
        lemma_dec_digits_injective(a / 10, b / 10);
        assert(a == (a / 10) * 10 + a % 10) by (nonlinear_arith)
            requires a >= 10;
        assert(b == (b / 10) * 10 + b % 10) by (nonlinear_arith)
            requires b >= 10;
    }
}

} // verus!
