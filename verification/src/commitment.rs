//! Commitments to bid values.
//!
//! A commitment is the SHA3-256 digest of the bid written in decimal. A bid
//! is revealed by handing over the value; the value is accepted when it
//! hashes to the stored commitment.

use vstd::prelude::*;
use sha3::Digest;

verus! {

/// The SHA3-256 digest of a byte string.
pub uninterp spec fn sha3_256_digest(data: Seq<u8>) -> Seq<u8>;

/// Calls `sha3::Sha3_256::digest`. The digest is a function of the input
/// alone and is always 32 bytes long; nothing else is claimed of it.
#[verifier::external_body]
fn sha3_256(data: &[u8]) -> (digest: Vec<u8>)
    ensures
        digest@ == sha3_256_digest(data@),
        digest@.len() == 32,
{
    sha3::Sha3_256::digest(data).to_vec()
}

/// The ASCII decimal digits of `n`, most significant first, without leading
/// zeros; zero is the single digit `0`.
pub open spec fn decimal_digits(n: nat) -> Seq<u8>
    decreases n,
{
    if n < 10 {
        seq![(48 + n) as u8]
    } else {
        decimal_digits(n / 10).push((48 + n % 10) as u8)
    }
}

/// The number that a string of ASCII decimal digits denotes.
pub open spec fn decimal_value(digits: Seq<u8>) -> nat
    decreases digits.len(),
{
    if digits.len() == 0 {
        0
    } else {
        (decimal_value(digits.drop_last()) * 10 + (digits.last() - 48)) as nat
    }
}

/// Reading back the digits of a number gives the number.
pub proof fn lemma_decimal_round_trip(n: nat)
    ensures
        decimal_value(decimal_digits(n)) == n,
    decreases n,
{
    if n < 10 {
        let s = decimal_digits(n);
        assert(s.len() == 1);
        assert(s.drop_last().len() == 0);
        assert(decimal_value(s.drop_last()) == 0);
    } else {
        lemma_decimal_round_trip(n / 10);
        let s = decimal_digits(n);
        assert(s.drop_last() =~= decimal_digits(n / 10));
    }
}

/// Distinct numbers have distinct digit strings.
pub proof fn lemma_decimal_injective(a: nat, b: nat)
    requires
        decimal_digits(a) == decimal_digits(b),
    ensures
        a == b,
{
    lemma_decimal_round_trip(a);
    lemma_decimal_round_trip(b);
}

/// The bytes that are hashed for a bid value: its decimal digits.
pub fn encode_value(value: u128) -> (bytes: Vec<u8>)
    ensures
        bytes@ == decimal_digits(value as nat),
{
    let mut low_first: Vec<u8> = Vec::new();
    let mut rest: u128 = value / 10;
    low_first.push(48u8 + (value % 10) as u8);
    while rest > 0
        invariant
            low_first@.len() >= 1,
            decimal_digits(value as nat) == (if rest > 0 {
                decimal_digits(rest as nat)
            } else {
                Seq::<u8>::empty()
            }) + low_first@.reverse(),
        decreases rest,
    {
        let ghost before = low_first@;
        low_first.push(48u8 + (rest % 10) as u8);
        proof {
            let d = (48 + rest % 10) as u8;
            assert(low_first@.reverse() =~= seq![d] + before.reverse());
            if rest >= 10 {
                assert(decimal_digits(rest as nat) + before.reverse() =~= decimal_digits(
                    (rest / 10) as nat,
                ) + (seq![d] + before.reverse()));
            } else {
                assert(decimal_digits(rest as nat) + before.reverse() =~= Seq::<u8>::empty() + (
                seq![d] + before.reverse()));
            }
        }
        rest = rest / 10;
    }
    let n: usize = low_first.len();
    let mut bytes: Vec<u8> = Vec::new();
    let mut i: usize = 0;
    while i < n
        invariant
            n == low_first@.len(),
            i <= n,
            bytes@.len() == i,
            forall|k: int| 0 <= k < i ==> bytes@[k] == low_first@[n - 1 - k],
        decreases n - i,
    {
        bytes.push(low_first[n - 1 - i]);
        i += 1;
    }
    assert(bytes@ =~= low_first@.reverse());
    assert(Seq::<u8>::empty() + low_first@.reverse() =~= low_first@.reverse());
    bytes
}

/// The commitment to a bid value: the SHA3-256 digest of its decimal digits.
pub open spec fn commitment_of(value: u128) -> Seq<u8> {
    sha3_256_digest(decimal_digits(value as nat))
}

/// Whether `value` opens the commitment `digest`.
pub open spec fn opens(value: u128, digest: Seq<u8>) -> bool {
    commitment_of(value) == digest
}

/// Whether two byte strings are equal.
pub fn bytes_equal(a: &[u8], b: &[u8]) -> (r: bool)
    ensures
        r == (a@ == b@),
{
    if a.len() != b.len() {
        return false;
    }
    let mut i: usize = 0;
    while i < a.len()
        invariant
            a@.len() == b@.len(),
            i <= a@.len(),
            forall|k: int| 0 <= k < i ==> a@[k] == b@[k],
        decreases a@.len() - i,
    {
        if a[i] != b[i] {
            return false;
        }
        i += 1;
    }
    assert(a@ =~= b@);
    true
}

/// Commits to a bid value.
pub fn commit(value: u128) -> (digest: Vec<u8>)
    ensures
        digest@ == commitment_of(value),
        digest@.len() == 32,
{
    let bytes = encode_value(value);
    sha3_256(bytes.as_slice())
}

/// Checks a revealed value against a commitment.
pub fn verify(value: u128, digest: &[u8]) -> (r: bool)
    ensures
        r == opens(value, digest@),
{
    let computed = commit(value);
    bytes_equal(computed.as_slice(), digest)
}

/// Every value opens its own commitment.
pub proof fn lemma_commitment_sound(value: u128)
    ensures
        opens(value, commitment_of(value)),
{
}

/// A commitment is opened by a value other than the committed one only when
/// the digits of the two values are distinct strings with the same digest.
pub proof fn lemma_commitment_binding(committed: u128, revealed: u128)
    requires
        opens(revealed, commitment_of(committed)),
        committed != revealed,
    ensures
        decimal_digits(committed as nat) != decimal_digits(revealed as nat),
        sha3_256_digest(decimal_digits(committed as nat)) == sha3_256_digest(
            decimal_digits(revealed as nat),
        ),
{
    if decimal_digits(committed as nat) == decimal_digits(revealed as nat) {
        lemma_decimal_injective(committed as nat, revealed as nat);
    }
}

} // verus!
