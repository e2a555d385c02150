use anchor_lang::error::ErrorCode;
use anchor_lang::AccountDeserialize;
use orao_solana_vrf::state::RandomnessAccountData;
use sha2::Digest;
use vstd::arithmetic::power::pow;
use vstd::prelude::*;

verus! {

/// The SHA-256 digest of a byte string.
pub uninterp spec fn sha256_of(data: Seq<u8>) -> Seq<u8>;

/// Trusted: calls `sha2::Sha256::digest`. The contract claims that the
/// result is the SHA-256 digest of the input, named by `sha256_of`, and that
/// it is 32 bytes long (the output size of `Sha256` is `U32`).
#[verifier::external_body]
fn sha256_digest(data: &[u8]) -> (digest: Vec<u8>)
    ensures
        digest@ == sha256_of(data@),
        digest@.len() == 32,
{
    sha2::Sha256::digest(data).to_vec()
}

/// The number that a byte string denotes, least significant byte first.
pub open spec fn le_value(bytes: Seq<u8>) -> nat
    decreases bytes.len(),
{
    if bytes.len() == 0 {
        0
    } else {
        bytes[0] as nat + 256 * le_value(bytes.drop_first())
    }
}

/// The `n` least significant bytes of `x`, least significant first.
pub open spec fn le_bytes(x: nat, n: nat) -> Seq<u8>
    decreases n,
{
    if n == 0 {
        Seq::empty()
    } else {
        seq![(x % 256) as u8] + le_bytes(x / 256, (n - 1) as nat)
    }
}

/// The first eight bytes of the SHA-256 digest of `input` and `seed`, both
/// written as eight little-endian bytes, read as a little-endian number.
pub open spec fn hash_pair(input: u64, seed: u64) -> u64 {
    le_value(sha256_of(le_bytes(input as nat, 8) + le_bytes(seed as nat, 8)).subrange(0, 8)) as u64
}

pub proof fn lemma_le_value_bound(bytes: Seq<u8>)
    ensures
        le_value(bytes) < pow(256, bytes.len()),
    decreases bytes.len(),
{
    reveal(pow);
    if bytes.len() > 0 {
        let rest = bytes.drop_first();
        lemma_le_value_bound(rest);
        let r = le_value(rest);
        let p = pow(256, rest.len());
        assert(pow(256, bytes.len()) == 256 * p);
        let b = bytes[0] as nat;
        assert(b + 256 * r < 256 * p) by (nonlinear_arith)
            requires
                b < 256,
                r < p,
        ;
    }
}

/// `x` written as eight bytes, least significant first (as `u64::to_le_bytes`).
pub fn u64_to_le_bytes(x: u64) -> (bytes: Vec<u8>)
    ensures
        bytes@ == le_bytes(x as nat, 8),
{
    let mut bytes: Vec<u8> = Vec::new();
    let mut rest: u64 = x;
    let mut i: u64 = 0;
    while i < 8
        invariant
            i <= 8,
            bytes@ + le_bytes(rest as nat, (8 - i) as nat) == le_bytes(x as nat, 8),
        decreases 8 - i,
    {
        let ghost before = bytes@;
        let ghost old_rest = rest as nat;
        let ghost left = (8 - i) as nat;
        let byte = (rest % 256) as u8;
        bytes.push(byte);
        rest = rest / 256;
        i = i + 1;
        assert(le_bytes(old_rest, left) == seq![byte] + le_bytes(rest as nat, (left - 1) as nat));
        assert(bytes@ + le_bytes(rest as nat, (8 - i) as nat) =~= before + le_bytes(old_rest, left));
    }
    assert(le_bytes(rest as nat, 0) == Seq::<u8>::empty());
    assert(bytes@ =~= le_bytes(x as nat, 8));
    bytes
}

/// Reads the first eight bytes of `bytes` as a little-endian number (as
/// `u64::from_le_bytes` does with `bytes[0..8]`).
pub fn le_u64_prefix(bytes: &[u8]) -> (value: u64)
    requires
        bytes@.len() >= 8,
    ensures
        value as nat == le_value(bytes@.subrange(0, 8)),
{
    let mut value: u64 = 0;
    let mut i: usize = 8;
    assert(bytes@.subrange(8, 8) =~= Seq::<u8>::empty());
    while i > 0
        invariant
            i <= 8,
            bytes@.len() >= 8,
            value as nat == le_value(bytes@.subrange(i as int, 8)),
        decreases i,
    {
        let ghost tail = bytes@.subrange(i as int, 8);
        proof {
            lemma_le_value_bound(tail);
            vstd::arithmetic::power::lemma_pow_increases(256, tail.len(), 7);
            assert(pow(256, 7) == 72057594037927936) by {
                reveal_with_fuel(pow, 8);
            }
        }
        i = i - 1;
        let byte = bytes[i];
        let ghost longer = bytes@.subrange(i as int, 8);
        assert(longer.drop_first() =~= tail);
        assert(value * 256 + byte < 0x1_0000_0000_0000_0000) by (nonlinear_arith)
            requires
                value < 72057594037927936,
                byte < 256,
        ;
        value = value * 256 + byte as u64;
    }
    value
}

/// The hash that spreads a drawn number over the citizens: SHA-256 of the
/// little-endian bytes of `input` followed by those of `seed`, of which the
/// first eight bytes are read as a little-endian number.
pub fn sha256_hash(input: u64, seed: u64) -> (hashed: u64)
    ensures
        hashed == hash_pair(input, seed),
{
    let mut data = u64_to_le_bytes(input);
    let mut tail = u64_to_le_bytes(seed);
    data.append(&mut tail);
    let digest = sha256_digest(data.as_slice());
    le_u64_prefix(digest.as_slice())
}

/// What a randomness request account of the ORAO VRF holds: the request's
/// seed and, once the request is fulfilled, the randomness.
#[derive(Debug, Clone, Copy, PartialEq, Eq)]
pub struct RandomnessView {
    pub seed: [u8; 32],
    pub fulfilled_randomness: Option<[u8; 64]>,
}

/// Why the data of an account is not a randomness request.
#[derive(Debug, Clone, Copy, PartialEq, Eq, Structural)]
pub enum AccountDataError {
    /// The account holds no data.
    UninitializedAccount,
    /// The data is shorter than the 8-byte account discriminator.
    AccountDiscriminatorNotFound,
    /// The discriminator is not that of a randomness request account.
    AccountDiscriminatorMismatch,
    /// The discriminator is right but the rest does not decode.
    AccountDidNotDeserialize,
}

/// What the ORAO VRF reads from an account's data: the randomness request
/// that it holds, or why it holds none.
pub uninterp spec fn orao_randomness_of(data: Seq<u8>) -> Result<RandomnessView, AccountDataError>;

/// Trusted: calls `orao_solana_vrf::state::RandomnessAccountData::try_deserialize`
/// (through `anchor_lang::AccountDeserialize`). The contract claims that the
/// outcome depends on the bytes alone and names it `orao_randomness_of`; on
/// success the account's seed and fulfilled randomness are copied out. Of the
/// failures, the source shows three: data shorter than 8 bytes gives
/// `AccountDiscriminatorNotFound`, an unknown discriminator gives
/// `AccountDiscriminatorMismatch`, contents that do not decode give
/// `AccountDidNotDeserialize`; the contract states the first.
#[verifier::external_body]
fn deserialize_randomness(data: &[u8]) -> (randomness: Result<RandomnessView, AccountDataError>)
    ensures
        randomness == orao_randomness_of(data@),
        data@.len() < 8 ==> (randomness == Err::<RandomnessView, AccountDataError>(AccountDataError::AccountDiscriminatorNotFound)),
{
    let mut bytes: &[u8] = data;
    match RandomnessAccountData::try_deserialize(&mut bytes) {
        Ok(account) => Ok(
            RandomnessView { seed: *account.seed(), fulfilled_randomness: account.fulfilled_randomness().copied() },
        ),
        Err(e) if e == ErrorCode::AccountDiscriminatorNotFound.into() => Err(AccountDataError::AccountDiscriminatorNotFound),
        Err(e) if e == ErrorCode::AccountDiscriminatorMismatch.into() => Err(AccountDataError::AccountDiscriminatorMismatch),
        Err(_) => Err(AccountDataError::AccountDidNotDeserialize),
    }
}

/// Reads a randomness request account of the VRF from the account's data:
/// empty data is an uninitialized account; other data gives what the VRF
/// reads from it, the request or the reason it holds none.
pub fn get_random_account_data(data: &[u8]) -> (randomness: Result<RandomnessView, AccountDataError>)
    ensures
        data@.len() == 0 ==> randomness == Err::<RandomnessView, AccountDataError>(
            AccountDataError::UninitializedAccount,
        ),
        0 < data@.len() < 8 ==> randomness == Err::<RandomnessView, AccountDataError>(
            AccountDataError::AccountDiscriminatorNotFound,
        ),
        data@.len() > 0 ==> randomness == orao_randomness_of(data@),
{
    if data.len() == 0 {
        return Err(AccountDataError::UninitializedAccount);
    }
    deserialize_randomness(data)
}

} // verus!
