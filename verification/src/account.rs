//! Signers derived from a mnemonic.

use alloy::primitives::B256;
use alloy::signers::local::coins_bip39::{English, MnemonicError};
use alloy::signers::local::{LocalSignerError, MnemonicBuilder, PrivateKeySigner};
use rayon::iter::{IntoParallelIterator, ParallelIterator};
use vstd::prelude::*;

use crate::error::{DerivationFailure, Error};
use crate::primitives::Address;

verus! {

/// A signing identity: a private key and the address that belongs to it.
#[derive(Clone, Copy, PartialEq, Eq)]
pub struct Signer {
    secret: [u8; 32],
    address: Address,
}

/// The address that belongs to the private key `secret`, where `secret` is a
/// private key of the curve secp256k1.
pub uninterp spec fn key_address(secret: Seq<u8>) -> Option<Address>;

/// Asks alloy's `PrivateKeySigner::from_bytes` for the signer of a private
/// key and takes its address.
///
/// Trusted: the address is a function of the key's 32 bytes, named
/// [`key_address`], and there is none where the bytes are not a private key.
#[verifier::external_body]
fn address_of_key(secret: &[u8; 32]) -> (r: Option<Address>)
    ensures
        r == key_address(secret@),
{
    match PrivateKeySigner::from_bytes(&B256::new(*secret)) {
        Ok(key) => Some(Address { bytes: key.address().into_array() }),
        Err(_) => None,
    }
}

impl Signer {
    #[verifier::type_invariant]
    spec fn address_belongs_to_key(self) -> bool {
        key_address(self.secret@) == Some(self.address)
    }

    /// The signer of a private key given as 32 big-endian bytes; `None` where
    /// the bytes are not a private key.
    pub fn from_secret(secret: [u8; 32]) -> (r: Option<Signer>)
        ensures
            r is Some <==> key_address(secret@) is Some,
            r matches Some(signer) ==> signer.secret() == secret && key_address(secret@) == Some(
                signer.address(),
            ),
    {
        match address_of_key(&secret) {
            Some(address) => Some(Signer { secret, address }),
            None => None,
        }
    }

    /// The signer's address.
    pub closed spec fn spec_address(&self) -> Address {
        self.address
    }

    /// The signer's private key, as 32 big-endian bytes.
    pub closed spec fn spec_secret(&self) -> [u8; 32] {
        self.secret
    }

    /// The signer's address.
    #[verifier::when_used_as_spec(spec_address)]
    pub fn address(&self) -> (r: Address)
        ensures
            r == self.spec_address(),
            key_address(self.spec_secret()@) == Some(r),
    {
        proof {
            use_type_invariant(self);
        }
        self.address
    }

    /// The signer's private key, as 32 big-endian bytes, for the code that
    /// signs with it.
    #[verifier::when_used_as_spec(spec_secret)]
    pub fn secret(&self) -> (r: [u8; 32])
        ensures
            r == self.spec_secret(),
    {
        self.secret
    }
}

/// What the derivation at `m/44'/60'/0'/0/{index}` under the mnemonic `phrase`
/// yields: the private key and its address, or the reason why there is none.
pub uninterp spec fn derived_key(phrase: Seq<char>, index: u32) -> Result<
    ([u8; 32], [u8; 20]),
    DerivationFailure,
>;

/// The signer derived from `phrase` at `index`, or the reason why there is
/// none.
pub closed spec fn derived_signer(phrase: Seq<char>, index: u32) -> Result<
    Signer,
    DerivationFailure,
> {
    match derived_key(phrase, index) {
        Ok((secret, address)) => Ok(Signer { secret, address: Address { bytes: address } }),
        Err(failure) => Err(failure),
    }
}

/// The address derived from `phrase` at `index`, where there is one.
pub open spec fn derived_address(phrase: Seq<char>, index: u32) -> Option<Address> {
    match derived_signer(phrase, index) {
        Ok(signer) => Some(signer.address()),
        Err(_) => None,
    }
}

/// Builds the signer at `index` with alloy's `MnemonicBuilder` over the
/// English word list, without a password (`phrase`, `index`, `build`), and
/// takes its key and its address as bytes.
///
/// Trusted: the result is the one value that the BIP-39 and BIP-32 derivation
/// assigns to the phrase and the index, named [`derived_key`], and the
/// address is the one that belongs to the key. A phrase that the word list or
/// its checksum rejects gives `InvalidMnemonic`; a key that cannot be derived
/// at the index gives `InvalidIndex`. The last index is left out because the
/// derivation moves on to the next index when a child key is unusable.
#[verifier::external_body]
fn derive_key(phrase: &str, index: u32) -> (r: Result<([u8; 32], [u8; 20]), DerivationFailure>)
    requires
        index < u32::MAX,
    ensures
        r == derived_key(phrase@, index),
        r matches Ok(parts) ==> key_address(parts.0@) == Some(Address { bytes: parts.1 }),
{
    let built = MnemonicBuilder::<English>::default().phrase(phrase).index(index);
    match built.and_then(|builder| builder.build()) {
        Ok(key) => Ok((key.to_bytes().0, key.address().into_array())),
        Err(LocalSignerError::Bip39Error(MnemonicError::Bip32Error(_))) => Err(
            DerivationFailure::InvalidIndex,
        ),
        Err(LocalSignerError::Bip39Error(_)) => Err(DerivationFailure::InvalidMnemonic),
        Err(_) => Err(DerivationFailure::InvalidIndex),
    }
}

/// The signer at one index of the derivation tree.
pub(crate) fn derive_account(phrase: &str, index: u32) -> (r: Result<Signer, DerivationFailure>)
    requires
        index < u32::MAX,
    ensures
        r == derived_signer(phrase@, index),
{
    match derive_key(phrase, index) {
        Ok((secret, address)) => Ok(Signer { secret, address: Address { bytes: address } }),
        Err(failure) => Err(failure),
    }
}

/// Derives every index of `[start, end)` on rayon's thread pool, one call of
/// [`derive_account`] for each, and collects the outcomes with `collect`.
///
/// Trusted: rayon's ranges of `u32` are indexed, and collecting an indexed
/// parallel iterator into a `Vec` keeps the order of the range, so the outcome
/// of index `start + k` stands at position `k`.
#[verifier::external_body]
fn derive_each(phrase: &str, start: u32, end: u32) -> (r: Vec<Result<Signer, DerivationFailure>>)
    requires
        start <= end,
    ensures
        r@.len() == end - start,
        forall|k: int|
            0 <= k < r@.len() ==> #[trigger] r@[k] == derived_signer(phrase@, (start + k) as u32),
{
    (start..end).into_par_iter().map(|index| derive_account(phrase, index)).collect()
}

/// Whether `index` is the first of `[start, end)` at which the derivation fails.
pub open spec fn fails_first_at(phrase: Seq<char>, start: u32, end: u32, index: u32) -> bool {
    &&& start <= index < end
    &&& derived_signer(phrase, index) is Err
    &&& forall|j: u32| start <= j < index ==> (#[trigger] derived_signer(phrase, j)) is Ok
}

/// Whether `outcome` is what deriving the indices `[start, end)` under
/// `phrase` yields: an underflowed range is refused, the first failing index
/// fails the whole batch, and otherwise position `k` holds the signer of index
/// `start + k`.
pub open spec fn generated(
    phrase: Seq<char>,
    start: u32,
    end: u32,
    outcome: Result<Vec<Signer>, Error>,
) -> bool {
    if end < start {
        outcome == Err::<Vec<Signer>, Error>(
            Error::Derivation { index: start, failure: DerivationFailure::RangeUnderflow },
        )
    } else {
        match outcome {
            Ok(signers) => {
                &&& signers@.len() == end - start
                &&& forall|k: int|
                    0 <= k < signers@.len() ==> derived_signer(phrase, (start + k) as u32) == Ok::<
                        Signer,
                        DerivationFailure,
                    >(#[trigger] signers@[k])
            },
            Err(e) => exists|index: u32|
                #![trigger derived_signer(phrase, index)]
                {
                    &&& fails_first_at(phrase, start, end, index)
                    &&& e == Error::Derivation {
                        index,
                        failure: derived_signer(phrase, index)->Err_0,
                    }
                },
        }
    }
}

/// Derives the signers of the indices `[start_index, end_index)` from one
/// mnemonic, all or nothing.
///
/// The indices are derived independently of each other, in parallel; the
/// result lists them in the order of the indices.
pub fn generate_accounts(mnemonic: &str, start_index: u32, end_index: u32) -> (r: Result<
    Vec<Signer>,
    Error,
>)
    ensures
        generated(mnemonic@, start_index, end_index, r),
        r is Ok <==> start_index <= end_index && forall|i: u32|
            start_index <= i < end_index ==> (#[trigger] derived_signer(mnemonic@, i)) is Ok,
        r matches Ok(signers) ==> signers@.len() == end_index - start_index,
        start_index == end_index ==> r is Ok && r->Ok_0@.len() == 0,
{
    if end_index < start_index {
        return Err(
            Error::Derivation { index: start_index, failure: DerivationFailure::RangeUnderflow },
        );
    }
    let outcomes = derive_each(mnemonic, start_index, end_index);
    let mut signers: Vec<Signer> = Vec::new();
    let mut k: usize = 0;
    while k < outcomes.len()
        invariant
            start_index <= end_index,
            outcomes@.len() == end_index - start_index,
            forall|n: int|
                0 <= n < outcomes@.len() ==> #[trigger] outcomes@[n] == derived_signer(
                    mnemonic@,
                    (start_index + n) as u32,
                ),
            k <= outcomes@.len(),
            signers@.len() == k,
            forall|n: int|
                0 <= n < k ==> outcomes@[n] == Ok::<Signer, DerivationFailure>(
                    #[trigger] signers@[n],
                ),
        decreases outcomes@.len() - k,
    {
        let index: u32 = start_index + k as u32;
        match outcomes[k] {
            Ok(signer) => {
                signers.push(signer);
            },
            Err(failure) => {
                proof {
                    assert(outcomes@[k as int] == derived_signer(mnemonic@, index));
                    assert forall|j: u32| start_index <= j < index implies (
                    #[trigger] derived_signer(mnemonic@, j)) is Ok by {
                        let n: int = j - start_index;
                        assert(outcomes@[n] == Ok::<Signer, DerivationFailure>(signers@[n]));
                    }
                    assert(fails_first_at(mnemonic@, start_index, end_index, index));
                }
                return Err(Error::Derivation { index, failure });
            },
        }
        k += 1;
    }
    proof {
        assert forall|i: u32| start_index <= i < end_index implies (#[trigger] derived_signer(
            mnemonic@,
            i,
        )) is Ok by {
            let n: int = i - start_index;
            assert(outcomes@[n] == Ok::<Signer, DerivationFailure>(signers@[n]));
        }
    }
    Ok(signers)
}

/// Derivation is a function of the mnemonic and the index range: two outcomes
/// of deriving the same range under the same mnemonic agree, in the signers
/// and their addresses or in the error.
pub proof fn lemma_derivation_is_deterministic(
    phrase: Seq<char>,
    start: u32,
    end: u32,
    first: Result<Vec<Signer>, Error>,
    second: Result<Vec<Signer>, Error>,
)
    requires
        generated(phrase, start, end, first),
        generated(phrase, start, end, second),
    ensures
        first is Ok <==> second is Ok,
        first is Ok ==> first->Ok_0@ =~= second->Ok_0@,
        first is Ok ==> forall|k: int|
            0 <= k < first->Ok_0@.len() ==> derived_address(phrase, (start + k) as u32) == Some(
                #[trigger] first->Ok_0@[k].address(),
            ),
        first is Err ==> first->Err_0 == second->Err_0,
{
    if start <= end {
        match (first, second) {
            (Ok(a), Ok(b)) => {
                assert forall|k: int| 0 <= k < a@.len() implies a@[k] == b@[k] by {
                    assert(derived_signer(phrase, (start + k) as u32) == Ok::<
                        Signer,
                        DerivationFailure,
                    >(a@[k]));
                    assert(derived_signer(phrase, (start + k) as u32) == Ok::<
                        Signer,
                        DerivationFailure,
                    >(b@[k]));
                }
            },
            (Ok(a), Err(e)) => {
                let i: u32 = choose|i: u32| fails_first_at(phrase, start, end, i);
                let n: int = i - start;
                assert(derived_signer(phrase, (start + n) as u32) == Ok::<
                    Signer,
                    DerivationFailure,
                >(a@[n]));
            },
            (Err(e), Ok(b)) => {
                let i: u32 = choose|i: u32| fails_first_at(phrase, start, end, i);
                let n: int = i - start;
                assert(derived_signer(phrase, (start + n) as u32) == Ok::<
                    Signer,
                    DerivationFailure,
                >(b@[n]));
            },
            (Err(e), Err(f)) => {
                let i: u32 = choose|i: u32|
                    #![trigger derived_signer(phrase, i)]
                    fails_first_at(phrase, start, end, i) && e == Error::Derivation {
                        index: i,
                        failure: derived_signer(phrase, i)->Err_0,
                    };
                let j: u32 = choose|j: u32|
                    #![trigger derived_signer(phrase, j)]
                    fails_first_at(phrase, start, end, j) && f == Error::Derivation {
                        index: j,
                        failure: derived_signer(phrase, j)->Err_0,
                    };
                assert(i == j);
            },
        }
    }
}

/// An empty range yields an empty list, whatever the mnemonic.
pub proof fn lemma_empty_range_is_empty(
    phrase: Seq<char>,
    index: u32,
    outcome: Result<Vec<Signer>, Error>,
)
    requires
        generated(phrase, index, index, outcome),
    ensures
        outcome is Ok,
        outcome->Ok_0@ =~= Seq::<Signer>::empty(),
{
    assert(outcome is Ok) by {
        assert(forall|i: u32| !fails_first_at(phrase, index, index, i));
    }
}

} // verus!
