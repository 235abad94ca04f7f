use solana_sdk::signature::Keypair;
use vstd::prelude::*;

use crate::address::Address;
use crate::error::TransferError;

verus! {

/// Length of a signing key pair encoding: a 32-byte secret seed followed by
/// the 32-byte public key derived from it.
pub const KEYPAIR_LEN: usize = 64;

/// Length of the secret seed at the front of a key pair encoding.
pub const SEED_LEN: usize = 32;

#[verifier::external_type_specification]
#[verifier::external_body]
pub struct ExKeypair(Keypair);

#[verifier::external_type_specification]
#[verifier::external_body]
pub struct ExBase58Error(bs58::decode::Error);

/// The bytes that a base-58 text stands for, or `None` where the text holds a
/// character outside the base-58 alphabet.
pub uninterp spec fn base58_bytes_of(s: Seq<char>) -> Option<Seq<u8>>;

/// Whether a byte string is a secret seed followed by the public key that the
/// signing scheme derives from that seed.
pub uninterp spec fn is_keypair_encoding(b: Seq<u8>) -> bool;

/// Relies on `bs58::decode(..).into_vec()`: the bytes a base-58 text encodes,
/// with Bitcoin's alphabet, or an error.
#[verifier::external_body]
fn decode_base58(s: &str) -> (r: Result<Vec<u8>, bs58::decode::Error>)
    ensures
        match r {
            Ok(v) => base58_bytes_of(s@) == Some(v@),
            Err(_) => base58_bytes_of(s@) is None,
        },
{
    bs58::decode(s).into_vec()
}

/// A signing key pair of the outside scheme, with the 64 bytes it was
/// decoded from: a secret seed followed by the public key derived from it.
pub struct SigningPair {
    pair: Keypair,
    encoding: Ghost<Seq<u8>>,
}

impl SigningPair {
    /// The bytes the pair was decoded from.
    pub closed spec fn encoding(&self) -> Seq<u8> {
        self.encoding@
    }

    /// The account the pair signs for: the public half of its encoding.
    pub open spec fn public(&self) -> Seq<u8> {
        self.encoding().subrange(SEED_LEN as int, KEYPAIR_LEN as int)
    }

    /// Whether the pair was decoded from a consistent 64-byte encoding.
    pub open spec fn valid(&self) -> bool {
        &&& self.encoding().len() == KEYPAIR_LEN
        &&& is_keypair_encoding(self.encoding())
    }

    pub(crate) fn keypair(&self) -> &Keypair {
        &self.pair
    }
}

/// Relies on solana_keypair's `Keypair::from_bytes`: it accepts exactly the
/// byte strings whose first 32 bytes are a secret seed and whose next 32 bytes
/// are the public key derived from it (shorter input is refused, and longer
/// input fails the 32-byte public key read), and the pair it returns is the
/// one those bytes encode.
#[verifier::external_body]
#[allow(deprecated)]
fn keypair_from_bytes(b: &[u8]) -> (r: Option<SigningPair>)
    ensures
        r is Some <==> is_keypair_encoding(b@),
        r is Some ==> b@.len() == KEYPAIR_LEN && r->Some_0.encoding() == b@,
{
    match Keypair::from_bytes(b) {
        Ok(pair) => Some(SigningPair { pair, encoding: Ghost(b@) }),
        Err(_) => None,
    }
}

/// The outcome of loading a key pair from its base-58 text: the 64 bytes of
/// the pair it decodes to, or the error.
pub open spec fn load_spec(s: Seq<char>) -> Result<Seq<u8>, TransferError> {
    match base58_bytes_of(s) {
        None => Err(TransferError::InvalidEncoding),
        Some(b) => if b.len() != KEYPAIR_LEN {
            Err(TransferError::InvalidKeyLength)
        } else if !is_keypair_encoding(b) {
            Err(TransferError::KeyConstructionError)
        } else {
            Ok(b)
        },
    }
}

/// A signing key pair together with the account it signs for.
pub struct SenderKeypair {
    pair: SigningPair,
    public: Address,
}

impl View for SenderKeypair {
    type V = Seq<u8>;

    /// The 64-byte encoding of the held key pair.
    closed spec fn view(&self) -> Seq<u8> {
        self.pair.encoding()
    }
}

impl SenderKeypair {
    #[verifier::type_invariant]
    spec fn inv(&self) -> bool {
        &&& self.pair.valid()
        &&& self.public@ == self.pair.public()
    }

    /// The account this key pair signs for: the public half of its encoding.
    pub open spec fn account(&self) -> Seq<u8> {
        self@.subrange(SEED_LEN as int, KEYPAIR_LEN as int)
    }

    /// Decodes a key pair from the base-58 text of its 64-byte encoding.
    /// The pair held is the one the decoded bytes encode, so the result
    /// depends on the text alone.
    pub fn load(encoded: &str) -> (r: Result<SenderKeypair, TransferError>)
        ensures
            match r {
                Ok(k) => load_spec(encoded@) == Ok::<Seq<u8>, TransferError>(k@),
                Err(e) => load_spec(encoded@) == Err::<Seq<u8>, TransferError>(e),
            },
    {
        let bytes = match decode_base58(encoded) {
            Ok(v) => v,
            Err(_) => return Err(TransferError::InvalidEncoding),
        };
        if bytes.len() != KEYPAIR_LEN {
            return Err(TransferError::InvalidKeyLength);
        }
        let pair = match keypair_from_bytes(bytes.as_slice()) {
            Some(p) => p,
            None => return Err(TransferError::KeyConstructionError),
        };
        let mut public = [0u8; 32];
        let mut i: usize = 0;
        while i < 32
            invariant
                bytes@.len() == KEYPAIR_LEN,
                i <= 32,
                forall|j: int| 0 <= j < i ==> public@[j] == bytes@[SEED_LEN + j],
            decreases 32 - i,
        {
            public[i] = bytes[SEED_LEN + i];
            i = i + 1;
        }
        assert(public@ =~= bytes@.subrange(SEED_LEN as int, KEYPAIR_LEN as int));
        Ok(SenderKeypair { pair, public: Address { bytes: public } })
    }

    /// The account this key pair signs for.
    pub fn address(&self) -> (r: Address)
        ensures
            r@ == self.account(),
    {
        proof {
            use_type_invariant(self);
        }
        self.public
    }

    /// The held pair, which is valid and signs for `account()`.
    pub(crate) fn pair(&self) -> (r: &SigningPair)
        ensures
            r.valid(),
            r.encoding() == self@,
            r.public() == self.account(),
    {
        proof {
            use_type_invariant(self);
        }
        &self.pair
    }
}

/// Whatever the bytes hold, a decoded length other than the scheme's fixed
/// length is reported as `InvalidKeyLength`.
pub proof fn lemma_wrong_length_rejected(s: Seq<char>)
    requires
        base58_bytes_of(s) is Some,
        base58_bytes_of(s).unwrap().len() != KEYPAIR_LEN,
    ensures
        load_spec(s) == Err::<Seq<u8>, TransferError>(TransferError::InvalidKeyLength),
{
}

/// Loading is a function of the text: two loads of one text hold the same
/// key pair, which is exactly the 64 decoded bytes.
pub proof fn lemma_load_deterministic(s1: Seq<char>, s2: Seq<char>)
    requires
        s1 == s2,
    ensures
        load_spec(s1) == load_spec(s2),
        load_spec(s1) is Ok ==> load_spec(s1).unwrap() == base58_bytes_of(s1).unwrap(),
{
}

} // verus!
