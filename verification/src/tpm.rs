//! Identity-key capabilities: key management, signing, and random
//! generation, together with the value types they return and the in-memory
//! `Tpm` handle that implements them.

use vstd::prelude::*;
use vstd::slice::slice_to_vec;

use crate::error::{Error, ErrorKind};
use crate::stream::{
    absorb_bytes, absorb_slice, advance_state, keystream, keystream_bytes, step, step_state,
    stream_state,
};

verus! {

/// Length in bytes of every digest a signing operation produces.
pub const DIGEST_LEN: usize = 32;

/// Length in bytes of the exported endorsement and storage root keys.
pub const KEY_LEN: usize = 32;

/// Domain-separation seeds for the module's derivations.
pub const SIGN_SEED: u64 = 0x5163_4E00_1D00_0001;

pub const DERIVE_SEED: u64 = 0x5163_4E00_1D00_0002;

pub const EK_SEED: u64 = 0x5163_4E00_1D00_0003;

pub const SRK_SEED: u64 = 0x5163_4E00_1D00_0004;

/// Opaque handle for a key held by the module (endorsement key or storage
/// root key). It carries only whatever public or wrapped form the module is
/// willing to export, never raw private scalar material.
#[derive(Debug)]
pub struct TpmKey {
    bytes: Vec<u8>,
}

impl View for TpmKey {
    type V = Seq<u8>;

    closed spec fn view(&self) -> Seq<u8> {
        self.bytes@
    }
}

impl TpmKey {
    pub fn new(bytes: Vec<u8>) -> (k: TpmKey)
        ensures
            k@ == bytes@,
    {
        TpmKey { bytes }
    }

    pub fn bytes(&self) -> (b: &Vec<u8>)
        ensures
            b@ == self@,
    {
        &self.bytes
    }

    pub fn len(&self) -> (n: usize)
        ensures
            n == self@.len(),
    {
        self.bytes.len()
    }
}

/// Digest produced by a signing operation; immutable once produced.
#[derive(Debug)]
pub struct TpmDigest {
    bytes: Vec<u8>,
}

impl View for TpmDigest {
    type V = Seq<u8>;

    closed spec fn view(&self) -> Seq<u8> {
        self.bytes@
    }
}

impl TpmDigest {
    pub fn new(bytes: Vec<u8>) -> (d: TpmDigest)
        ensures
            d@ == bytes@,
    {
        TpmDigest { bytes }
    }

    pub fn bytes(&self) -> (b: &Vec<u8>)
        ensures
            b@ == self@,
    {
        &self.bytes
    }

    pub fn len(&self) -> (n: usize)
        ensures
            n == self@.len(),
    {
        self.bytes.len()
    }
}

/// Key-management capability: activate an identity key and query the
/// module's anchoring keys. The queries are read-only; activation either
/// installs exactly the blob handed in or leaves the module untouched.
pub trait ManageTpmKeys: Sized {
    /// Whether the module accepts this activation blob as well formed.
    spec fn blob_accepted(&self, blob: Seq<u8>) -> bool;

    /// The identity blob currently installed, if any.
    spec fn installed_identity(&self) -> Option<Seq<u8>>;

    /// Whether an endorsement key is available to export.
    spec fn ek_available(&self) -> bool;

    /// The exported form of the endorsement key.
    spec fn endorsement_key(&self) -> Seq<u8>;

    /// Whether a storage root key is available to export.
    spec fn srk_available(&self) -> bool;

    /// The exported form of the storage root key.
    spec fn storage_root_key(&self) -> Seq<u8>;

    fn activate_identity_key(&mut self, key: &[u8]) -> (r: Result<(), Error>)
        ensures
            r is Ok <==> old(self).blob_accepted(key@),
            r is Ok ==> final(self).installed_identity() == Some(key@),
            r is Ok ==> final(self).endorsement_key() == old(self).endorsement_key()
                && final(self).storage_root_key() == old(self).storage_root_key()
                && final(self).ek_available() == old(self).ek_available()
                && final(self).srk_available() == old(self).srk_available(),
            r is Err ==> *final(self) == *old(self),
            r matches Err(e) ==> e.kind_spec() == ErrorKind::InvalidInput,
    ;

    fn get_ek(&self) -> (r: Result<TpmKey, Error>)
        ensures
            r is Ok <==> self.ek_available(),
            r matches Ok(k) ==> k@ == self.endorsement_key(),
            r matches Err(e) ==> e.kind_spec() == ErrorKind::KeyNotFound,
    ;

    fn get_srk(&self) -> (r: Result<TpmKey, Error>)
        ensures
            r is Ok <==> self.srk_available(),
            r matches Ok(k) ==> k@ == self.storage_root_key(),
            r matches Err(e) ==> e.kind_spec() == ErrorKind::KeyNotFound,
    ;
}

/// Signing capability over a previously activated identity key.
pub trait SignWithTpm: Sized {
    /// Whether an identity key has been activated for signing.
    spec fn signing_ready(&self) -> bool;

    /// The digest the module produces over `data` with the activated
    /// identity; signing is a function of the module state and the message.
    spec fn identity_signature(&self, data: Seq<u8>) -> Seq<u8>;

    /// The digest produced after deriving a subordinate signing context
    /// from `identity`; only the digest crosses the boundary.
    spec fn derived_identity_signature(&self, data: Seq<u8>, identity: Seq<u8>) -> Seq<u8>;

    fn sign_with_identity(&self, data: &[u8]) -> (r: Result<TpmDigest, Error>)
        ensures
            r is Ok <==> self.signing_ready(),
            r matches Ok(d) ==> d@ == self.identity_signature(data@) && d@.len() > 0,
            r matches Err(e) ==> e.kind_spec() == ErrorKind::KeyNotFound,
    ;

    fn derive_and_sign_with_identity(&self, data: &[u8], identity: &[u8]) -> (r: Result<
        TpmDigest,
        Error,
    >)
        ensures
            r is Ok <==> self.signing_ready(),
            r matches Ok(d) ==> d@ == self.derived_identity_signature(data@, identity@)
                && d@.len() > 0,
            r matches Err(e) ==> e.kind_spec() == ErrorKind::KeyNotFound,
    ;
}

/// Random-generation capability: fill a caller-supplied buffer from the
/// module's entropy source. The buffer is either filled completely from the
/// entropy stream or left exactly as it was — a partial fill is never a
/// success state.
pub trait MakeRandom: Sized {
    /// Whether the module can serve `n` bytes of entropy in this state.
    spec fn entropy_ok(&self, n: nat) -> bool;

    /// The `n` bytes the module serves from its current entropy state.
    spec fn entropy_stream(&self, n: nat) -> Seq<u8>;

    /// The module state after serving `n` bytes.
    spec fn after_entropy(&self, n: nat) -> Self;

    fn get_random_bytes(&mut self, buffer: &mut Vec<u8>) -> (r: Result<(), Error>)
        ensures
            r is Ok <==> old(self).entropy_ok(old(buffer)@.len() as nat),
            r is Ok ==> final(buffer)@.len() == old(buffer)@.len(),
            r is Ok ==> final(buffer)@ == old(self).entropy_stream(old(buffer)@.len() as nat),
            r is Ok ==> *final(self) == old(self).after_entropy(old(buffer)@.len() as nat),
            r is Err ==> *final(buffer) == *old(buffer) && *final(self) == *old(self),
            r matches Err(e) ==> e.kind_spec() == ErrorKind::ModuleUnavailable,
    ;
}

/// In-memory module handle backing the identity-key capabilities. Its
/// endorsement and storage root keys are fixed public derivations; the
/// identity key starts absent and is installed by activation; entropy is a
/// deterministic expansion of a caller-chosen seed state.
pub struct Tpm {
    identity_key: Option<Vec<u8>>,
    ek: Vec<u8>,
    srk: Vec<u8>,
    rng_state: u64,
}

impl Tpm {
    /// The identity blob currently installed.
    pub closed spec fn identity_key_spec(&self) -> Option<Seq<u8>> {
        match self.identity_key {
            Some(k) => Some(k@),
            None => None,
        }
    }

    /// The current entropy state.
    pub closed spec fn rng_state_spec(&self) -> u64 {
        self.rng_state
    }

    /// Whether a digest verifies against the activated identity: with a
    /// deterministic scheme this means it is exactly the module's signature
    /// over the data.
    pub open spec fn signature_valid(&self, data: Seq<u8>, digest: Seq<u8>) -> bool {
        digest == self.identity_signature(data)
    }

    /// A fresh handle: no identity activated, anchoring keys provisioned,
    /// entropy state seeded by the caller.
    pub fn new(entropy_seed: u64) -> (t: Tpm)
        ensures
            t.identity_key_spec() is None,
            !t.signing_ready(),
            t.ek_available() && t.srk_available(),
            t.endorsement_key() == keystream(EK_SEED, KEY_LEN as nat),
            t.storage_root_key() == keystream(SRK_SEED, KEY_LEN as nat),
            t.rng_state_spec() == entropy_seed,
            forall|n: nat| t.entropy_ok(n),
    {
        Tpm {
            identity_key: None,
            ek: keystream_bytes(EK_SEED, KEY_LEN),
            srk: keystream_bytes(SRK_SEED, KEY_LEN),
            rng_state: entropy_seed,
        }
    }
}

impl ManageTpmKeys for Tpm {
    /// A blob is well formed exactly when it is non-empty.
    open spec fn blob_accepted(&self, blob: Seq<u8>) -> bool {
        blob.len() > 0
    }

    closed spec fn installed_identity(&self) -> Option<Seq<u8>> {
        self.identity_key_spec()
    }

    closed spec fn ek_available(&self) -> bool {
        true
    }

    closed spec fn endorsement_key(&self) -> Seq<u8> {
        self.ek@
    }

    closed spec fn srk_available(&self) -> bool {
        true
    }

    closed spec fn storage_root_key(&self) -> Seq<u8> {
        self.srk@
    }

    fn activate_identity_key(&mut self, key: &[u8]) -> (r: Result<(), Error>) {
        if key.len() == 0 {
            return Err(Error::new(ErrorKind::InvalidInput));
        }
        self.identity_key = Some(slice_to_vec(key));
        Ok(())
    }

    fn get_ek(&self) -> (r: Result<TpmKey, Error>) {
        Ok(TpmKey::new(slice_to_vec(self.ek.as_slice())))
    }

    fn get_srk(&self) -> (r: Result<TpmKey, Error>) {
        Ok(TpmKey::new(slice_to_vec(self.srk.as_slice())))
    }
}

impl SignWithTpm for Tpm {
    closed spec fn signing_ready(&self) -> bool {
        self.identity_key is Some
    }

    closed spec fn identity_signature(&self, data: Seq<u8>) -> Seq<u8> {
        keystream(
            absorb_bytes(absorb_bytes(SIGN_SEED, self.identity_key_spec().unwrap()), data),
            DIGEST_LEN as nat,
        )
    }

    closed spec fn derived_identity_signature(&self, data: Seq<u8>, identity: Seq<u8>) -> Seq<
        u8,
    > {
        keystream(
            absorb_bytes(
                absorb_bytes(
                    absorb_bytes(DERIVE_SEED, self.identity_key_spec().unwrap()),
                    identity,
                ),
                data,
            ),
            DIGEST_LEN as nat,
        )
    }

    fn sign_with_identity(&self, data: &[u8]) -> (r: Result<TpmDigest, Error>) {
        match &self.identity_key {
            Some(k) => {
                let seed = absorb_slice(SIGN_SEED, k.as_slice());
                let seed = absorb_slice(seed, data);
                Ok(TpmDigest::new(keystream_bytes(seed, DIGEST_LEN)))
            },
            None => Err(Error::new(ErrorKind::KeyNotFound)),
        }
    }

    fn derive_and_sign_with_identity(&self, data: &[u8], identity: &[u8]) -> (r: Result<
        TpmDigest,
        Error,
    >) {
        match &self.identity_key {
            Some(k) => {
                let seed = absorb_slice(DERIVE_SEED, k.as_slice());
                let seed = absorb_slice(seed, identity);
                let seed = absorb_slice(seed, data);
                Ok(TpmDigest::new(keystream_bytes(seed, DIGEST_LEN)))
            },
            None => Err(Error::new(ErrorKind::KeyNotFound)),
        }
    }
}

impl MakeRandom for Tpm {
    closed spec fn entropy_ok(&self, n: nat) -> bool {
        true
    }

    closed spec fn entropy_stream(&self, n: nat) -> Seq<u8> {
        keystream(self.rng_state, n)
    }

    closed spec fn after_entropy(&self, n: nat) -> Tpm {
        Tpm {
            identity_key: self.identity_key,
            ek: self.ek,
            srk: self.srk,
            rng_state: step(stream_state(self.rng_state, n)),
        }
    }

    fn get_random_bytes(&mut self, buffer: &mut Vec<u8>) -> (r: Result<(), Error>) {
        let n = buffer.len();
        let filled = keystream_bytes(self.rng_state, n);
        self.rng_state = step_state(advance_state(self.rng_state, n));
        *buffer = filled;
        Ok(())
    }
}

/// Signing is gated by activation: a handle without an installed identity
/// refuses to sign, and any handle with one signs successfully, producing a
/// digest of the fixed non-zero length.
pub proof fn lemma_signing_follows_activation(t: Tpm, data: Seq<u8>)
    ensures
        t.installed_identity() is None ==> !t.signing_ready(),
        t.installed_identity() is Some ==> t.signing_ready(),
        t.signing_ready() ==> t.identity_signature(data).len() == DIGEST_LEN,
{
}

/// The handle's entropy source never refuses a request, and it serves
/// exactly the requested number of bytes — a partial fill cannot happen.
pub proof fn lemma_entropy_always_available(t: Tpm, n: nat)
    ensures
        t.entropy_ok(n),
        t.entropy_stream(n).len() == n,
{
}

/// Signing is deterministic in the module state and the message: two
/// signatures over the same data under the same activated identity agree,
/// are non-empty, and each verifies against that identity.
pub proof fn lemma_sign_deterministic(t: Tpm, data: Seq<u8>, d1: Seq<u8>, d2: Seq<u8>)
    requires
        t.signing_ready(),
        d1 == t.identity_signature(data),
        d2 == t.identity_signature(data),
    ensures
        d1 == d2,
        d1.len() > 0,
        t.signature_valid(data, d1),
        t.signature_valid(data, d2),
{
}

} // verus!
