//! Crypto capabilities: master-key lifecycle, certificate creation, and
//! client-scoped symmetric encryption and decryption, together with their
//! value types and the in-memory `Crypto` handle that implements them.

use vstd::prelude::*;
use vstd::bytes::{spec_u64_to_le_bytes, u64_to_le_bytes};

use crate::error::{Error, ErrorKind};
use crate::seal::{
    is_sealed, lemma_accepted_buffers_are_seals, lemma_seal_mismatch_rejected,
    lemma_seal_round_trip, open_bytes, open_err, opt_len, opt_view, seal, seal_bytes, unseal,
};
use crate::stream::{absorb_bytes, absorb_slice, keystream, keystream_bytes};

verus! {

/// Length in bytes of an issued certificate's authority tag and of the
/// wrapped private key handed back with it.
pub const CERT_TAG_LEN: usize = 32;

/// Domain-separation seeds for the certificate authority's derivations.
pub const CERT_SEED: u64 = 0x5163_4E00_1D00_0005;

pub const CERT_KEY_SEED: u64 = 0x5163_4E00_1D00_0006;

/// Closed set of issued-certificate kinds; governs which attributes a
/// request may carry.
#[derive(Clone, Copy, Debug, PartialEq, Eq, Structural)]
pub enum CertificateType {
    Client,
    Server,
    Ca,
}

/// Numeric code under which a certificate kind is recorded in issued bytes.
pub open spec fn type_code(t: CertificateType) -> u64 {
    match t {
        CertificateType::Client => 1,
        CertificateType::Server => 2,
        CertificateType::Ca => 3,
    }
}

/// Input descriptor for certificate issuance: the identity attributes the
/// module uses to construct a certificate, immutable once built.
#[derive(Debug)]
pub struct CertificateProperties {
    common_name: String,
    validity_in_secs: u64,
    certificate_type: CertificateType,
    ca_path_length: Option<u64>,
}

impl CertificateProperties {
    pub closed spec fn common_name_spec(&self) -> Seq<char> {
        self.common_name@
    }

    pub closed spec fn validity_spec(&self) -> u64 {
        self.validity_in_secs
    }

    pub closed spec fn type_spec(&self) -> CertificateType {
        self.certificate_type
    }

    pub closed spec fn ca_path_spec(&self) -> Option<u64> {
        self.ca_path_length
    }

    /// Whether the requested attributes are mutually consistent: a subject
    /// name is present, the validity window is non-empty, and a CA path
    /// length is requested only for a CA certificate.
    pub open spec fn consistent(&self) -> bool {
        &&& self.common_name_spec().len() > 0
        &&& self.validity_spec() > 0
        &&& (self.ca_path_spec() is Some ==> self.type_spec() == CertificateType::Ca)
    }

    pub fn new(
        common_name: String,
        validity_in_secs: u64,
        certificate_type: CertificateType,
        ca_path_length: Option<u64>,
    ) -> (p: CertificateProperties)
        ensures
            p.common_name_spec() == common_name@,
            p.validity_spec() == validity_in_secs,
            p.type_spec() == certificate_type,
            p.ca_path_spec() == ca_path_length,
    {
        CertificateProperties { common_name, validity_in_secs, certificate_type, ca_path_length }
    }

    pub fn common_name(&self) -> (n: &String)
        ensures
            n@ == self.common_name_spec(),
    {
        &self.common_name
    }

    pub fn validity_in_secs(&self) -> (v: u64)
        ensures
            v == self.validity_spec(),
    {
        self.validity_in_secs
    }

    pub fn certificate_type(&self) -> (t: CertificateType)
        ensures
            t == self.type_spec(),
    {
        self.certificate_type
    }

    pub fn ca_path_length(&self) -> (l: Option<u64>)
        ensures
            l == self.ca_path_spec(),
    {
        self.ca_path_length
    }
}

/// Wrapped private key material whose ownership transfers to the caller.
#[derive(Debug)]
pub struct PrivateKey {
    bytes: Vec<u8>,
}

impl View for PrivateKey {
    type V = Seq<u8>;

    closed spec fn view(&self) -> Seq<u8> {
        self.bytes@
    }
}

impl PrivateKey {
    pub fn new(bytes: Vec<u8>) -> (k: PrivateKey)
        ensures
            k@ == bytes@,
    {
        PrivateKey { bytes }
    }

    pub fn bytes(&self) -> (b: &Vec<u8>)
        ensures
            b@ == self@,
    {
        &self.bytes
    }
}

/// Result of certificate creation: the certificate bytes paired with enough
/// metadata to hand to a caller without re-querying the module.
#[derive(Debug)]
pub struct HsmCertificate {
    data: Vec<u8>,
    certificate_type: CertificateType,
    validity_in_secs: u64,
    common_name: String,
    private_key: PrivateKey,
}

impl HsmCertificate {
    pub closed spec fn data_spec(&self) -> Seq<u8> {
        self.data@
    }

    pub closed spec fn type_spec(&self) -> CertificateType {
        self.certificate_type
    }

    pub closed spec fn validity_spec(&self) -> u64 {
        self.validity_in_secs
    }

    pub closed spec fn common_name_spec(&self) -> Seq<char> {
        self.common_name@
    }

    pub closed spec fn private_key_spec(&self) -> Seq<u8> {
        self.private_key@
    }

    pub fn new(
        data: Vec<u8>,
        certificate_type: CertificateType,
        validity_in_secs: u64,
        common_name: String,
        private_key: PrivateKey,
    ) -> (c: HsmCertificate)
        ensures
            c.data_spec() == data@,
            c.type_spec() == certificate_type,
            c.validity_spec() == validity_in_secs,
            c.common_name_spec() == common_name@,
            c.private_key_spec() == private_key@,
    {
        HsmCertificate { data, certificate_type, validity_in_secs, common_name, private_key }
    }

    pub fn data(&self) -> (d: &Vec<u8>)
        ensures
            d@ == self.data_spec(),
    {
        &self.data
    }

    pub fn certificate_type(&self) -> (t: CertificateType)
        ensures
            t == self.type_spec(),
    {
        self.certificate_type
    }

    pub fn validity_in_secs(&self) -> (v: u64)
        ensures
            v == self.validity_spec(),
    {
        self.validity_in_secs
    }

    pub fn common_name(&self) -> (n: &String)
        ensures
            n@ == self.common_name_spec(),
    {
        &self.common_name
    }

    pub fn private_key(&self) -> (k: &PrivateKey)
        ensures
            k@ == self.private_key_spec(),
    {
        &self.private_key
    }
}

/// Opaque container for ciphertext produced by an encrypt operation.
#[derive(Debug)]
pub struct EncryptedBuffer {
    bytes: Vec<u8>,
}

impl View for EncryptedBuffer {
    type V = Seq<u8>;

    closed spec fn view(&self) -> Seq<u8> {
        self.bytes@
    }
}

impl EncryptedBuffer {
    pub fn new(bytes: Vec<u8>) -> (b: EncryptedBuffer)
        ensures
            b@ == bytes@,
    {
        EncryptedBuffer { bytes }
    }

    pub fn bytes(&self) -> (b: &Vec<u8>)
        ensures
            b@ == self@,
    {
        &self.bytes
    }

    pub fn len(&self) -> (n: usize)
        ensures
            n == self@.len(),
    {
        self.bytes.len()
    }
}

/// Opaque container for plaintext recovered by a decrypt operation.
#[derive(Debug)]
pub struct DecryptedBuffer {
    bytes: Vec<u8>,
}

impl View for DecryptedBuffer {
    type V = Seq<u8>;

    closed spec fn view(&self) -> Seq<u8> {
        self.bytes@
    }
}

impl DecryptedBuffer {
    pub fn new(bytes: Vec<u8>) -> (b: DecryptedBuffer)
        ensures
            b@ == bytes@,
    {
        DecryptedBuffer { bytes }
    }

    pub fn bytes(&self) -> (b: &Vec<u8>)
        ensures
            b@ == self@,
    {
        &self.bytes
    }

    pub fn len(&self) -> (n: usize)
        ensures
            n == self@.len(),
    {
        self.bytes.len()
    }
}

/// Master-key creation capability. Creating over an existing key is refused
/// by this interface's policy: a provisioning lifetime creates the key at
/// most once, and re-creating after a destroy rotates to a fresh key.
pub trait CreateMasterEncryptionKey: Sized {
    /// Whether a master key can be created in this state.
    spec fn can_create_master(&self) -> bool;

    /// Whether a usable master key is present.
    spec fn master_ready(&self) -> bool;

    fn create_master_encryption_key(&mut self) -> (r: Result<(), Error>)
        ensures
            r is Ok <==> old(self).can_create_master(),
            r is Ok ==> final(self).master_ready(),
            r is Err ==> *final(self) == *old(self),
            r matches Err(e) ==> e.kind_spec() == ErrorKind::ModuleFailure,
    ;
}

/// Master-key destruction capability: success renders the key permanently
/// unusable, so operations that depended on it fail afterwards instead of
/// silently succeeding with stale material.
pub trait DestroyMasterEncryptionKey: Sized {
    /// Whether no usable master key remains.
    spec fn master_destroyed(&self) -> bool;

    fn destroy_master_encryption_key(&mut self) -> (r: Result<(), Error>)
        ensures
            r is Ok,
            final(self).master_destroyed(),
    ;
}

/// Certificate-issuance capability: a pure function of the requested
/// properties plus the module-internal signing authority. Inconsistent
/// properties are refused with a validation error, never silently
/// downgraded.
pub trait CreateCertificate: Sized {
    /// The certificate bytes the module issues for these properties.
    spec fn certificate_body(&self, properties: CertificateProperties) -> Seq<u8>;

    /// The wrapped private key the module hands back with the certificate.
    spec fn certificate_key(&self, properties: CertificateProperties) -> Seq<u8>;

    fn create_certificate(&self, properties: &CertificateProperties) -> (r: Result<
        HsmCertificate,
        Error,
    >)
        ensures
            r is Ok <==> properties.consistent(),
            r matches Ok(c) ==> c.type_spec() == properties.type_spec()
                && c.validity_spec() == properties.validity_spec()
                && c.common_name_spec() == properties.common_name_spec()
                && c.data_spec() == self.certificate_body(*properties)
                && c.private_key_spec() == self.certificate_key(*properties),
            r matches Err(e) ==> e.kind_spec() == ErrorKind::InvalidInput,
    ;
}

/// Client-scoped symmetric encryption. The client id selects the key
/// namespace; the optional passphrase is supplementary derivation material
/// and its absence is treated the same on both sides; the initialization
/// vector is caller-managed and must not be reused across independent
/// encryptions under one key — that duty stays with the caller.
pub trait EncryptData: Sized {
    /// Whether a master key is available to encrypt under.
    spec fn encryption_ready(&self) -> bool;

    /// The ciphertext produced for these parameters in this state.
    spec fn encrypted(
        &self,
        cid: Seq<u8>,
        plaintext: Seq<u8>,
        pass: Option<Seq<u8>>,
        iv: Seq<u8>,
    ) -> Seq<u8>;

    fn encrypt(
        &self,
        client_id: &[u8],
        plaintext: &[u8],
        passphrase: Option<&[u8]>,
        initialization_vector: &[u8],
    ) -> (r: Result<EncryptedBuffer, Error>)
        requires
            40 + client_id@.len() + opt_len(opt_view(passphrase)) + initialization_vector@.len()
                + plaintext@.len() <= usize::MAX,
        ensures
            r is Ok <==> self.encryption_ready(),
            r matches Ok(b) ==> b@ == self.encrypted(
                client_id@,
                plaintext@,
                opt_view(passphrase),
                initialization_vector@,
            ),
            r matches Err(e) ==> e.kind_spec() == ErrorKind::KeyNotFound,
    ;
}

/// Client-scoped symmetric decryption: succeeds exactly on ciphertext
/// produced under the same client id, passphrase, and iv while the same
/// master key is live, and never hands back partially or wrongly decrypted
/// plaintext on failure.
pub trait DecryptData: Sized {
    /// Whether a master key is available to decrypt under.
    spec fn decryption_ready(&self) -> bool;

    /// Whether this ciphertext opens under these parameters in this state.
    spec fn decryptable(
        &self,
        cid: Seq<u8>,
        ciphertext: Seq<u8>,
        pass: Option<Seq<u8>>,
        iv: Seq<u8>,
    ) -> bool;

    /// The plaintext recovered when it does.
    spec fn decrypted(
        &self,
        cid: Seq<u8>,
        ciphertext: Seq<u8>,
        pass: Option<Seq<u8>>,
        iv: Seq<u8>,
    ) -> Seq<u8>;

    /// The failure category reported when it does not: a missing master key
    /// is distinguished from a malformed buffer and from a parameter
    /// mismatch.
    spec fn decrypt_failure(
        &self,
        cid: Seq<u8>,
        ciphertext: Seq<u8>,
        pass: Option<Seq<u8>>,
        iv: Seq<u8>,
    ) -> ErrorKind;

    fn decrypt(
        &self,
        client_id: &[u8],
        ciphertext: &[u8],
        passphrase: Option<&[u8]>,
        initialization_vector: &[u8],
    ) -> (r: Result<DecryptedBuffer, Error>)
        ensures
            r is Ok <==> self.decryptable(
                client_id@,
                ciphertext@,
                opt_view(passphrase),
                initialization_vector@,
            ),
            r matches Ok(d) ==> d@ == self.decrypted(
                client_id@,
                ciphertext@,
                opt_view(passphrase),
                initialization_vector@,
            ),
            r matches Err(e) ==> e.kind_spec() == self.decrypt_failure(
                client_id@,
                ciphertext@,
                opt_view(passphrase),
                initialization_vector@,
            ),
            !self.decryption_ready() ==> (r matches Err(e) && e.kind_spec()
                == ErrorKind::KeyNotFound),
    ;
}

/// In-memory module handle backing the crypto capabilities. The master key
/// is modelled by its generation number; destroying it removes the
/// generation, and re-creating rotates to a fresh one, so buffers sealed
/// under a destroyed key are never accepted again.
pub struct Crypto {
    master: Option<u64>,
    next_generation: u64,
}

impl Crypto {
    /// The generation of the live master key, if one is present.
    pub closed spec fn master_generation(&self) -> Option<u64> {
        self.master
    }

    /// The generation the next created master key will receive.
    pub closed spec fn next_generation_spec(&self) -> u64 {
        self.next_generation
    }

    /// A fresh handle with no master key yet.
    pub fn new() -> (c: Crypto)
        ensures
            c.master_generation() is None,
            c.master_destroyed(),
            !c.encryption_ready(),
            c.can_create_master(),
            c.next_generation_spec() == 0,
    {
        Crypto { master: None, next_generation: 0 }
    }
}

impl CreateMasterEncryptionKey for Crypto {
    closed spec fn can_create_master(&self) -> bool {
        self.master is None && self.next_generation < u64::MAX
    }

    closed spec fn master_ready(&self) -> bool {
        self.master is Some
    }

    fn create_master_encryption_key(&mut self) -> (r: Result<(), Error>) {
        match self.master {
            Some(_) => Err(Error::new(ErrorKind::ModuleFailure)),
            None => {
                if self.next_generation == u64::MAX {
                    return Err(Error::new(ErrorKind::ModuleFailure));
                }
                self.master = Some(self.next_generation);
                self.next_generation = self.next_generation + 1;
                Ok(())
            },
        }
    }
}

impl DestroyMasterEncryptionKey for Crypto {
    closed spec fn master_destroyed(&self) -> bool {
        self.master is None
    }

    fn destroy_master_encryption_key(&mut self) -> (r: Result<(), Error>) {
        self.master = None;
        Ok(())
    }
}

impl CreateCertificate for Crypto {
    closed spec fn certificate_body(&self, properties: CertificateProperties) -> Seq<u8> {
        let head = spec_u64_to_le_bytes(properties.validity_spec()) + spec_u64_to_le_bytes(
            type_code(properties.type_spec()),
        );
        head + keystream(absorb_bytes(CERT_SEED, head), CERT_TAG_LEN as nat)
    }

    closed spec fn certificate_key(&self, properties: CertificateProperties) -> Seq<u8> {
        let head = spec_u64_to_le_bytes(properties.validity_spec()) + spec_u64_to_le_bytes(
            type_code(properties.type_spec()),
        );
        keystream(absorb_bytes(CERT_KEY_SEED, head), CERT_TAG_LEN as nat)
    }

    fn create_certificate(&self, properties: &CertificateProperties) -> (r: Result<
        HsmCertificate,
        Error,
    >) {
        if properties.common_name.as_str().is_empty() {
            return Err(Error::new(ErrorKind::InvalidInput));
        }
        if properties.validity_in_secs == 0 {
            return Err(Error::new(ErrorKind::InvalidInput));
        }
        match properties.ca_path_length {
            Some(_) => {
                if properties.certificate_type != CertificateType::Ca {
                    return Err(Error::new(ErrorKind::InvalidInput));
                }
            },
            None => {},
        }
        let code: u64 = match properties.certificate_type {
            CertificateType::Client => 1,
            CertificateType::Server => 2,
            CertificateType::Ca => 3,
        };
        let mut head = u64_to_le_bytes(properties.validity_in_secs);
        let mut field = u64_to_le_bytes(code);
        head.append(&mut field);
        let body_seed = absorb_slice(CERT_SEED, head.as_slice());
        let key_seed = absorb_slice(CERT_KEY_SEED, head.as_slice());
        let mut tag = keystream_bytes(body_seed, CERT_TAG_LEN);
        let key = keystream_bytes(key_seed, CERT_TAG_LEN);
        let mut data = head;
        data.append(&mut tag);
        Ok(
            HsmCertificate::new(
                data,
                properties.certificate_type,
                properties.validity_in_secs,
                properties.common_name.clone(),
                PrivateKey::new(key),
            ),
        )
    }
}

impl EncryptData for Crypto {
    closed spec fn encryption_ready(&self) -> bool {
        self.master is Some
    }

    closed spec fn encrypted(
        &self,
        cid: Seq<u8>,
        plaintext: Seq<u8>,
        pass: Option<Seq<u8>>,
        iv: Seq<u8>,
    ) -> Seq<u8> {
        seal(self.master.unwrap(), cid, pass, iv, plaintext)
    }

    fn encrypt(
        &self,
        client_id: &[u8],
        plaintext: &[u8],
        passphrase: Option<&[u8]>,
        initialization_vector: &[u8],
    ) -> (r: Result<EncryptedBuffer, Error>) {
        match self.master {
            Some(g) => Ok(
                EncryptedBuffer::new(
                    seal_bytes(g, client_id, passphrase, initialization_vector, plaintext),
                ),
            ),
            None => Err(Error::new(ErrorKind::KeyNotFound)),
        }
    }
}

impl DecryptData for Crypto {
    closed spec fn decryption_ready(&self) -> bool {
        self.master is Some
    }

    closed spec fn decryptable(
        &self,
        cid: Seq<u8>,
        ciphertext: Seq<u8>,
        pass: Option<Seq<u8>>,
        iv: Seq<u8>,
    ) -> bool {
        self.master matches Some(g) && is_sealed(g, cid, pass, iv, ciphertext)
    }

    closed spec fn decrypted(
        &self,
        cid: Seq<u8>,
        ciphertext: Seq<u8>,
        pass: Option<Seq<u8>>,
        iv: Seq<u8>,
    ) -> Seq<u8> {
        unseal(ciphertext)
    }

    closed spec fn decrypt_failure(
        &self,
        cid: Seq<u8>,
        ciphertext: Seq<u8>,
        pass: Option<Seq<u8>>,
        iv: Seq<u8>,
    ) -> ErrorKind {
        match self.master {
            Some(g) => open_err(g, ciphertext),
            None => ErrorKind::KeyNotFound,
        }
    }

    fn decrypt(
        &self,
        client_id: &[u8],
        ciphertext: &[u8],
        passphrase: Option<&[u8]>,
        initialization_vector: &[u8],
    ) -> (r: Result<DecryptedBuffer, Error>) {
        match self.master {
            Some(g) => {
                match open_bytes(
                    g,
                    client_id,
                    passphrase,
                    initialization_vector,
                    ciphertext,
                ) {
                    Ok(p) => Ok(DecryptedBuffer::new(p)),
                    Err(e) => Err(e),
                }
            },
            None => Err(Error::new(ErrorKind::KeyNotFound)),
        }
    }
}

/// The master-key lifecycle gates the data path: encryption and decryption
/// are available exactly while a master key is present, and a destroyed key
/// is exactly an absent one.
pub proof fn lemma_master_key_gates_data_path(c: Crypto)
    ensures
        c.master_ready() == c.encryption_ready(),
        c.master_ready() == c.decryption_ready(),
        c.master_destroyed() == !c.master_ready(),
        c.master_ready() == (c.master_generation() is Some),
{
}

/// Round trip: ciphertext produced under a live master key decrypts to
/// exactly the original plaintext under the same client id, passphrase, and
/// iv, for plaintext of any length.
pub proof fn lemma_encrypt_decrypt_round_trip(
    c: Crypto,
    g: u64,
    cid: Seq<u8>,
    p: Seq<u8>,
    pass: Option<Seq<u8>>,
    iv: Seq<u8>,
)
    requires
        c.master_generation() == Some(g),
        40 + cid.len() + opt_len(pass) + iv.len() <= u64::MAX,
    ensures
        c.decryptable(cid, c.encrypted(cid, p, pass, iv), pass, iv),
        c.decrypted(cid, c.encrypted(cid, p, pass, iv), pass, iv) == p,
{
    lemma_seal_round_trip(g, cid, pass, iv, p);
}

/// Mismatch rejection: decrypting with a different client id, passphrase,
/// or iv than was used at encryption fails; altered plaintext is never
/// returned.
pub proof fn lemma_mismatched_parameters_rejected(
    c: Crypto,
    g: u64,
    cid: Seq<u8>,
    p: Seq<u8>,
    pass: Option<Seq<u8>>,
    iv: Seq<u8>,
    cid2: Seq<u8>,
    pass2: Option<Seq<u8>>,
    iv2: Seq<u8>,
)
    requires
        c.master_generation() == Some(g),
        40 + cid.len() + opt_len(pass) + iv.len() <= u64::MAX,
        !(cid2 == cid && pass2 == pass && iv2 == iv),
    ensures
        !c.decryptable(cid2, c.encrypted(cid, p, pass, iv), pass2, iv2),
{
    lemma_seal_mismatch_rejected(g, cid, pass, iv, p, g, cid2, pass2, iv2);
}

/// Decryption accepts nothing outside the image of encryption: a buffer it
/// opens under given parameters is exactly the encryption, in the same
/// state, of the plaintext it returns — altered plaintext is never handed
/// back.
pub proof fn lemma_decryptable_buffers_are_encryptions(
    c: Crypto,
    g: u64,
    cid: Seq<u8>,
    buf: Seq<u8>,
    pass: Option<Seq<u8>>,
    iv: Seq<u8>,
)
    requires
        c.master_generation() == Some(g),
        40 + cid.len() + opt_len(pass) + iv.len() <= u64::MAX,
        c.decryptable(cid, buf, pass, iv),
    ensures
        buf == c.encrypted(cid, c.decrypted(cid, buf, pass, iv), pass, iv),
{
    lemma_accepted_buffers_are_seals(g, cid, pass, iv, buf);
}

/// A destroyed master key is unusable: once no master key is present, every
/// encrypt is refused and every decrypt fails with a key-not-found error.
pub proof fn lemma_destroyed_master_key_unusable(
    c: Crypto,
    cid: Seq<u8>,
    buf: Seq<u8>,
    pass: Option<Seq<u8>>,
    iv: Seq<u8>,
)
    requires
        c.master_destroyed(),
    ensures
        !c.encryption_ready(),
        !c.decryptable(cid, buf, pass, iv),
        c.decrypt_failure(cid, buf, pass, iv) == ErrorKind::KeyNotFound,
{
}

/// Ciphertext sealed under one master key is refused once that key is gone,
/// even by a handle holding a later master key, and the failure is reported
/// as a missing key.
pub proof fn lemma_stale_generation_rejected(
    c: Crypto,
    c2: Crypto,
    g: u64,
    cid: Seq<u8>,
    p: Seq<u8>,
    pass: Option<Seq<u8>>,
    iv: Seq<u8>,
)
    requires
        c.master_generation() == Some(g),
        c2.master_generation() matches Some(g2) && g2 != g,
        40 + cid.len() + opt_len(pass) + iv.len() <= u64::MAX,
    ensures
        !c2.decryptable(cid, c.encrypted(cid, p, pass, iv), pass, iv),
        c2.decrypt_failure(cid, c.encrypted(cid, p, pass, iv), pass, iv)
            == ErrorKind::KeyNotFound,
{
    let g2 = c2.master_generation().unwrap();
    lemma_seal_round_trip(g, cid, pass, iv, p);
    lemma_seal_mismatch_rejected(g, cid, pass, iv, p, g2, cid, pass, iv);
}

} // verus!
