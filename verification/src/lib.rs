//! Capability-oriented abstraction over a hardware/trusted security module.
//!
//! The crate partitions module functionality into independent capability
//! traits (key management, signing, certificate retrieval and creation,
//! random generation, master-key lifecycle, symmetric encryption and
//! decryption) together with the value types and error taxonomy that flow
//! across the trust boundary. A concrete module handle implements whichever
//! subset of capabilities its hardware supports; the in-memory handles here
//! model that behaviour so every contract can be checked.

pub mod crypto;
pub mod error;
pub mod module_list;
pub mod seal;
pub mod stream;
pub mod tpm;
pub mod x509;

pub use crypto::{
    CertificateProperties, CertificateType, CreateCertificate, CreateMasterEncryptionKey, Crypto,
    DecryptData, DecryptedBuffer, DestroyMasterEncryptionKey, EncryptData, EncryptedBuffer,
    HsmCertificate, PrivateKey,
};
pub use error::{Error, ErrorKind};
pub use module_list::{ModuleDetails, ModuleList};
pub use tpm::{MakeRandom, ManageTpmKeys, SignWithTpm, Tpm, TpmDigest, TpmKey};
pub use x509::{GetCerts, X509, X509Data};
