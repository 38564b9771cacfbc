//! Certificate-retrieval capability and the in-memory `X509` handle that
//! implements it over provisioned identity material.

use vstd::prelude::*;
use vstd::slice::slice_to_vec;

use crate::error::{Error, ErrorKind};

verus! {

/// Raw bytes of a certificate or associated key material in transit form,
/// opaque to this layer.
#[derive(Debug)]
pub struct X509Data {
    bytes: Vec<u8>,
}

impl View for X509Data {
    type V = Seq<u8>;

    closed spec fn view(&self) -> Seq<u8> {
        self.bytes@
    }
}

impl X509Data {
    pub fn new(bytes: Vec<u8>) -> (d: X509Data)
        ensures
            d@ == bytes@,
    {
        X509Data { bytes }
    }

    pub fn bytes(&self) -> (b: &Vec<u8>)
        ensures
            b@ == self@,
    {
        &self.bytes
    }

    pub fn len(&self) -> (n: usize)
        ensures
            n == self@.len(),
    {
        self.bytes.len()
    }
}

/// Certificate-retrieval capability: the provisioned identity certificate,
/// its key material, and the subject common name. All three are read-only
/// queries; key export is additionally gated by module policy.
pub trait GetCerts: Sized {
    /// The provisioned identity certificate, if any.
    spec fn provisioned_cert(&self) -> Option<Seq<u8>>;

    /// The provisioned key material, if any.
    spec fn provisioned_key(&self) -> Option<Seq<u8>>;

    /// Whether policy allows the key material to leave the module.
    spec fn key_exportable(&self) -> bool;

    /// The subject common name of the provisioned certificate, if any.
    spec fn provisioned_common_name(&self) -> Option<Seq<char>>;

    fn get_cert(&self) -> (r: Result<X509Data, Error>)
        ensures
            r is Ok <==> self.provisioned_cert() is Some,
            r matches Ok(d) ==> Some(d@) == self.provisioned_cert(),
            r matches Err(e) ==> e.kind_spec() == ErrorKind::KeyNotFound,
    ;

    fn get_key(&self) -> (r: Result<X509Data, Error>)
        ensures
            r is Ok <==> self.provisioned_key() is Some && self.key_exportable(),
            r matches Ok(d) ==> Some(d@) == self.provisioned_key(),
            r matches Err(e) ==> e.kind_spec() == (if self.provisioned_key() is Some {
                ErrorKind::ExportDenied
            } else {
                ErrorKind::KeyNotFound
            }),
    ;

    fn get_common_name(&self) -> (r: Result<String, Error>)
        ensures
            r is Ok <==> self.provisioned_common_name() is Some,
            r matches Ok(s) ==> Some(s@) == self.provisioned_common_name(),
            r matches Err(e) ==> e.kind_spec() == ErrorKind::KeyNotFound,
    ;
}

/// In-memory module handle backing certificate retrieval: either
/// unprovisioned, or holding one certificate with its key material, the
/// export policy for that key, and the subject common name.
pub struct X509 {
    cert: Option<Vec<u8>>,
    key: Option<Vec<u8>>,
    exportable: bool,
    common_name: Option<String>,
}

impl X509 {
    /// A handle with nothing provisioned: every query reports the missing
    /// material.
    pub fn new() -> (x: X509)
        ensures
            x.provisioned_cert() is None,
            x.provisioned_key() is None,
            x.provisioned_common_name() is None,
    {
        X509 { cert: None, key: None, exportable: false, common_name: None }
    }

    /// A handle provisioned with one identity certificate, its key
    /// material, the export policy for that key, and the subject common
    /// name.
    pub fn provision(cert: Vec<u8>, key: Vec<u8>, exportable: bool, common_name: String) -> (x:
        X509)
        ensures
            x.provisioned_cert() == Some(cert@),
            x.provisioned_key() == Some(key@),
            x.key_exportable() == exportable,
            x.provisioned_common_name() == Some(common_name@),
    {
        X509 { cert: Some(cert), key: Some(key), exportable, common_name: Some(common_name) }
    }
}

impl GetCerts for X509 {
    closed spec fn provisioned_cert(&self) -> Option<Seq<u8>> {
        match self.cert {
            Some(c) => Some(c@),
            None => None,
        }
    }

    closed spec fn provisioned_key(&self) -> Option<Seq<u8>> {
        match self.key {
            Some(k) => Some(k@),
            None => None,
        }
    }

    closed spec fn key_exportable(&self) -> bool {
        self.exportable
    }

    closed spec fn provisioned_common_name(&self) -> Option<Seq<char>> {
        match self.common_name {
            Some(n) => Some(n@),
            None => None,
        }
    }

    fn get_cert(&self) -> (r: Result<X509Data, Error>) {
        match &self.cert {
            Some(c) => Ok(X509Data::new(slice_to_vec(c.as_slice()))),
            None => Err(Error::new(ErrorKind::KeyNotFound)),
        }
    }

    fn get_key(&self) -> (r: Result<X509Data, Error>) {
        match &self.key {
            Some(k) => {
                if self.exportable {
                    Ok(X509Data::new(slice_to_vec(k.as_slice())))
                } else {
                    Err(Error::new(ErrorKind::ExportDenied))
                }
            },
            None => Err(Error::new(ErrorKind::KeyNotFound)),
        }
    }

    fn get_common_name(&self) -> (r: Result<String, Error>) {
        match &self.common_name {
            Some(n) => Ok(n.clone()),
            None => Err(Error::new(ErrorKind::KeyNotFound)),
        }
    }
}

} // verus!
