use vstd::prelude::*;

verus! {

/// Version of the key packet format.
#[derive(Clone, Copy, Debug, PartialEq, Eq, Structural, Hash)]
pub enum KeyVersion {
    V2,
    V3,
    V4,
    V5,
    V6,
    Other(u8),
}

/// The version number written in a key packet.
pub open spec fn version_number(v: KeyVersion) -> u8 {
    match v {
        KeyVersion::V2 => 2,
        KeyVersion::V3 => 3,
        KeyVersion::V4 => 4,
        KeyVersion::V5 => 5,
        KeyVersion::V6 => 6,
        KeyVersion::Other(n) => n,
    }
}

impl KeyVersion {
    /// The version number written in a key packet.
    pub fn number(self) -> (r: u8)
        ensures
            r == version_number(self),
    {
        match self {
            KeyVersion::V2 => 2,
            KeyVersion::V3 => 3,
            KeyVersion::V4 => 4,
            KeyVersion::V5 => 5,
            KeyVersion::V6 => 6,
            KeyVersion::Other(n) => n,
        }
    }
}

/// Content-derived identifier of a key.
#[derive(Clone, Debug, PartialEq, Eq, Hash)]
pub struct Fingerprint {
    pub version: KeyVersion,
    pub bytes: Vec<u8>,
}

impl View for Fingerprint {
    type V = (KeyVersion, Seq<u8>);

    open spec fn view(&self) -> (KeyVersion, Seq<u8>) {
        (self.version, self.bytes@)
    }
}

impl Fingerprint {
    /// A copy with the same version and bytes.
    pub fn duplicate(&self) -> (r: Fingerprint)
        ensures
            r@ == self@,
    {
        let bytes = self.bytes.clone();
        assert(bytes@ =~= self.bytes@);
        Fingerprint { version: self.version, bytes }
    }
}

/// Eight-byte key identifier.
#[derive(Clone, Copy, Debug, PartialEq, Eq, Hash)]
pub struct KeyId {
    pub bytes: [u8; 8],
}

/// Digest used to hash a message before a signature is checked.
#[derive(Clone, Copy, Debug, PartialEq, Eq, Structural, Hash)]
pub enum HashAlgorithm {
    Md5,
    Sha1,
    Ripemd160,
    Sha256,
    Sha384,
    Sha512,
    Sha224,
    Sha3_256,
    Sha3_512,
    Other(u8),
}

/// Output format requested from an encryption.
#[derive(Clone, Copy, Debug, PartialEq, Eq, Structural, Hash)]
pub enum EskType {
    V3_4,
    V6,
}

/// Scheme-specific encoding of a signature.
#[derive(Clone, Debug, PartialEq, Eq, Hash)]
pub enum SignatureBytes {
    Mpis(Vec<Vec<u8>>),
    Native(Vec<u8>),
}

/// Scheme-specific encoding of an encrypted session key.
#[derive(Clone, Debug, PartialEq, Eq, Hash)]
pub struct PkeskBytes {
    pub data: Vec<u8>,
}

/// Scheme-specific public key material.
#[derive(Clone, Debug, PartialEq, Eq, Hash)]
pub struct PublicParams {
    pub data: Vec<u8>,
}

/// A point in time, in whole seconds since the Unix epoch (UTC).
#[derive(Clone, Copy, Debug, PartialEq, Eq, Structural, Hash, PartialOrd, Ord)]
pub struct Timestamp {
    pub seconds: i64,
}

} // verus!
