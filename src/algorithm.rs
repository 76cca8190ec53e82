use vstd::prelude::*;

verus! {

/// The closed set of asymmetric schemes a public key can use.
#[derive(Clone, Copy, Debug, PartialEq, Eq, Structural, Hash)]
pub enum PublicKeyAlgorithm {
    RSA,
    RSAEncrypt,
    RSASign,
    ElgamalEncrypt,
    DSA,
    ECDH,
    ECDSA,
    Elgamal,
    DiffieHellman,
    EdDSALegacy,
    Ed25519,
    X25519,
    Ed448,
    X448,
}

/// Schemes that can produce and verify signatures.
pub open spec fn signing_capable(alg: PublicKeyAlgorithm) -> bool {
    match alg {
        PublicKeyAlgorithm::RSA => true,
        PublicKeyAlgorithm::RSAEncrypt => false,
        PublicKeyAlgorithm::RSASign => true,
        PublicKeyAlgorithm::ElgamalEncrypt => false,
        PublicKeyAlgorithm::DSA => true,
        PublicKeyAlgorithm::ECDH => false,
        PublicKeyAlgorithm::ECDSA => true,
        PublicKeyAlgorithm::Elgamal => true,
        PublicKeyAlgorithm::DiffieHellman => false,
        PublicKeyAlgorithm::EdDSALegacy => true,
        PublicKeyAlgorithm::Ed25519 => true,
        PublicKeyAlgorithm::X25519 => false,
        PublicKeyAlgorithm::Ed448 => true,
        PublicKeyAlgorithm::X448 => false,
    }
}

/// Schemes that can encrypt a session key.
pub open spec fn encryption_capable(alg: PublicKeyAlgorithm) -> bool {
    match alg {
        PublicKeyAlgorithm::RSA => true,
        PublicKeyAlgorithm::RSAEncrypt => true,
        PublicKeyAlgorithm::RSASign => false,
        PublicKeyAlgorithm::ElgamalEncrypt => true,
        PublicKeyAlgorithm::DSA => false,
        PublicKeyAlgorithm::ECDH => true,
        PublicKeyAlgorithm::ECDSA => false,
        PublicKeyAlgorithm::Elgamal => true,
        PublicKeyAlgorithm::DiffieHellman => true,
        PublicKeyAlgorithm::EdDSALegacy => false,
        PublicKeyAlgorithm::Ed25519 => false,
        PublicKeyAlgorithm::X25519 => true,
        PublicKeyAlgorithm::Ed448 => false,
        PublicKeyAlgorithm::X448 => true,
    }
}

/// The scheme's number in the OpenPGP algorithm registry.
pub open spec fn algorithm_id(alg: PublicKeyAlgorithm) -> u8 {
    match alg {
        PublicKeyAlgorithm::RSA => 1,
        PublicKeyAlgorithm::RSAEncrypt => 2,
        PublicKeyAlgorithm::RSASign => 3,
        PublicKeyAlgorithm::ElgamalEncrypt => 16,
        PublicKeyAlgorithm::DSA => 17,
        PublicKeyAlgorithm::ECDH => 18,
        PublicKeyAlgorithm::ECDSA => 19,
        PublicKeyAlgorithm::Elgamal => 20,
        PublicKeyAlgorithm::DiffieHellman => 21,
        PublicKeyAlgorithm::EdDSALegacy => 22,
        PublicKeyAlgorithm::X25519 => 25,
        PublicKeyAlgorithm::X448 => 26,
        PublicKeyAlgorithm::Ed25519 => 27,
        PublicKeyAlgorithm::Ed448 => 28,
    }
}

impl PublicKeyAlgorithm {
    /// Whether this scheme can sign; every variant is classified explicitly.
    pub fn can_sign(self) -> (r: bool)
        ensures
            r == signing_capable(self),
    {
        match self {
            PublicKeyAlgorithm::RSA | PublicKeyAlgorithm::RSASign | PublicKeyAlgorithm::Elgamal
            | PublicKeyAlgorithm::DSA | PublicKeyAlgorithm::ECDSA
            | PublicKeyAlgorithm::EdDSALegacy | PublicKeyAlgorithm::Ed25519
            | PublicKeyAlgorithm::Ed448 => true,
            PublicKeyAlgorithm::RSAEncrypt | PublicKeyAlgorithm::ElgamalEncrypt
            | PublicKeyAlgorithm::ECDH | PublicKeyAlgorithm::DiffieHellman
            | PublicKeyAlgorithm::X25519 | PublicKeyAlgorithm::X448 => false,
        }
    }

    /// Whether this scheme can encrypt; every variant is classified explicitly.
    pub fn can_encrypt(self) -> (r: bool)
        ensures
            r == encryption_capable(self),
    {
        match self {
            PublicKeyAlgorithm::RSA | PublicKeyAlgorithm::RSAEncrypt
            | PublicKeyAlgorithm::ECDH | PublicKeyAlgorithm::DiffieHellman
            | PublicKeyAlgorithm::Elgamal | PublicKeyAlgorithm::ElgamalEncrypt
            | PublicKeyAlgorithm::X25519 | PublicKeyAlgorithm::X448 => true,
            PublicKeyAlgorithm::RSASign | PublicKeyAlgorithm::DSA | PublicKeyAlgorithm::ECDSA
            | PublicKeyAlgorithm::EdDSALegacy | PublicKeyAlgorithm::Ed25519
            | PublicKeyAlgorithm::Ed448 => false,
        }
    }
    /// The scheme's registry number.
    pub fn id(self) -> (r: u8)
        ensures
            r == algorithm_id(self),
    {
        match self {
            PublicKeyAlgorithm::RSA => 1,
            PublicKeyAlgorithm::RSAEncrypt => 2,
            PublicKeyAlgorithm::RSASign => 3,
            PublicKeyAlgorithm::ElgamalEncrypt => 16,
            PublicKeyAlgorithm::DSA => 17,
            PublicKeyAlgorithm::ECDH => 18,
            PublicKeyAlgorithm::ECDSA => 19,
            PublicKeyAlgorithm::Elgamal => 20,
            PublicKeyAlgorithm::DiffieHellman => 21,
            PublicKeyAlgorithm::EdDSALegacy => 22,
            PublicKeyAlgorithm::X25519 => 25,
            PublicKeyAlgorithm::X448 => 26,
            PublicKeyAlgorithm::Ed25519 => 27,
            PublicKeyAlgorithm::Ed448 => 28,
        }
    }
}

} // verus!
