use vstd::prelude::*;
use crate::algorithm::{encryption_capable, signing_capable, PublicKeyAlgorithm};
use crate::error::Error;
use crate::random::SecureRandom;
use crate::sink::ByteSink;
use crate::types::{
    EskType, Fingerprint, HashAlgorithm, KeyId, KeyVersion, PkeskBytes, PublicParams,
    SignatureBytes, Timestamp,
};

verus! {

/// The operations every public key offers, whatever its scheme.
///
/// Each accessor returns the value of the matching spec function, so a key is
/// modelled by those functions; the two cryptographic operations refuse,
/// whatever their other arguments, a key whose scheme cannot perform them.
pub trait PublicKeyTrait {
    spec fn spec_version(&self) -> KeyVersion;

    spec fn spec_fingerprint(&self) -> (KeyVersion, Seq<u8>);

    spec fn spec_key_id(&self) -> KeyId;

    spec fn spec_algorithm(&self) -> PublicKeyAlgorithm;

    spec fn spec_created_at(&self) -> Timestamp;

    spec fn spec_expiration(&self) -> Option<u16>;

    spec fn spec_public_params(&self) -> PublicParams;

    /// The canonical bytes hashed when this key is itself signed over.
    spec fn hashing_data(&self) -> Seq<u8>;

    /// What checking `sig` over `data`, hashed with `hash`, comes to.
    spec fn verify_result(&self, hash: HashAlgorithm, data: &[u8], sig: &SignatureBytes) -> Result<
        (),
        Error,
    >;

    /// Whether `r` is an admissible outcome of encrypting `plain` as `typ`.
    spec fn encrypt_admits(&self, plain: &[u8], typ: EskType, r: Result<PkeskBytes, Error>) -> bool;

    /// The hashing data and the fingerprint depend on the public fields alone.
    proof fn lemma_public_material_determines(&self, other: &Self)
        requires
            self.spec_version() == other.spec_version(),
            self.spec_algorithm() == other.spec_algorithm(),
            self.spec_created_at() == other.spec_created_at(),
            self.spec_expiration() == other.spec_expiration(),
            self.spec_public_params() == other.spec_public_params(),
        ensures
            self.hashing_data() == other.hashing_data(),
            self.spec_fingerprint() == other.spec_fingerprint(),
    ;

    fn version(&self) -> (r: KeyVersion)
        ensures
            r == self.spec_version(),
    ;

    fn fingerprint(&self) -> (r: Fingerprint)
        ensures
            r@ == self.spec_fingerprint(),
    ;

    /// Returns the Key ID of the associated primary key.
    fn key_id(&self) -> (r: KeyId)
        ensures
            r == self.spec_key_id(),
    ;

    fn algorithm(&self) -> (r: PublicKeyAlgorithm)
        ensures
            r == self.spec_algorithm(),
    ;

    fn created_at(&self) -> (r: &Timestamp)
        ensures
            *r == self.spec_created_at(),
    ;

    /// Days of validity after creation; `None` if the key never expires.
    fn expiration(&self) -> (r: Option<u16>)
        ensures
            r == self.spec_expiration(),
    ;

    /// Verify a signed message.
    /// Data will be hashed using `hash`, before verifying.
    fn verify_signature(&self, hash: HashAlgorithm, data: &[u8], sig: &SignatureBytes) -> (r:
        Result<(), Error>)
        ensures
            r == self.verify_result(hash, data, sig),
            !signing_capable(self.spec_algorithm()) ==> r == Err::<(), Error>(
                Error::AlgorithmMismatch(self.spec_algorithm()),
            ),
    ;

    /// Encrypt the given `plain` for this key.
    fn encrypt<R: SecureRandom>(&self, rng: R, plain: &[u8], typ: EskType) -> (r: Result<
        PkeskBytes,
        Error,
    >)
        ensures
            self.encrypt_admits(plain, typ, r),
            !encryption_capable(self.spec_algorithm()) ==> r == Err::<PkeskBytes, Error>(
                Error::AlgorithmMismatch(self.spec_algorithm()),
            ),
    ;

    /// This is the data used for hashing in a signature. Only uses the public portion of the key.
    fn serialize_for_hashing<W: ByteSink>(&self, writer: &mut W) -> (r: Result<(), Error>)
        ensures
            r is Ok ==> final(writer).written() == old(writer).written() + self.hashing_data(),
            old(writer).infallible() ==> r is Ok,
    ;

    fn public_params(&self) -> (r: &PublicParams)
        ensures
            *r == self.spec_public_params(),
    ;

    fn is_signing_key(&self) -> (r: bool)
        ensures
            r == signing_capable(self.spec_algorithm()),
    {
        self.algorithm().can_sign()
    }

    fn is_encryption_key(&self) -> (r: bool)
        ensures
            r == encryption_capable(self.spec_algorithm()),
    {
        self.algorithm().can_encrypt()
    }
}

/// Refuses a scheme that cannot sign, as `verify_signature` must before any
/// scheme-specific work.
pub fn check_signing_capable(alg: PublicKeyAlgorithm) -> (r: Result<(), Error>)
    ensures
        signing_capable(alg) ==> r is Ok,
        !signing_capable(alg) ==> r == Err::<(), Error>(Error::AlgorithmMismatch(alg)),
{
    if alg.can_sign() {
        Ok(())
    } else {
        Err(Error::AlgorithmMismatch(alg))
    }
}

/// Refuses a scheme that cannot encrypt, as `encrypt` must before any
/// scheme-specific work.
pub fn check_encryption_capable(alg: PublicKeyAlgorithm) -> (r: Result<(), Error>)
    ensures
        encryption_capable(alg) ==> r is Ok,
        !encryption_capable(alg) ==> r == Err::<(), Error>(Error::AlgorithmMismatch(alg)),
{
    if alg.can_encrypt() {
        Ok(())
    } else {
        Err(Error::AlgorithmMismatch(alg))
    }
}

/// A borrowed key is a key: every call is handed, unchanged, to the referent.
impl<T: PublicKeyTrait> PublicKeyTrait for &T {
    open spec fn spec_version(&self) -> KeyVersion {
        (**self).spec_version()
    }

    open spec fn spec_fingerprint(&self) -> (KeyVersion, Seq<u8>) {
        (**self).spec_fingerprint()
    }

    open spec fn spec_key_id(&self) -> KeyId {
        (**self).spec_key_id()
    }

    open spec fn spec_algorithm(&self) -> PublicKeyAlgorithm {
        (**self).spec_algorithm()
    }

    open spec fn spec_created_at(&self) -> Timestamp {
        (**self).spec_created_at()
    }

    open spec fn spec_expiration(&self) -> Option<u16> {
        (**self).spec_expiration()
    }

    open spec fn spec_public_params(&self) -> PublicParams {
        (**self).spec_public_params()
    }

    open spec fn hashing_data(&self) -> Seq<u8> {
        (**self).hashing_data()
    }

    open spec fn verify_result(
        &self,
        hash: HashAlgorithm,
        data: &[u8],
        sig: &SignatureBytes,
    ) -> Result<(), Error> {
        (**self).verify_result(hash, data, sig)
    }

    open spec fn encrypt_admits(
        &self,
        plain: &[u8],
        typ: EskType,
        r: Result<PkeskBytes, Error>,
    ) -> bool {
        (**self).encrypt_admits(plain, typ, r)
    }

    proof fn lemma_public_material_determines(&self, other: &Self) {
        (**self).lemma_public_material_determines(*other);
    }

    fn verify_signature(&self, hash: HashAlgorithm, data: &[u8], sig: &SignatureBytes) -> (r:
        Result<(), Error>) {
        (**self).verify_signature(hash, data, sig)
    }

    fn encrypt<R: SecureRandom>(&self, rng: R, plain: &[u8], typ: EskType) -> (r: Result<
        PkeskBytes,
        Error,
    >) {
        (**self).encrypt(rng, plain, typ)
    }

    fn serialize_for_hashing<W: ByteSink>(&self, writer: &mut W) -> (r: Result<(), Error>) {
        (**self).serialize_for_hashing(writer)
    }

    fn public_params(&self) -> (r: &PublicParams) {
        (**self).public_params()
    }

    fn version(&self) -> (r: KeyVersion) {
        (**self).version()
    }

    fn fingerprint(&self) -> (r: Fingerprint) {
        (**self).fingerprint()
    }

    /// Returns the Key ID of the associated primary key.
    fn key_id(&self) -> (r: KeyId) {
        (**self).key_id()
    }

    fn algorithm(&self) -> (r: PublicKeyAlgorithm) {
        (**self).algorithm()
    }

    fn expiration(&self) -> (r: Option<u16>) {
        (**self).expiration()
    }

    fn created_at(&self) -> (r: &Timestamp) {
        (**self).created_at()
    }
}

/// Calling through a borrowed handle gives what calling on the key itself
/// gives: the same identity values, the same hashing data, the same
/// capabilities, the same verification result for every hash, message and
/// signature (failures included), and the same admissible encryption outcomes.
pub proof fn lemma_borrow_transparent<T: PublicKeyTrait>(
    b: &&T,
    hash: HashAlgorithm,
    data: &[u8],
    sig: &SignatureBytes,
    plain: &[u8],
    typ: EskType,
    r: Result<PkeskBytes, Error>,
)
    ensures
        b.verify_result(hash, data, sig) == (*b).verify_result(hash, data, sig),
        b.encrypt_admits(plain, typ, r) == (*b).encrypt_admits(plain, typ, r),
        b.spec_version() == (*b).spec_version(),
        b.spec_fingerprint() == (*b).spec_fingerprint(),
        b.spec_key_id() == (*b).spec_key_id(),
        b.spec_algorithm() == (*b).spec_algorithm(),
        b.spec_created_at() == (*b).spec_created_at(),
        b.spec_expiration() == (*b).spec_expiration(),
        b.spec_public_params() == (*b).spec_public_params(),
        b.hashing_data() == (*b).hashing_data(),
        signing_capable(b.spec_algorithm()) == signing_capable((*b).spec_algorithm()),
        encryption_capable(b.spec_algorithm()) == encryption_capable((*b).spec_algorithm()),
{
}

/// The bytes hashed for a key, and its fingerprint, depend on its public
/// fields alone: two keys with the same version, scheme, creation time,
/// expiration and public parameters (a key and itself among them) serialize
/// identically and have the same fingerprint.
pub proof fn lemma_hashing_data_stable<K: PublicKeyTrait>(a: &K, b: &K)
    requires
        a.spec_version() == b.spec_version(),
        a.spec_algorithm() == b.spec_algorithm(),
        a.spec_created_at() == b.spec_created_at(),
        a.spec_expiration() == b.spec_expiration(),
        a.spec_public_params() == b.spec_public_params(),
    ensures
        a.hashing_data() == b.hashing_data(),
        a.spec_fingerprint() == b.spec_fingerprint(),
{
    a.lemma_public_material_determines(b);
}

} // verus!
