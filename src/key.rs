use vstd::prelude::*;
use crate::algorithm::{algorithm_id, encryption_capable, signing_capable, PublicKeyAlgorithm};
use crate::digests::{sha1_digest, sha1_of, sha256_digest, sha256_of};
use crate::error::Error;
use crate::public_key::{check_encryption_capable, check_signing_capable, PublicKeyTrait};
use crate::random::SecureRandom;
use crate::sink::{append_bytes, ByteSink};
use crate::types::{
    version_number, EskType, Fingerprint, HashAlgorithm, KeyId, KeyVersion, PkeskBytes,
    PublicParams, SignatureBytes, Timestamp,
};

verus! {

/// The scheme-specific mathematics that a key record hands its admitted
/// requests to.
pub trait SchemeEngine {
    /// What checking `sig` over `data`, hashed with `hash`, comes to under a
    /// key of scheme `alg` with public material `params`.
    spec fn verify_result(
        &self,
        alg: PublicKeyAlgorithm,
        params: &PublicParams,
        hash: HashAlgorithm,
        data: &[u8],
        sig: &SignatureBytes,
    ) -> Result<(), Error>;

    /// Whether `r` is an admissible outcome of encrypting `plain` as `typ` to a
    /// key of scheme `alg` with public material `params`.
    spec fn encrypt_admits(
        &self,
        alg: PublicKeyAlgorithm,
        params: &PublicParams,
        plain: &[u8],
        typ: EskType,
        r: Result<PkeskBytes, Error>,
    ) -> bool;

    /// Checks `sig` over `data`, hashed with `hash`, under a key of scheme
    /// `alg` with public material `params`.
    fn verify(
        &self,
        alg: PublicKeyAlgorithm,
        params: &PublicParams,
        hash: HashAlgorithm,
        data: &[u8],
        sig: &SignatureBytes,
    ) -> (r: Result<(), Error>)
        ensures
            r == self.verify_result(alg, params, hash, data, sig),
    ;

    /// Encrypts `plain` to a key of scheme `alg` with public material `params`.
    fn encrypt<R: SecureRandom>(
        &self,
        alg: PublicKeyAlgorithm,
        params: &PublicParams,
        rng: R,
        plain: &[u8],
        typ: EskType,
    ) -> (r: Result<PkeskBytes, Error>)
        ensures
            self.encrypt_admits(alg, params, plain, typ, r),
    ;
}

/// `n` as two big-endian bytes.
pub open spec fn be16(n: u16) -> Seq<u8> {
    seq![(n >> 8u16) as u8, n as u8]
}

/// `n` as four big-endian bytes.
pub open spec fn be32(n: u32) -> Seq<u8> {
    seq![(n >> 24u32) as u8, (n >> 16u32) as u8, (n >> 8u32) as u8, n as u8]
}

/// Whether a key packet of this version carries a validity period in days.
pub open spec fn has_validity_field(v: KeyVersion) -> bool {
    v is V2 || v is V3
}

/// Whether a key packet of this version states the length of its parameters.
pub open spec fn has_params_length(v: KeyVersion) -> bool {
    v is V5 || v is V6
}

/// The body of a key packet: version, creation time, validity period (old
/// versions only), scheme, parameter length (versions 5 and 6), parameters.
pub open spec fn key_body(
    version: KeyVersion,
    created: u32,
    expiration: Option<u16>,
    alg: PublicKeyAlgorithm,
    params: Seq<u8>,
) -> Seq<u8> {
    seq![version_number(version)] + be32(created) + (if has_validity_field(version) {
        be16(
            match expiration {
                Some(d) => d,
                None => 0u16,
            },
        )
    } else {
        Seq::empty()
    }) + seq![algorithm_id(alg)] + (if has_params_length(version) {
        be32(params.len() as u32)
    } else {
        Seq::empty()
    }) + params
}

/// A key body framed for hashing: a tag byte and the body's length, then the
/// body. Versions 5 and 6 use a four-byte length, the others two bytes.
pub open spec fn hashing_frame(version: KeyVersion, body: Seq<u8>) -> Seq<u8> {
    if version is V6 {
        seq![0x9bu8] + be32(body.len() as u32) + body
    } else if version is V5 {
        seq![0x9au8] + be32(body.len() as u32) + body
    } else {
        seq![0x99u8] + be16(body.len() as u16) + body
    }
}

/// Bytes a key body spends on fields other than the parameters.
pub open spec fn body_overhead(v: KeyVersion) -> nat {
    6 + (if has_validity_field(v) {
        2nat
    } else {
        0nat
    }) + (if has_params_length(v) {
        4nat
    } else {
        0nat
    })
}

/// The longest body that the frame of this version can announce.
pub open spec fn max_body_len(v: KeyVersion) -> nat {
    if has_params_length(v) {
        0xffff_ffffnat
    } else {
        0xffffnat
    }
}

/// Whether a key with these fields can be framed for hashing: its creation
/// time is a 32-bit count of seconds and its body fits the frame's length.
pub open spec fn record_fits(version: KeyVersion, created: Timestamp, params_len: nat) -> bool {
    &&& 0 <= created.seconds <= u32::MAX
    &&& body_overhead(version) + params_len <= max_body_len(version)
}

/// The bytes hashed for a key with these public fields.
pub open spec fn record_hashing_data(
    version: KeyVersion,
    created: Timestamp,
    expiration: Option<u16>,
    alg: PublicKeyAlgorithm,
    params: Seq<u8>,
) -> Seq<u8> {
    hashing_frame(version, key_body(version, created.seconds as u32, expiration, alg, params))
}

/// The fingerprint of a key whose hashing bytes are `frame`: SHA-256 of the
/// frame for versions 5 and 6, SHA-1 of it for the others.
pub open spec fn fingerprint_of(version: KeyVersion, frame: Seq<u8>) -> (KeyVersion, Seq<u8>) {
    if has_params_length(version) {
        (version, sha256_of(frame))
    } else {
        (version, sha1_of(frame))
    }
}

/// A public key held as its fields, with the scheme-specific mathematics
/// supplied by `E`. Its fingerprint is computed from its public fields.
pub struct KeyRecord<E> {
    version: KeyVersion,
    fingerprint: Fingerprint,
    key_id: KeyId,
    algorithm: PublicKeyAlgorithm,
    created_at: Timestamp,
    expiration: Option<u16>,
    params: PublicParams,
    engine: E,
}

fn push_be16(out: &mut Vec<u8>, n: u16)
    ensures
        final(out)@ == old(out)@ + be16(n),
{
    out.push((n >> 8u16) as u8);
    out.push(n as u8);
    assert(out@ =~= old(out)@ + be16(n));
}

fn push_be32(out: &mut Vec<u8>, n: u32)
    ensures
        final(out)@ == old(out)@ + be32(n),
{
    out.push((n >> 24u32) as u8);
    out.push((n >> 16u32) as u8);
    out.push((n >> 8u32) as u8);
    out.push(n as u8);
    assert(out@ =~= old(out)@ + be32(n));
}

/// The bytes hashed for a key with these public fields.
fn frame_bytes(
    version: KeyVersion,
    created_at: Timestamp,
    expiration: Option<u16>,
    algorithm: PublicKeyAlgorithm,
    params: &PublicParams,
) -> (r: Vec<u8>)
    requires
        record_fits(version, created_at, params.data@.len()),
    ensures
        r@ == record_hashing_data(version, created_at, expiration, algorithm, params.data@),
{
    let mut body: Vec<u8> = Vec::new();
    body.push(version.number());
    push_be32(&mut body, created_at.seconds as u32);
    if matches!(version, KeyVersion::V2 | KeyVersion::V3) {
        let days: u16 = match expiration {
            Some(d) => d,
            None => 0,
        };
        push_be16(&mut body, days);
    }
    body.push(algorithm.id());
    if matches!(version, KeyVersion::V5 | KeyVersion::V6) {
        push_be32(&mut body, params.data.len() as u32);
    }
    append_bytes(&mut body, params.data.as_slice());
    assert(body@ =~= key_body(
        version,
        created_at.seconds as u32,
        expiration,
        algorithm,
        params.data@,
    ));
    let mut frame: Vec<u8> = Vec::new();
    if matches!(version, KeyVersion::V6) {
        frame.push(0x9b);
        push_be32(&mut frame, body.len() as u32);
    } else if matches!(version, KeyVersion::V5) {
        frame.push(0x9a);
        push_be32(&mut frame, body.len() as u32);
    } else {
        frame.push(0x99);
        push_be16(&mut frame, body.len() as u16);
    }
    append_bytes(&mut frame, body.as_slice());
    assert(frame@ =~= record_hashing_data(version, created_at, expiration, algorithm, params.data@));
    frame
}

impl<E> KeyRecord<E> {
    /// The engine the record hands its admitted requests to.
    pub closed spec fn spec_engine(&self) -> E {
        self.engine
    }

    #[verifier::type_invariant]
    spec fn fits(self) -> bool {
        &&& record_fits(self.version, self.created_at, self.params.data@.len())
        &&& self.fingerprint@ == fingerprint_of(
            self.version,
            record_hashing_data(
                self.version,
                self.created_at,
                self.expiration,
                self.algorithm,
                self.params.data@,
            ),
        )
    }
}

impl<E: SchemeEngine> KeyRecord<E> {
    /// Builds a key record, computing its fingerprint from the public
    /// fields; fails with `Malformed` when the fields cannot be framed for
    /// hashing. `key_id` is the identifier of the associated primary key.
    pub fn new(
        version: KeyVersion,
        key_id: KeyId,
        algorithm: PublicKeyAlgorithm,
        created_at: Timestamp,
        expiration: Option<u16>,
        params: PublicParams,
        engine: E,
    ) -> (r: Result<Self, Error>)
        ensures
            r is Ok <==> record_fits(version, created_at, params.data@.len()),
            r is Err ==> r->Err_0 == Error::Malformed,
            r matches Ok(k) ==> {
                &&& k.spec_version() == version
                &&& k.spec_key_id() == key_id
                &&& k.spec_algorithm() == algorithm
                &&& k.spec_created_at() == created_at
                &&& k.spec_expiration() == expiration
                &&& k.spec_public_params() == params
                &&& k.spec_fingerprint() == fingerprint_of(version, k.hashing_data())
                &&& k.spec_engine() == engine
            },
    {
        let overhead: u64 = 6 + if matches!(version, KeyVersion::V2 | KeyVersion::V3) {
            2u64
        } else {
            0u64
        } + if matches!(version, KeyVersion::V5 | KeyVersion::V6) {
            4u64
        } else {
            0u64
        };
        let max: u64 = if matches!(version, KeyVersion::V5 | KeyVersion::V6) {
            0xffff_ffff
        } else {
            0xffff
        };
        if created_at.seconds < 0 || created_at.seconds > 0xffff_ffff {
            return Err(Error::Malformed);
        }
        if params.data.len() as u64 > max - overhead {
            return Err(Error::Malformed);
        }
        let frame = frame_bytes(version, created_at, expiration, algorithm, &params);
        let digest = if matches!(version, KeyVersion::V5 | KeyVersion::V6) {
            sha256_digest(frame.as_slice())
        } else {
            sha1_digest(frame.as_slice())
        };
        let fingerprint = Fingerprint { version, bytes: digest };
        Ok(KeyRecord {
            version,
            fingerprint,
            key_id,
            algorithm,
            created_at,
            expiration,
            params,
            engine,
        })
    }
}

impl<E: SchemeEngine> PublicKeyTrait for KeyRecord<E> {
    closed spec fn spec_version(&self) -> KeyVersion {
        self.version
    }

    closed spec fn spec_fingerprint(&self) -> (KeyVersion, Seq<u8>) {
        fingerprint_of(self.version, self.hashing_data())
    }

    closed spec fn spec_key_id(&self) -> KeyId {
        self.key_id
    }

    closed spec fn spec_algorithm(&self) -> PublicKeyAlgorithm {
        self.algorithm
    }

    closed spec fn spec_created_at(&self) -> Timestamp {
        self.created_at
    }

    closed spec fn spec_expiration(&self) -> Option<u16> {
        self.expiration
    }

    closed spec fn spec_public_params(&self) -> PublicParams {
        self.params
    }

    /// The framed key body.
    open spec fn hashing_data(&self) -> Seq<u8> {
        record_hashing_data(
            self.spec_version(),
            self.spec_created_at(),
            self.spec_expiration(),
            self.spec_algorithm(),
            self.spec_public_params().data@,
        )
    }

    /// Refused when the scheme cannot sign, else the engine's result.
    open spec fn verify_result(
        &self,
        hash: HashAlgorithm,
        data: &[u8],
        sig: &SignatureBytes,
    ) -> Result<(), Error> {
        if signing_capable(self.spec_algorithm()) {
            self.spec_engine().verify_result(self.spec_algorithm(), &self.spec_public_params(), hash, data, sig)
        } else {
            Err(Error::AlgorithmMismatch(self.spec_algorithm()))
        }
    }

    /// Refused when the scheme cannot encrypt, else what the engine admits.
    open spec fn encrypt_admits(
        &self,
        plain: &[u8],
        typ: EskType,
        r: Result<PkeskBytes, Error>,
    ) -> bool {
        if encryption_capable(self.spec_algorithm()) {
            self.spec_engine().encrypt_admits(self.spec_algorithm(), &self.spec_public_params(), plain, typ, r)
        } else {
            r == Err::<PkeskBytes, Error>(Error::AlgorithmMismatch(self.spec_algorithm()))
        }
    }

    proof fn lemma_public_material_determines(&self, other: &Self) {
    }

    fn version(&self) -> (r: KeyVersion) {
        self.version
    }

    fn fingerprint(&self) -> (r: Fingerprint) {
        proof {
            use_type_invariant(self);
        }
        self.fingerprint.duplicate()
    }

    fn key_id(&self) -> (r: KeyId) {
        self.key_id
    }

    fn algorithm(&self) -> (r: PublicKeyAlgorithm) {
        self.algorithm
    }

    fn created_at(&self) -> (r: &Timestamp) {
        &self.created_at
    }

    fn expiration(&self) -> (r: Option<u16>) {
        self.expiration
    }

    fn verify_signature(&self, hash: HashAlgorithm, data: &[u8], sig: &SignatureBytes) -> (r:
        Result<(), Error>) {
        match check_signing_capable(self.algorithm) {
            Err(e) => Err(e),
            Ok(()) => self.engine.verify(self.algorithm, &self.params, hash, data, sig),
        }
    }

    fn encrypt<R: SecureRandom>(&self, rng: R, plain: &[u8], typ: EskType) -> (r: Result<
        PkeskBytes,
        Error,
    >) {
        match check_encryption_capable(self.algorithm) {
            Err(e) => Err(e),
            Ok(()) => self.engine.encrypt(self.algorithm, &self.params, rng, plain, typ),
        }
    }

    fn serialize_for_hashing<W: ByteSink>(&self, writer: &mut W) -> (r: Result<(), Error>) {
        proof {
            use_type_invariant(self);
        }
        let frame = frame_bytes(
            self.version,
            self.created_at,
            self.expiration,
            self.algorithm,
            &self.params,
        );
        writer.write_bytes(frame.as_slice())
    }

    fn public_params(&self) -> (r: &PublicParams) {
        &self.params
    }
}

} // verus!
