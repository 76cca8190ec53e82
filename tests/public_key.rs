use pgp_public_key::algorithm::PublicKeyAlgorithm;
use pgp_public_key::error::Error;
use pgp_public_key::key::{KeyRecord, SchemeEngine};
use pgp_public_key::public_key::{check_encryption_capable, check_signing_capable, PublicKeyTrait};
use pgp_public_key::random::SecureRandom;
use pgp_public_key::sink::ByteSink;
use pgp_public_key::types::{
    EskType, HashAlgorithm, KeyId, KeyVersion, PkeskBytes, PublicParams,
    SignatureBytes, Timestamp,
};

const ALL: [PublicKeyAlgorithm; 14] = [
    PublicKeyAlgorithm::RSA,
    PublicKeyAlgorithm::RSAEncrypt,
    PublicKeyAlgorithm::RSASign,
    PublicKeyAlgorithm::ElgamalEncrypt,
    PublicKeyAlgorithm::DSA,
    PublicKeyAlgorithm::ECDH,
    PublicKeyAlgorithm::ECDSA,
    PublicKeyAlgorithm::Elgamal,
    PublicKeyAlgorithm::DiffieHellman,
    PublicKeyAlgorithm::EdDSALegacy,
    PublicKeyAlgorithm::Ed25519,
    PublicKeyAlgorithm::X25519,
    PublicKeyAlgorithm::Ed448,
    PublicKeyAlgorithm::X448,
];

/// Scheme mathematics for the tests: the "signature" over a message is the
/// message xored with the key's parameter bytes.
struct MaskEngine;

fn mask(params: &[u8], data: &[u8]) -> Vec<u8> {
    data.iter().enumerate().map(|(i, b)| b ^ params[i % params.len()]).collect()
}

impl SchemeEngine for MaskEngine {
    fn verify_result(
        &self,
        _alg: PublicKeyAlgorithm,
        params: &PublicParams,
        _hash: HashAlgorithm,
        data: &[u8],
        sig: &SignatureBytes,
    ) -> Result<(), Error> {
        match sig {
            SignatureBytes::Native(b) if *b == mask(&params.data, data) => Ok(()),
            _ => Err(Error::VerificationFailed),
        }
    }

    fn encrypt_admits(
        &self,
        alg: PublicKeyAlgorithm,
        _params: &PublicParams,
        plain: &[u8],
        typ: EskType,
        r: Result<PkeskBytes, Error>,
    ) -> bool {
        match r {
            Ok(b) => b.data.len() == 2 * plain.len(),
            Err(e) => e == Error::EskTypeMismatch(alg, typ),
        }
    }

    fn verify(
        &self,
        alg: PublicKeyAlgorithm,
        params: &PublicParams,
        hash: HashAlgorithm,
        data: &[u8],
        sig: &SignatureBytes,
    ) -> Result<(), Error> {
        self.verify_result(alg, params, hash, data, sig)
    }

    fn encrypt<R: SecureRandom>(
        &self,
        alg: PublicKeyAlgorithm,
        _params: &PublicParams,
        mut rng: R,
        plain: &[u8],
        typ: EskType,
    ) -> Result<PkeskBytes, Error> {
        if typ == EskType::V6 && alg == PublicKeyAlgorithm::Elgamal {
            return Err(Error::EskTypeMismatch(alg, typ));
        }
        let mut pad = vec![0u8; plain.len()];
        rng.fill_bytes(&mut pad);
        let mut data = pad.clone();
        data.extend(plain.iter().zip(pad.iter()).map(|(p, k)| p ^ k));
        Ok(PkeskBytes { data })
    }
}

fn record(
    version: KeyVersion,
    algorithm: PublicKeyAlgorithm,
    id: u8,
    seconds: i64,
    expiration: Option<u16>,
    params: Vec<u8>,
) -> Result<KeyRecord<MaskEngine>, Error> {
    KeyRecord::new(
        version,
        KeyId { bytes: [id; 8] },
        algorithm,
        Timestamp { seconds },
        expiration,
        PublicParams { data: params },
        MaskEngine,
    )
}

fn sample(algorithm: PublicKeyAlgorithm, id: u8) -> KeyRecord<MaskEngine> {
    record(KeyVersion::V4, algorithm, id, 1_700_000_000, Some(365), vec![7, 1, 9]).unwrap()
}

struct CountingRandom(u8);

impl SecureRandom for CountingRandom {
    fn fill_bytes(&mut self, dest: &mut [u8]) {
        for b in dest.iter_mut() {
            self.0 = self.0.wrapping_add(1);
            *b = self.0;
        }
    }
}

fn hashing_bytes<K: PublicKeyTrait>(k: &K) -> Vec<u8> {
    let mut out: Vec<u8> = Vec::new();
    k.serialize_for_hashing(&mut out).unwrap();
    out
}

#[test]
fn classifier_table() {
    let expected = [
        (PublicKeyAlgorithm::RSA, true, true),
        (PublicKeyAlgorithm::RSAEncrypt, false, true),
        (PublicKeyAlgorithm::RSASign, true, false),
        (PublicKeyAlgorithm::ElgamalEncrypt, false, true),
        (PublicKeyAlgorithm::DSA, true, false),
        (PublicKeyAlgorithm::ECDH, false, true),
        (PublicKeyAlgorithm::ECDSA, true, false),
        (PublicKeyAlgorithm::Elgamal, true, true),
        (PublicKeyAlgorithm::DiffieHellman, false, true),
        (PublicKeyAlgorithm::EdDSALegacy, true, false),
        (PublicKeyAlgorithm::Ed25519, true, false),
        (PublicKeyAlgorithm::X25519, false, true),
        (PublicKeyAlgorithm::Ed448, true, false),
        (PublicKeyAlgorithm::X448, false, true),
    ];
    for (alg, sign, encrypt) in expected {
        assert_eq!(alg.can_sign(), sign, "{:?}", alg);
        assert_eq!(alg.can_encrypt(), encrypt, "{:?}", alg);
        let key = sample(alg, 1);
        assert_eq!(key.is_signing_key(), sign, "{:?}", alg);
        assert_eq!(key.is_encryption_key(), encrypt, "{:?}", alg);
    }
}

#[test]
fn borrowed_handle_matches_owned() {
    for alg in ALL {
        let key = sample(alg, 3);
        let view = &key;
        assert_eq!(PublicKeyTrait::version(&view), key.version());
        assert_eq!(PublicKeyTrait::fingerprint(&view), key.fingerprint());
        assert_eq!(PublicKeyTrait::key_id(&view), key.key_id());
        assert_eq!(PublicKeyTrait::algorithm(&view), key.algorithm());
        assert_eq!(PublicKeyTrait::created_at(&view), key.created_at());
        assert_eq!(PublicKeyTrait::expiration(&view), key.expiration());
        assert_eq!(PublicKeyTrait::public_params(&view), key.public_params());
        assert_eq!(PublicKeyTrait::is_signing_key(&view), key.is_signing_key());
        assert_eq!(PublicKeyTrait::is_encryption_key(&view), key.is_encryption_key());
        assert_eq!(hashing_bytes(&view), hashing_bytes(&key));
        let msg = b"hello";
        let good = SignatureBytes::Native(mask(&key.public_params().data, msg));
        let bad = SignatureBytes::Native(vec![0; 5]);
        for sig in [&good, &bad] {
            assert_eq!(
                PublicKeyTrait::verify_signature(&view, HashAlgorithm::Sha256, msg, sig),
                key.verify_signature(HashAlgorithm::Sha256, msg, sig)
            );
        }
        for typ in [EskType::V3_4, EskType::V6] {
            assert_eq!(
                PublicKeyTrait::encrypt(&view, CountingRandom(0), msg, typ),
                key.encrypt(CountingRandom(0), msg, typ)
            );
        }
    }
}

#[test]
fn verify_rejects_keys_that_cannot_sign() {
    for alg in ALL.into_iter().filter(|a| !a.can_sign()) {
        let key = sample(alg, 2);
        for msg in [&b""[..], &b"abc"[..], &[0xffu8; 64][..]] {
            let sigs = [
                SignatureBytes::Native(mask(&key.public_params().data, msg)),
                SignatureBytes::Native(vec![]),
                SignatureBytes::Mpis(vec![vec![1, 2], vec![3]]),
            ];
            for sig in &sigs {
                assert_eq!(
                    key.verify_signature(HashAlgorithm::Sha512, msg, sig),
                    Err(Error::AlgorithmMismatch(alg))
                );
            }
        }
    }
}

#[test]
fn encrypt_rejects_keys_that_cannot_encrypt() {
    for alg in ALL.into_iter().filter(|a| !a.can_encrypt()) {
        let key = sample(alg, 2);
        for plain in [&b""[..], &b"session key"[..], &[0u8; 40][..]] {
            for typ in [EskType::V3_4, EskType::V6] {
                assert_eq!(
                    key.encrypt(CountingRandom(9), plain, typ),
                    Err(Error::AlgorithmMismatch(alg))
                );
            }
        }
    }
}

#[test]
fn capability_checks() {
    assert_eq!(check_signing_capable(PublicKeyAlgorithm::DSA), Ok(()));
    assert_eq!(
        check_signing_capable(PublicKeyAlgorithm::ECDH),
        Err(Error::AlgorithmMismatch(PublicKeyAlgorithm::ECDH))
    );
    assert_eq!(check_encryption_capable(PublicKeyAlgorithm::ECDH), Ok(()));
    assert_eq!(
        check_encryption_capable(PublicKeyAlgorithm::Ed448),
        Err(Error::AlgorithmMismatch(PublicKeyAlgorithm::Ed448))
    );
}

#[test]
fn serialize_for_hashing_is_stable() {
    let a = sample(PublicKeyAlgorithm::RSA, 1);
    let first = hashing_bytes(&a);
    let second = hashing_bytes(&a);
    assert_eq!(first, second);
    assert_eq!(first, vec![0x99, 0, 9, 4, 0x65, 0x53, 0xf1, 0x00, 1, 7, 1, 9]);
    // independently built, with the same public material
    let b = sample(PublicKeyAlgorithm::RSA, 1);
    assert_eq!(hashing_bytes(&b), first);
    // another primary key identifier, same public material
    let c = sample(PublicKeyAlgorithm::RSA, 200);
    assert_ne!(c.key_id(), a.key_id());
    assert_eq!(c.fingerprint(), a.fingerprint());
    assert_eq!(hashing_bytes(&c), first);
}

#[test]
fn serialize_appends_to_existing_output() {
    let key = sample(PublicKeyAlgorithm::Ed25519, 1);
    let mut out: Vec<u8> = vec![0xaa, 0xbb];
    key.serialize_for_hashing(&mut out).unwrap();
    let mut expected = vec![0xaa, 0xbb];
    expected.extend(hashing_bytes(&key));
    assert_eq!(out, expected);
}

#[test]
fn vec_sink_appends() {
    let mut out: Vec<u8> = vec![1];
    assert_eq!(out.write_bytes(&[2, 3]), Ok(()));
    assert_eq!(out.write_bytes(&[]), Ok(()));
    assert_eq!(out, vec![1, 2, 3]);
}

#[test]
fn ed25519_key_cannot_encrypt() {
    let key = sample(PublicKeyAlgorithm::Ed25519, 5);
    assert!(key.is_signing_key());
    assert!(!key.is_encryption_key());
    for plain in [&b""[..], &b"k"[..], &[0x5au8; 35][..]] {
        assert_eq!(
            key.encrypt(CountingRandom(0), plain, EskType::V3_4),
            Err(Error::AlgorithmMismatch(PublicKeyAlgorithm::Ed25519))
        );
    }
}

#[test]
fn x25519_key_cannot_verify() {
    let key = sample(PublicKeyAlgorithm::X25519, 6);
    assert!(!key.is_signing_key());
    assert!(key.is_encryption_key());
    for (msg, sig) in [
        (&b"m"[..], SignatureBytes::Native(mask(&key.public_params().data, b"m"))),
        (&b""[..], SignatureBytes::Mpis(vec![])),
    ] {
        assert_eq!(
            key.verify_signature(HashAlgorithm::Sha256, msg, &sig),
            Err(Error::AlgorithmMismatch(PublicKeyAlgorithm::X25519))
        );
    }
}

#[test]
fn hashing_frame_of_old_version_carries_validity() {
    let key = record(KeyVersion::V3, PublicKeyAlgorithm::RSA, 1, 0x0102_0304, Some(0x0a0b), vec![5])
        .unwrap();
    assert_eq!(hashing_bytes(&key), vec![0x99, 0, 9, 3, 1, 2, 3, 4, 0x0a, 0x0b, 1, 5]);
    let never = record(KeyVersion::V2, PublicKeyAlgorithm::DSA, 1, 0, None, vec![]).unwrap();
    assert_eq!(hashing_bytes(&never), vec![0x99, 0, 8, 2, 0, 0, 0, 0, 0, 0, 17]);
}

#[test]
fn hashing_frame_of_version_six() {
    let key = record(KeyVersion::V6, PublicKeyAlgorithm::Ed448, 1, 256, None, vec![0xee, 0xff])
        .unwrap();
    assert_eq!(
        hashing_bytes(&key),
        vec![0x9b, 0, 0, 0, 12, 6, 0, 0, 1, 0, 28, 0, 0, 0, 2, 0xee, 0xff]
    );
}

#[test]
fn record_rejects_fields_that_cannot_be_framed() {
    let before_epoch = record(KeyVersion::V4, PublicKeyAlgorithm::RSA, 1, -1, None, vec![1]);
    assert_eq!(before_epoch.err(), Some(Error::Malformed));
    let too_late = record(KeyVersion::V4, PublicKeyAlgorithm::RSA, 1, 1 << 32, None, vec![1]);
    assert_eq!(too_late.err(), Some(Error::Malformed));
    let last_second = record(KeyVersion::V4, PublicKeyAlgorithm::RSA, 1, (1 << 32) - 1, None, vec![]);
    assert!(last_second.is_ok());
    let largest = record(KeyVersion::V4, PublicKeyAlgorithm::RSA, 1, 0, None, vec![0; 65529]);
    assert_eq!(hashing_bytes(&largest.unwrap())[..3], [0x99, 0xff, 0xff]);
    let too_large = record(KeyVersion::V4, PublicKeyAlgorithm::RSA, 1, 0, None, vec![0; 65530]);
    assert_eq!(too_large.err(), Some(Error::Malformed));
    let old_too_large = record(KeyVersion::V3, PublicKeyAlgorithm::RSA, 1, 0, None, vec![0; 65528]);
    assert_eq!(old_too_large.err(), Some(Error::Malformed));
    let six = record(KeyVersion::V6, PublicKeyAlgorithm::RSA, 1, 0, None, vec![0; 70000]);
    assert!(six.is_ok());
}

#[test]
fn accessors_return_record_fields() {
    let key = sample(PublicKeyAlgorithm::ECDSA, 4);
    assert_eq!(key.version(), KeyVersion::V4);
    assert_eq!(key.fingerprint(), sample(PublicKeyAlgorithm::ECDSA, 9).fingerprint());
    assert_eq!(key.key_id(), KeyId { bytes: [4; 8] });
    assert_eq!(key.algorithm(), PublicKeyAlgorithm::ECDSA);
    assert_eq!(*key.created_at(), Timestamp { seconds: 1_700_000_000 });
    assert_eq!(key.expiration(), Some(365));
    assert_eq!(key.public_params(), &PublicParams { data: vec![7, 1, 9] });
    assert_eq!(KeyVersion::Other(9).number(), 9);
    assert_eq!(PublicKeyAlgorithm::X448.id(), 26);
}

#[test]
fn capable_keys_reach_the_scheme() {
    let key = sample(PublicKeyAlgorithm::RSA, 1);
    let sig = SignatureBytes::Native(mask(&[7, 1, 9], b"abcd"));
    assert_eq!(key.verify_signature(HashAlgorithm::Sha256, b"abcd", &sig), Ok(()));
    assert_eq!(
        key.verify_signature(HashAlgorithm::Sha256, b"abce", &sig),
        Err(Error::VerificationFailed)
    );
    let out = key.encrypt(CountingRandom(0), &[0xf0, 0x0f], EskType::V3_4).unwrap();
    assert_eq!(out.data, vec![1, 2, 0xf1, 0x0d]);
    let elgamal = sample(PublicKeyAlgorithm::Elgamal, 1);
    assert_eq!(
        elgamal.encrypt(CountingRandom(0), &[1], EskType::V6),
        Err(Error::EskTypeMismatch(PublicKeyAlgorithm::Elgamal, EskType::V6))
    );
}

fn hex(bytes: &[u8]) -> String {
    bytes.iter().map(|b| format!("{:02x}", b)).collect()
}

#[test]
fn fingerprint_is_digest_of_hashing_bytes() {
    let v4 = sample(PublicKeyAlgorithm::RSA, 1);
    let fp = v4.fingerprint();
    assert_eq!(fp.version, KeyVersion::V4);
    assert_eq!(hex(&fp.bytes), "0ecfd2b2ded1715b2558dc078c8b6e847828d37d");
    let v6 = record(KeyVersion::V6, PublicKeyAlgorithm::Ed448, 1, 256, None, vec![0xee, 0xff])
        .unwrap();
    assert_eq!(
        hex(&v6.fingerprint().bytes),
        "075c7de6463e593be2500ac7eea8c76cfc2b21dccfd256fd799195428e187a6c"
    );
    let other_scheme = sample(PublicKeyAlgorithm::DSA, 1);
    assert_ne!(other_scheme.fingerprint(), fp);
}

#[test]
fn hashing_frame_of_version_five() {
    let key = record(KeyVersion::V5, PublicKeyAlgorithm::RSA, 1, 9, None, vec![7, 1, 9]).unwrap();
    assert_eq!(
        hashing_bytes(&key),
        vec![0x9a, 0, 0, 0, 13, 5, 0, 0, 0, 9, 1, 0, 0, 0, 3, 7, 1, 9]
    );
    assert_eq!(
        hex(&key.fingerprint().bytes),
        "4ab341679696131752668a5e1a574cacd7ecb7f07b709b858796d27714ce9b7b"
    );
}
