use std::sync::Arc;

use hickory_dns::path::UnixPath;
use hickory_dns::tls::{
    CertifiedParts, ChainRequest, KeyEncoding, KeyFormat, KeyRequest, PrivateKey, ReadFailure,
    TlsCertConfig,
};
use rustls::crypto::{CryptoProvider, GetRandomFailed, KeyProvider, SecureRandom};
use rustls::crypto::WebPkiSupportedAlgorithms;
use rustls::pki_types::PrivateKeyDer;
use rustls::sign::{Signer, SigningKey};
use rustls::{SignatureAlgorithm, SignatureScheme};

/// Cryptography that takes any PKCS8 key of three bytes.
#[derive(Debug)]
struct ThreeBytes;

impl SecureRandom for ThreeBytes {
    fn fill(&self, _: &mut [u8]) -> Result<(), GetRandomFailed> {
        Err(GetRandomFailed)
    }
}

impl SigningKey for ThreeBytes {
    fn choose_scheme(&self, _: &[SignatureScheme]) -> Option<Box<dyn Signer>> {
        None
    }

    fn algorithm(&self) -> SignatureAlgorithm {
        SignatureAlgorithm::ED25519
    }
}

impl KeyProvider for ThreeBytes {
    fn load_private_key(
        &self,
        key: PrivateKeyDer<'static>,
    ) -> Result<Arc<dyn SigningKey>, rustls::Error> {
        match key {
            PrivateKeyDer::Pkcs8(key) if key.secret_pkcs8_der().len() == 3 => Ok(Arc::new(ThreeBytes)),
            _ => Err(rustls::Error::General("unusable".to_string())),
        }
    }
}

fn provider() -> CryptoProvider {
    CryptoProvider {
        cipher_suites: vec![],
        kx_groups: vec![],
        signature_verification_algorithms: WebPkiSupportedAlgorithms { all: &[], mapping: &[] },
        secure_random: &ThreeBytes,
        key_provider: &ThreeBytes,
    }
}

fn parts(encoding: KeyEncoding, der: Vec<u8>) -> CertifiedParts {
    CertifiedParts { chain: vec![vec![9, 8], vec![7]], key: PrivateKey { encoding, der } }
}

const CHAIN: &str = "-----BEGIN CERTIFICATE-----\nAQID\n-----END CERTIFICATE-----\n\
                     -----BEGIN CERTIFICATE-----\nBAU=\n-----END CERTIFICATE-----\n";

fn config(cert: &str, key: &str) -> TlsCertConfig {
    TlsCertConfig {
        path: UnixPath::new(cert),
        endpoint_name: None,
        private_key: UnixPath::new(key),
    }
}

fn refusal(cert: &str, key: &str) -> String {
    let config = config(cert, key);
    let zone_dir = UnixPath::new("/var/named");
    let res: Result<ChainRequest, String> = config.load(&zone_dir);
    match res {
        Ok(_) => panic!("accepted"),
        Err(text) => text,
    }
}

fn after_chain(key: &str) -> Result<KeyRequest, String> {
    let config = config("cert.pem", key);
    let zone_dir = UnixPath::new("/var/named");
    let request = config.load(&zone_dir).ok().unwrap();
    request.chain_read(Ok(CHAIN.as_bytes().to_vec()))
}

#[test]
fn certificate_is_taken_from_zone_dir() {
    let config = config("tls/cert.pem", "/etc/key.der");
    let zone_dir = UnixPath::new("/var/named");
    let request = config.load(&zone_dir).ok().unwrap();
    assert_eq!(request.cert_path, UnixPath::new("/var/named/tls/cert.pem"));
    let request = request.chain_read(Ok(CHAIN.as_bytes().to_vec())).ok().unwrap();
    assert_eq!(request.key_path, UnixPath::new("/etc/key.der"));
    assert_eq!(request.format, KeyFormat::Der);
    assert_eq!(request.chain, vec![vec![1, 2, 3], vec![4, 5]]);
    assert!(!request.key_path.has_parent_dir());
}

#[test]
fn certificate_needs_pem_extension() {
    assert_eq!(
        refusal("cert.der", "key.pem"),
        "unsupported certificate file format (expected `.pem` extension): cert.der"
    );
}

#[test]
fn extension_is_looked_at_before_parent_dirs() {
    assert_eq!(
        refusal("../cert.crt", "../key.pem"),
        "unsupported certificate file format (expected `.pem` extension): ../cert.crt"
    );
}

#[test]
fn certificate_paths_have_no_parent_dirs() {
    assert_eq!(
        refusal("../cert.pem", "../key.pem"),
        "tls_cert.path must not contain `..` components: ../cert.pem"
    );
    assert_eq!(
        refusal("cert.pem", "keys/../key.pem"),
        "tls_cert.private_key must not contain `..` components: keys/../key.pem"
    );
}

#[test]
fn key_formats_by_extension() {
    assert_eq!(after_chain("key.pem").ok().unwrap().format, KeyFormat::Pem);
    assert_eq!(after_chain("key.der").ok().unwrap().format, KeyFormat::Der);
    assert_eq!(after_chain("site.key").ok().unwrap().format, KeyFormat::Der);
    assert_eq!(
        after_chain("key.p12").err().unwrap(),
        "unsupported private key file format (expected `.pem` or `.der` extension): key.p12"
    );
}

#[test]
fn chain_that_cannot_be_read() {
    let config = config("cert.pem", "key.unsupported");
    let zone_dir = UnixPath::new("/z");
    let request = config.load(&zone_dir).ok().unwrap();
    let res = request.chain_read(Err(ReadFailure::Open("I/O error: gone".to_string())));
    assert_eq!(
        res.err().unwrap(),
        "failed to read cert chain from /z/cert.pem: I/O error: gone"
    );
    let request = config.load(&zone_dir).ok().unwrap();
    let res = request.chain_read(Err(ReadFailure::Read("I/O error: broken".to_string())));
    assert_eq!(
        res.err().unwrap(),
        "failed to parse cert chain from /z/cert.pem: I/O error: broken"
    );
}

#[test]
fn chain_that_is_no_pem() {
    let config = config("cert.pem", "key.pem");
    let zone_dir = UnixPath::new("/z");
    let request = config.load(&zone_dir).ok().unwrap();
    let data = b"-----BEGIN CERTIFICATE-----\nAQ*D\n-----END CERTIFICATE-----\n".to_vec();
    let text = request.chain_read(Ok(data)).err().unwrap();
    assert!(text.starts_with("failed to parse cert chain from /z/cert.pem: base64 decode error: "));
}

#[test]
fn parsed_chain_goes_on() {
    let config = config("cert.pem", "key.pem");
    let zone_dir = UnixPath::new("/z");
    let request = config.load(&zone_dir).ok().unwrap();
    let request = request.chain_parsed(Ok(vec![vec![9]])).ok().unwrap();
    assert_eq!(request.chain, vec![vec![9]]);
    assert_eq!(request.key_path, UnixPath::new("/z/key.pem"));
    let request = config.load(&zone_dir).ok().unwrap();
    assert_eq!(
        request.chain_parsed(Err("why".to_string())).err().unwrap(),
        "failed to parse cert chain from /z/cert.pem: why"
    );
}

#[test]
fn file_without_certificates_is_an_empty_chain() {
    let config = config("cert.pem", "key.pem");
    let zone_dir = UnixPath::new("/z");
    let request = config.load(&zone_dir).ok().unwrap();
    let request = request.chain_read(Ok(b"nothing".to_vec())).ok().unwrap();
    assert!(request.chain.is_empty());
}

#[test]
fn pem_keys() {
    for (label, encoding) in [
        ("PRIVATE KEY", KeyEncoding::Pkcs8),
        ("RSA PRIVATE KEY", KeyEncoding::Pkcs1),
        ("EC PRIVATE KEY", KeyEncoding::Sec1),
    ] {
        let data = format!("-----BEGIN {label}-----\nAQID\n-----END {label}-----\n");
        let parts = after_chain("key.pem").ok().unwrap().key_read(Ok(data.into_bytes())).unwrap();
        assert_eq!(parts.key, PrivateKey { encoding, der: vec![1, 2, 3] });
        assert_eq!(parts.chain, vec![vec![1, 2, 3], vec![4, 5]]);
    }
}

#[test]
fn pem_file_without_key() {
    let res = after_chain("key.pem").ok().unwrap().key_read(Ok(b"nothing".to_vec()));
    assert_eq!(
        res,
        Err("failed to read key from /var/named/key.pem: no items found".to_string())
    );
    let res = after_chain("key.pem").ok().unwrap().key_read(Err("gone".to_string()));
    assert_eq!(res, Err("failed to read key from /var/named/key.pem: gone".to_string()));
}

#[test]
fn der_keys() {
    for (der, encoding) in [
        (vec![0x30, 0x05, 0x02, 0x01, 0x00, 0x30, 0x00], KeyEncoding::Pkcs8),
        (vec![0x30, 0x04, 0x02, 0x01, 0x00, 0x02], KeyEncoding::Pkcs1),
        (vec![0x30, 0x81, 0x04, 0x02, 0x01, 0x01, 0x04], KeyEncoding::Sec1),
    ] {
        let parts = after_chain("site.key").ok().unwrap().key_read(Ok(der.clone())).unwrap();
        assert_eq!(parts.key, PrivateKey { encoding, der });
    }
}

#[test]
fn der_beginnings() {
    let found = |der: Vec<u8>| {
        let request = after_chain("key.der").ok().unwrap();
        request.key_read(Ok(der)).ok().map(|parts| parts.key.encoding)
    };
    assert_eq!(found(vec![]), None);
    assert_eq!(found(vec![0x30]), None);
    assert_eq!(found(vec![0x31, 0, 2, 1, 0]), None);
    assert_eq!(found(vec![0x30, 0, 2, 1]), None);
    assert_eq!(found(vec![0x30, 0, 2, 1, 0]), Some(KeyEncoding::Pkcs1));
    assert_eq!(found(vec![0x30, 0, 2, 1, 1]), Some(KeyEncoding::Sec1));
    assert_eq!(found(vec![0x30, 0, 2, 1, 2]), None);
    assert_eq!(found(vec![0x30, 0, 2, 1, 2, 0x30]), Some(KeyEncoding::Pkcs8));
    assert_eq!(found(vec![0x30, 0, 2, 2, 0, 0x30]), None);
    assert_eq!(found(vec![0x30, 127, 2, 1, 0]), Some(KeyEncoding::Pkcs1));
    assert_eq!(found(vec![0x30, 128, 2, 1, 0]), Some(KeyEncoding::Pkcs1));
    assert_eq!(found(vec![0x30, 130, 9, 9, 2, 1, 1, 4]), Some(KeyEncoding::Sec1));
    assert_eq!(found(vec![0x30, 255, 2, 1, 0]), None);
}

#[test]
fn der_file_without_key() {
    let res = after_chain("key.der").ok().unwrap().key_read(Ok(vec![1, 2, 3]));
    assert_eq!(
        res,
        Err("error parsing key DER: unknown or invalid key format".to_string())
    );
    let res = after_chain("key.der").ok().unwrap().key_read(Err("gone".to_string()));
    assert_eq!(res, Err("error reading key from file: gone".to_string()));
}

#[test]
fn parsed_key_ends_the_load() {
    let request = after_chain("key.der").ok().unwrap();
    let key = PrivateKey { encoding: KeyEncoding::Sec1, der: vec![7] };
    let parts = request.key_parsed(Ok(key)).unwrap();
    assert_eq!(parts.key.der, vec![7]);
    let request = after_chain("key.der").ok().unwrap();
    assert_eq!(
        request.key_parsed(Err("why".to_string())),
        Err("error parsing key DER: why".to_string())
    );
}

#[test]
fn usable_parts_are_certified() {
    let key = parts(KeyEncoding::Pkcs8, vec![1, 2, 3]).certify(&provider()).ok().unwrap();
    let chain: Vec<Vec<u8>> = key.cert.iter().map(|cert| cert.to_vec()).collect();
    assert_eq!(chain, vec![vec![9, 8], vec![7]]);
}

#[test]
fn unusable_parts_are_rejected() {
    let text = "failed to read certificate and keys: General(\"unusable\")".to_string();
    for rejected in [
        parts(KeyEncoding::Pkcs8, vec![1, 2]),
        parts(KeyEncoding::Pkcs1, vec![1, 2, 3]),
        parts(KeyEncoding::Sec1, vec![1, 2, 3]),
    ] {
        assert_eq!(rejected.certify(&provider()).err().unwrap(), text);
    }
}

#[test]
fn outcome_of_the_load() {
    assert_eq!(CertifiedParts::certified::<u8>(Ok(5)), Ok(5));
    assert_eq!(
        CertifiedParts::certified::<u8>(Err("why".to_string())),
        Err("failed to read certificate and keys: why".to_string())
    );
}
