//! The TLS certificate of the server: which files it is read from, and what they hold.
use rustls::crypto::CryptoProvider;
use rustls::pki_types::pem::PemObject;
use rustls::pki_types::{
    CertificateDer, PrivateKeyDer, PrivatePkcs1KeyDer, PrivatePkcs8KeyDer, PrivateSec1KeyDer,
};
use rustls::sign::CertifiedKey;
use vstd::prelude::*;
use vstd::string::*;
use vstd::utf8::*;

use crate::path::{
    extension, has_extension, has_parent_dir, joined, lossy_text, parent_dir_at, UnixPath,
};

verus! {

/// `rustls::crypto::CryptoProvider`, the cryptography that reads private keys.
#[verifier::external_type_specification]
#[verifier::external_body]
pub struct ExCryptoProvider(rustls::crypto::CryptoProvider);

/// `rustls::sign::CertifiedKey`, a certificate chain with a key that signs for it.
#[verifier::external_type_specification]
#[verifier::external_body]
pub struct ExCertifiedKey(rustls::sign::CertifiedKey);

/// Configuration for a TLS certificate.
#[derive(Debug, PartialEq, Eq)]
pub struct TlsCertConfig {
    /// The certificate chain, a PEM file.
    pub path: UnixPath,
    /// The name under which the server is reached.
    pub endpoint_name: Option<String>,
    /// The private key, a PEM or a DER file.
    pub private_key: UnixPath,
}

/// The structure of a private key.
#[derive(Clone, Copy, Debug, PartialEq, Eq, Structural)]
pub enum KeyEncoding {
    Pkcs1,
    Sec1,
    Pkcs8,
}

/// A private key.
#[derive(Debug, PartialEq, Eq)]
pub struct PrivateKey {
    pub encoding: KeyEncoding,
    pub der: Vec<u8>,
}

/// How the file of a private key is to be read.
#[derive(Clone, Copy, Debug, PartialEq, Eq, Structural)]
pub enum KeyFormat {
    Pem,
    Der,
}

/// The certificates in the PEM data, in order, or the text of the error that they break off with.
pub uninterp spec fn pem_certificates(data: Seq<u8>) -> Result<Seq<Seq<u8>>, Seq<char>>;

/// The first private key in the PEM data, with its structure where that has a name here, or the
/// text of the error.
pub uninterp spec fn pem_private_key(data: Seq<u8>) -> Result<
    (Option<KeyEncoding>, Seq<u8>),
    Seq<char>,
>;

/// Where the contents of a DER sequence start: after its tag and its length, which is one byte, or
/// one byte that says how many follow.
pub open spec fn sequence_contents(der: Seq<u8>) -> int {
    if der[1] < 128 {
        2
    } else {
        2 + (der[1] - 128)
    }
}

/// The structure of the private key with the given encoding, if the bytes begin like one: a
/// sequence that starts with a version, which a sequence follows in PKCS#8, and which otherwise is
/// 0 in PKCS#1 and 1 in SEC1.
pub open spec fn der_key_encoding(der: Seq<u8>) -> Option<KeyEncoding> {
    let at = sequence_contents(der);
    if der.len() < 2 || der[0] != 0x30 || der.len() < at + 3 || der[at] != 0x02 || der[at + 1]
        != 0x01 {
        None
    } else if der.len() > at + 3 && der[at + 3] == 0x30 {
        Some(KeyEncoding::Pkcs8)
    } else if der[at + 2] == 0 {
        Some(KeyEncoding::Pkcs1)
    } else if der[at + 2] == 1 {
        Some(KeyEncoding::Sec1)
    } else {
        None
    }
}

/// The bytes of each certificate of a chain.
pub open spec fn chain_bytes(chain: Seq<Vec<u8>>) -> Seq<Seq<u8>> {
    chain.map_values(|cert: Vec<u8>| cert@)
}

/// `CertificateDer::pem_reader_iter` of `rustls::pki_types`, gone through to its end or to its
/// first error: the certificates, or the text of the error, depend on the data alone.
#[verifier::external_body]
fn read_pem_certificates(data: &[u8]) -> (res: Result<Vec<Vec<u8>>, String>)
    ensures
        match res {
            Ok(chain) => pem_certificates(data@) == Ok::<Seq<Seq<u8>>, Seq<char>>(
                chain_bytes(chain@),
            ),
            Err(text) => pem_certificates(data@) == Err::<Seq<Seq<u8>>, Seq<char>>(text@),
        },
{
    CertificateDer::pem_reader_iter(data)
        .map(|item| item.map(|cert| cert.to_vec()).map_err(|e| e.to_string()))
        .collect()
}

/// `PrivateKeyDer::from_pem_reader` of `rustls::pki_types`: the first key, or the text of the
/// error, depends on the data alone.
#[verifier::external_body]
fn read_pem_key(data: &[u8]) -> (res: Result<(Option<KeyEncoding>, Vec<u8>), String>)
    ensures
        match res {
            Ok(key) => pem_private_key(data@) == Ok::<(Option<KeyEncoding>, Seq<u8>), Seq<char>>(
                (key.0, key.1@),
            ),
            Err(text) => pem_private_key(data@) == Err::<
                (Option<KeyEncoding>, Seq<u8>),
                Seq<char>,
            >(text@),
        },
{
    let key = PrivateKeyDer::from_pem_reader(data).map_err(|e| e.to_string())?;
    let encoding = match &key {
        PrivateKeyDer::Pkcs1(_) => Some(KeyEncoding::Pkcs1),
        PrivateKeyDer::Sec1(_) => Some(KeyEncoding::Sec1),
        PrivateKeyDer::Pkcs8(_) => Some(KeyEncoding::Pkcs8),
        _ => None,
    };
    Ok((encoding, key.secret_der().to_vec()))
}

/// `PrivateKeyDer::try_from` of `rustls::pki_types`, for bytes: the key keeps its bytes, and how
/// they begin decides its structure; there is one error, with a fixed text.
#[verifier::external_body]
fn read_der_key(der: Vec<u8>) -> (res: Result<(Option<KeyEncoding>, Vec<u8>), String>)
    ensures
        match res {
            Ok(key) => key.0 is Some && key.0 == der_key_encoding(der@) && key.1@ == der@,
            Err(text) => der_key_encoding(der@) is None && text@
                == "unknown or invalid key format"@,
        },
{
    let key = PrivateKeyDer::try_from(der)?;
    let encoding = match &key {
        PrivateKeyDer::Pkcs1(_) => Some(KeyEncoding::Pkcs1),
        PrivateKeyDer::Sec1(_) => Some(KeyEncoding::Sec1),
        PrivateKeyDer::Pkcs8(_) => Some(KeyEncoding::Pkcs8),
        _ => None,
    };
    Ok((encoding, key.secret_der().to_vec()))
}

/// What is said of a private key whose structure is not known.
pub const UNKNOWN_KEY_FORMAT: &'static str = "unknown or invalid key format";

/// The private key that was found, unless its structure is not known.
pub open spec fn known_key(
    found: Result<(Option<KeyEncoding>, Seq<u8>), Seq<char>>,
) -> Result<(KeyEncoding, Seq<u8>), Seq<char>> {
    match found {
        Ok((Some(encoding), der)) => Ok((encoding, der)),
        Ok((None, _)) => Err(UNKNOWN_KEY_FORMAT@),
        Err(why) => Err(why),
    }
}

fn private_key(found: Result<(Option<KeyEncoding>, Vec<u8>), String>) -> (res: Result<
    PrivateKey,
    String,
>)
    ensures
        match (found, res) {
            (Ok((Some(encoding), der)), Ok(key)) => key.encoding == encoding && key.der@ == der@,
            (Ok((None, _)), Err(text)) => text@ == UNKNOWN_KEY_FORMAT@,
            (Err(why), Err(text)) => text@ == why@,
            _ => false,
        },
{
    match found {
        Ok((Some(encoding), der)) => Ok(PrivateKey { encoding, der }),
        Ok((None, _)) => Err(UNKNOWN_KEY_FORMAT.to_string()),
        Err(why) => Err(why),
    }
}

/// What is said of a path with `..` in it.
pub open spec fn parent_dir_text(path: Seq<u8>, field: Seq<char>) -> Seq<char> {
    field + " must not contain `..` components: "@ + lossy_text(path)
}

/// Rejects a path that has `..` among its parts. Absolute paths are allowed.
pub fn reject_parent_dir_components(path: &UnixPath, field: &str) -> (res: Result<(), String>)
    ensures
        match res {
            Ok(_) => !has_parent_dir(path@),
            Err(text) => has_parent_dir(path@) && text@ == parent_dir_text(path@, field@),
        },
{
    if path.has_parent_dir() {
        let mut text = field.to_string();
        text.append(" must not contain `..` components: ");
        text.append(path.display().as_str());
        return Err(text);
    }
    Ok(())
}

/// A text, the path that it is about, and why.
pub open spec fn about_path(lead: Seq<char>, path: Seq<u8>, why: Seq<char>) -> Seq<char> {
    lead + lossy_text(path) + ": "@ + why
}

fn text_about_path(lead: &str, path: &UnixPath, why: &str) -> (res: String)
    ensures
        res@ == about_path(lead@, path@, why@),
{
    let mut text = lead.to_string();
    text.append(path.display().as_str());
    text.append(": ");
    text.append(why);
    text
}

/// The certificate chain is to be read from `cert_path`.
pub struct ChainRequest<'a> {
    pub config: &'a TlsCertConfig,
    pub zone_dir: &'a UnixPath,
    pub cert_path: UnixPath,
}

/// The private key is to be read from `key_path`.
pub struct KeyRequest {
    pub key_path: UnixPath,
    pub format: KeyFormat,
    pub chain: Vec<Vec<u8>>,
}

/// A certificate chain and a private key, both read.
#[derive(Debug, PartialEq, Eq)]
pub struct CertifiedParts {
    pub chain: Vec<Vec<u8>>,
    pub key: PrivateKey,
}

/// Why the contents of a file could not be had.
#[derive(Debug, PartialEq, Eq)]
pub enum ReadFailure {
    /// The file could not be opened.
    Open(String),
    /// It broke off.
    Read(String),
}

/// The format in which a private key is read, by the extension of its file.
pub open spec fn key_format(path: Seq<u8>) -> Option<KeyFormat> {
    if has_extension(path, "pem"@) {
        Some(KeyFormat::Pem)
    } else if has_extension(path, "der"@) || has_extension(path, "key"@) {
        Some(KeyFormat::Der)
    } else {
        None
    }
}

impl TlsCertConfig {
    /// Why the certificate cannot be loaded, as far as its paths tell.
    pub open spec fn refusal(self) -> Option<Seq<char>> {
        if !has_extension(self.path@, "pem"@) {
            Some(
                "unsupported certificate file format (expected `.pem` extension): "@ + lossy_text(
                    self.path@,
                ),
            )
        } else if has_parent_dir(self.path@) {
            Some(parent_dir_text(self.path@, "tls_cert.path"@))
        } else if has_parent_dir(self.private_key@) {
            Some(parent_dir_text(self.private_key@, "tls_cert.private_key"@))
        } else {
            None
        }
    }

    /// Starts to load the certificate: its paths are taken from `zone_dir`.
    pub fn load<'a>(&'a self, zone_dir: &'a UnixPath) -> (res: Result<ChainRequest<'a>, String>)
        ensures
            match res {
                Ok(request) => {
                    &&& self.refusal() is None
                    &&& request.config == self
                    &&& request.zone_dir == zone_dir
                    &&& request.cert_path@ == joined(zone_dir@, self.path@)
                },
                Err(text) => self.refusal() == Some(text@),
            },
    {
        if !self.path.has_extension("pem") {
            let mut text =
                "unsupported certificate file format (expected `.pem` extension): ".to_string();
            text.append(self.path.display().as_str());
            return Err(text);
        }
        match reject_parent_dir_components(&self.path, "tls_cert.path") {
            Ok(_) => {},
            Err(text) => {
                return Err(text);
            },
        }
        match reject_parent_dir_components(&self.private_key, "tls_cert.private_key") {
            Ok(_) => {},
            Err(text) => {
                return Err(text);
            },
        }
        let cert_path = zone_dir.join(&self.path);
        Ok(ChainRequest { config: self, zone_dir, cert_path })
    }
}

impl<'a> ChainRequest<'a> {
    /// What is said where the file of the chain cannot be opened.
    pub open spec fn unread_text(self, why: Seq<char>) -> Seq<char> {
        about_path("failed to read cert chain from "@, self.cert_path@, why)
    }

    /// What is said where the file of the chain holds no chain.
    pub open spec fn unparsed_text(self, why: Seq<char>) -> Seq<char> {
        about_path("failed to parse cert chain from "@, self.cert_path@, why)
    }

    /// Whether `res` is what follows from a chain that was parsed.
    pub open spec fn goes_on_with(
        self,
        chain: Seq<Seq<u8>>,
        res: Result<KeyRequest, String>,
    ) -> bool {
        match res {
            Ok(request) => {
                &&& chain_bytes(request.chain@) == chain
                &&& key_format(self.config.private_key@) == Some(request.format)
                &&& request.key_path@ == joined(self.zone_dir@, self.config.private_key@)
            },
            Err(text) => {
                &&& key_format(self.config.private_key@) is None
                &&& text@
                    == "unsupported private key file format (expected `.pem` or `.der` extension): "@
                    + lossy_text(self.config.private_key@)
            },
        }
    }

    /// Goes on with the chain that the file holds, or with why it holds none.
    pub fn chain_parsed(self, chain: Result<Vec<Vec<u8>>, String>) -> (res: Result<
        KeyRequest,
        String,
    >)
        ensures
            match chain {
                Ok(chain) => self.goes_on_with(chain_bytes(chain@), res),
                Err(why) => res matches Err(text) && text@ == self.unparsed_text(why@),
            },
    {
        let chain = match chain {
            Ok(chain) => chain,
            Err(why) => {
                return Err(
                    text_about_path(
                        "failed to parse cert chain from ",
                        &self.cert_path,
                        why.as_str(),
                    ),
                );
            },
        };
        let key = &self.config.private_key;
        let format = if key.has_extension("pem") {
            KeyFormat::Pem
        } else if key.has_extension("der") || key.has_extension("key") {
            KeyFormat::Der
        } else {
            let mut text =
                "unsupported private key file format (expected `.pem` or `.der` extension): ".to_string();
            text.append(key.display().as_str());
            return Err(text);
        };
        Ok(KeyRequest { key_path: self.zone_dir.join(key), format, chain })
    }

    /// Goes on with the contents of the file.
    pub fn chain_read(self, contents: Result<Vec<u8>, ReadFailure>) -> (res: Result<
        KeyRequest,
        String,
    >)
        ensures
            match contents {
                Ok(data) => match pem_certificates(data@) {
                    Ok(chain) => self.goes_on_with(chain, res),
                    Err(why) => res matches Err(text) && text@ == self.unparsed_text(why),
                },
                Err(ReadFailure::Open(why)) => res matches Err(text) && text@ == self.unread_text(
                    why@,
                ),
                Err(ReadFailure::Read(why)) => res matches Err(text) && text@
                    == self.unparsed_text(why@),
            },
    {
        match contents {
            Ok(data) => {
                let chain = read_pem_certificates(data.as_slice());
                self.chain_parsed(chain)
            },
            Err(ReadFailure::Open(why)) => Err(
                text_about_path("failed to read cert chain from ", &self.cert_path, why.as_str()),
            ),
            Err(ReadFailure::Read(why)) => self.chain_parsed(Err(why)),
        }
    }
}

impl KeyRequest {
    /// What is said where the file cannot be read.
    pub open spec fn unread_text(self, why: Seq<char>) -> Seq<char> {
        match self.format {
            KeyFormat::Pem => about_path("failed to read key from "@, self.key_path@, why),
            KeyFormat::Der => "error reading key from file: "@ + why,
        }
    }

    /// What is said where the file holds no key.
    pub open spec fn unparsed_text(self, why: Seq<char>) -> Seq<char> {
        match self.format {
            KeyFormat::Pem => about_path("failed to read key from "@, self.key_path@, why),
            KeyFormat::Der => "error parsing key DER: "@ + why,
        }
    }

    /// The key that the contents of the file hold, or why they hold none.
    pub open spec fn key_in(self, data: Seq<u8>) -> Result<(KeyEncoding, Seq<u8>), Seq<char>> {
        match self.format {
            KeyFormat::Pem => known_key(pem_private_key(data)),
            KeyFormat::Der => known_key(Ok((der_key_encoding(data), data))),
        }
    }

    /// Ends with the key that the file holds, or with why it holds none.
    pub fn key_parsed(self, key: Result<PrivateKey, String>) -> (res: Result<
        CertifiedParts,
        String,
    >)
        ensures
            match (key, res) {
                (Ok(key), Ok(parts)) => parts.chain == self.chain && parts.key == key,
                (Err(why), Err(text)) => text@ == self.unparsed_text(why@),
                _ => false,
            },
    {
        match key {
            Ok(key) => Ok(CertifiedParts { chain: self.chain, key }),
            Err(why) => match self.format {
                KeyFormat::Pem => Err(
                    text_about_path("failed to read key from ", &self.key_path, why.as_str()),
                ),
                KeyFormat::Der => {
                    let mut text = "error parsing key DER: ".to_string();
                    text.append(why.as_str());
                    Err(text)
                },
            },
        }
    }

    /// Ends with the contents of the file.
    pub fn key_read(self, contents: Result<Vec<u8>, String>) -> (res: Result<
        CertifiedParts,
        String,
    >)
        ensures
            match contents {
                Ok(data) => match (self.key_in(data@), res) {
                    (Ok(found), Ok(parts)) => {
                        &&& parts.chain == self.chain
                        &&& parts.key.encoding == found.0
                        &&& parts.key.der@ == found.1
                    },
                    (Err(why), Err(text)) => text@ == self.unparsed_text(why),
                    _ => false,
                },
                Err(why) => res matches Err(text) && text@ == self.unread_text(why@),
            },
    {
        match contents {
            Ok(data) => {
                let found = match self.format {
                    KeyFormat::Pem => read_pem_key(data.as_slice()),
                    KeyFormat::Der => read_der_key(data),
                };
                self.key_parsed(private_key(found))
            },
            Err(why) => match self.format {
                KeyFormat::Pem => self.key_parsed(Err(why)),
                KeyFormat::Der => {
                    let mut text = "error reading key from file: ".to_string();
                    text.append(why.as_str());
                    Err(text)
                },
            },
        }
    }
}

/// The certificates in a certified key, in order.
pub uninterp spec fn certificates_in(key: &CertifiedKey) -> Seq<Seq<u8>>;

/// Whether a certified key signs with what `provider` loaded from the private key `der` of the
/// structure `encoding`.
pub uninterp spec fn signs_with(
    key: &CertifiedKey,
    provider: &CryptoProvider,
    encoding: KeyEncoding,
    der: Seq<u8>,
) -> bool;

/// `CertifiedKey::from_der` of `rustls`: a certified key holds the chain that it was made from,
/// and signs with what the provider loads from the private key that it was made from. Whether
/// there is one is for the provider to say, and is not stated; nor is the text of the error,
/// which is what `Debug` shows of it.
#[verifier::external_body]
fn certified_key_from_der(parts: CertifiedParts, provider: &CryptoProvider) -> (res: Result<
    CertifiedKey,
    String,
>)
    ensures
        res matches Ok(key) ==> certificates_in(&key) == chain_bytes(parts.chain@) && signs_with(
            &key,
            provider,
            parts.key.encoding,
            parts.key.der@,
        ),
{
    let chain = parts.chain.into_iter().map(CertificateDer::from).collect();
    let key = match parts.key.encoding {
        KeyEncoding::Pkcs1 => PrivatePkcs1KeyDer::from(parts.key.der).into(),
        KeyEncoding::Sec1 => PrivateSec1KeyDer::from(parts.key.der).into(),
        KeyEncoding::Pkcs8 => PrivatePkcs8KeyDer::from(parts.key.der).into(),
    };
    CertifiedKey::from_der(chain, key, provider).map_err(|err| format!("{err:?}"))
}

/// What is said where a chain and a key do not make a usable certificate.
pub open spec fn rejected_text(why: Seq<char>) -> Seq<char> {
    "failed to read certificate and keys: "@ + why
}

impl CertifiedParts {
    /// The outcome of the load, from whether the chain and the key make a usable certificate.
    pub fn certified<K>(outcome: Result<K, String>) -> (res: Result<K, String>)
        ensures
            match (outcome, res) {
                (Ok(made), Ok(key)) => key == made,
                (Err(why), Err(text)) => text@ == rejected_text(why@),
                _ => false,
            },
    {
        match outcome {
            Ok(key) => Ok(key),
            Err(why) => {
                let mut text = "failed to read certificate and keys: ".to_string();
                text.append(why.as_str());
                Err(text)
            },
        }
    }

    /// Makes a certified key that holds the chain and signs with the key, if the provider can use
    /// them.
    pub fn certify(self, provider: &CryptoProvider) -> (res: Result<CertifiedKey, String>)
        ensures
            match res {
                Ok(key) => {
                    &&& certificates_in(&key) == chain_bytes(self.chain@)
                    &&& signs_with(&key, provider, self.key.encoding, self.key.der@)
                },
                Err(text) => exists|why: Seq<char>| text@ == #[trigger] rejected_text(why),
            },
    {
        Self::certified(certified_key_from_der(self, provider))
    }
}

proof fn ascii_extensions()
    ensures
        encode_utf8("pem"@) == seq![0x70u8, 0x65u8, 0x6du8],
        encode_utf8("der"@) == seq![0x64u8, 0x65u8, 0x72u8],
        encode_utf8("key"@) == seq![0x6bu8, 0x65u8, 0x79u8],
{
    reveal_strlit("pem");
    reveal_strlit("der");
    reveal_strlit("key");
    is_ascii_chars_encode_utf8("pem"@);
    is_ascii_chars_encode_utf8("der"@);
    is_ascii_chars_encode_utf8("key"@);
    assert(encode_utf8("pem"@) =~= seq![0x70u8, 0x65u8, 0x6du8]);
    assert(encode_utf8("der"@) =~= seq![0x64u8, 0x65u8, 0x72u8]);
    assert(encode_utf8("key"@) =~= seq![0x6bu8, 0x65u8, 0x79u8]);
}

/// Neither file of a certificate that is loaded is reached through `..`, wherever the zone
/// directory has no such part itself.
pub proof fn certificate_files_stay_below(config: TlsCertConfig, zone_dir: Seq<u8>)
    requires
        config.refusal() is None,
        !has_parent_dir(zone_dir),
    ensures
        !has_parent_dir(joined(zone_dir, config.path@)),
        !has_parent_dir(joined(zone_dir, config.private_key@)),
{
    crate::path::joined_paths_stay_below(zone_dir, config.path@);
    crate::path::joined_paths_stay_below(zone_dir, config.private_key@);
}

/// A certificate is loaded just where its chain is a `.pem` file and neither of its paths has two
/// lone dots in it. Whether a path is absolute does not matter: an absolute one is taken as it is,
/// and any other from the zone directory.
pub proof fn paths_alone_decide_a_load<'a>(
    config: &'a TlsCertConfig,
    zone_dir: &'a UnixPath,
    res: Result<ChainRequest<'a>, String>,
)
    requires
        call_ensures(TlsCertConfig::load, (config, zone_dir), res),
    ensures
        res is Ok <==> extension(config.path@) == Some(seq![0x70u8, 0x65u8, 0x6du8]) && !(exists|
            i: int,
        | parent_dir_at(config.path@, i)) && !(exists|i: int| parent_dir_at(config.private_key@, i)),
        res matches Ok(request) ==> request.config == config && request.zone_dir == zone_dir
            && request.cert_path@ == joined(zone_dir@, config.path@),
        res is Ok && config.path@.len() > 0 && config.path@[0] == 0x2f ==> res->Ok_0.cert_path@
            == config.path@,
{
    ascii_extensions();
    crate::path::lone_dots(config.path@);
    crate::path::lone_dots(config.private_key@);
}

/// A load that is refused says why: first the extension of the chain is looked at, then the path
/// of the chain, then that of the key.
pub proof fn refused_load_says_why<'a>(
    config: &'a TlsCertConfig,
    zone_dir: &'a UnixPath,
    res: Result<ChainRequest<'a>, String>,
)
    requires
        call_ensures(TlsCertConfig::load, (config, zone_dir), res),
    ensures
        res matches Err(text) ==> text@ == if extension(config.path@) != Some(
            seq![0x70u8, 0x65u8, 0x6du8],
        ) {
            "unsupported certificate file format (expected `.pem` extension): "@ + lossy_text(
                config.path@,
            )
        } else if exists|i: int| parent_dir_at(config.path@, i) {
            "tls_cert.path"@ + " must not contain `..` components: "@ + lossy_text(config.path@)
        } else {
            "tls_cert.private_key"@ + " must not contain `..` components: "@ + lossy_text(
                config.private_key@,
            )
        },
{
    ascii_extensions();
    crate::path::lone_dots(config.path@);
    crate::path::lone_dots(config.private_key@);
}

/// A path is rejected just where it has two lone dots in it, absolute or not, and under the name
/// of its field.
pub proof fn only_lone_dots_are_rejected(path: &UnixPath, field: &str, res: Result<(), String>)
    requires
        call_ensures(reject_parent_dir_components, (path, field), res),
    ensures
        res is Err <==> exists|i: int| parent_dir_at(path@, i),
        res matches Err(text) ==> text@ == field@ + " must not contain `..` components: "@
            + lossy_text(path@),
{
    crate::path::lone_dots(path@);
}

/// Whether a load goes on rightly from the certificates of its chain: a `.pem` key is read as PEM,
/// a `.der` or `.key` one as DER, from where the zone directory has it, and any other is refused.
pub open spec fn key_is_asked_for(
    request: ChainRequest<'_>,
    certificates: Seq<Seq<u8>>,
    res: Result<KeyRequest, String>,
) -> bool {
    let ext = extension(request.config.private_key@);
    let pem = ext == Some(seq![0x70u8, 0x65u8, 0x6du8]);
    let der = ext == Some(seq![0x64u8, 0x65u8, 0x72u8]) || ext == Some(
        seq![0x6bu8, 0x65u8, 0x79u8],
    );
    match res {
        Ok(next) => {
            &&& pem && next.format == KeyFormat::Pem || der && next.format == KeyFormat::Der
            &&& next.key_path@ == joined(request.zone_dir@, request.config.private_key@)
            &&& next.chain@.len() == certificates.len()
            &&& forall|i: int|
                0 <= i < certificates.len() ==> (#[trigger] next.chain@[i])@ == certificates[i]
        },
        Err(text) => {
            &&& !pem && !der
            &&& text@
                == "unsupported private key file format (expected `.pem` or `.der` extension): "@
                + lossy_text(request.config.private_key@)
        },
    }
}

proof fn going_on_asks_for_key(
    request: ChainRequest<'_>,
    certificates: Seq<Seq<u8>>,
    res: Result<KeyRequest, String>,
)
    requires
        request.goes_on_with(certificates, res),
    ensures
        key_is_asked_for(request, certificates, res),
{
    ascii_extensions();
    if let Ok(next) = res {
        assert forall|i: int| 0 <= i < certificates.len() implies (#[trigger] next.chain@[i])@
            == certificates[i] by {
            assert(chain_bytes(next.chain@)[i] == next.chain@[i]@);
        }
    }
}

/// Once the chain is parsed the key is asked for; a chain that is not parsed ends the load.
pub proof fn parsed_chain_leads_to_the_key<'a>(
    request: ChainRequest<'a>,
    chain: Result<Vec<Vec<u8>>, String>,
    res: Result<KeyRequest, String>,
)
    requires
        call_ensures(ChainRequest::chain_parsed, (request, chain), res),
    ensures
        match chain {
            Ok(chain) => key_is_asked_for(
                request,
                Seq::new(chain@.len(), |i: int| chain@[i]@),
                res,
            ),
            Err(why) => res matches Err(text) && text@ == "failed to parse cert chain from "@
                + lossy_text(request.cert_path@) + ": "@ + why@,
        },
{
    if let Ok(chain) = chain {
        let certificates = Seq::new(chain@.len(), |i: int| chain@[i]@);
        assert(chain_bytes(chain@) =~= certificates);
        going_on_asks_for_key(request, certificates, res);
    }
}

/// The chain is what the file holds as PEM; a file that cannot be opened, or that breaks off, ends
/// the load.
pub proof fn read_chain_leads_to_the_key<'a>(
    request: ChainRequest<'a>,
    contents: Result<Vec<u8>, ReadFailure>,
    res: Result<KeyRequest, String>,
)
    requires
        call_ensures(ChainRequest::chain_read, (request, contents), res),
    ensures
        match contents {
            Ok(data) => match pem_certificates(data@) {
                Ok(certificates) => key_is_asked_for(request, certificates, res),
                Err(why) => res matches Err(text) && text@ == "failed to parse cert chain from "@
                    + lossy_text(request.cert_path@) + ": "@ + why,
            },
            Err(ReadFailure::Open(why)) => res matches Err(text) && text@
                == "failed to read cert chain from "@ + lossy_text(request.cert_path@) + ": "@
                + why@,
            Err(ReadFailure::Read(why)) => res matches Err(text) && text@
                == "failed to parse cert chain from "@ + lossy_text(request.cert_path@) + ": "@
                + why@,
        },
{
    if let Ok(data) = contents {
        if let Ok(certificates) = pem_certificates(data@) {
            going_on_asks_for_key(request, certificates, res);
        }
    }
}

/// A PEM file gives the first key in it, and a DER file is the key itself; the chain stays what it
/// was. A file that holds no key, or that cannot be read, ends the load.
pub proof fn key_is_what_the_file_holds(
    request: KeyRequest,
    contents: Result<Vec<u8>, String>,
    res: Result<CertifiedParts, String>,
)
    requires
        call_ensures(KeyRequest::key_read, (request, contents), res),
    ensures
        res matches Ok(parts) ==> contents is Ok && parts.chain == request.chain
            && match request.format {
            KeyFormat::Pem => pem_private_key(contents->Ok_0@) == Ok::<
                (Option<KeyEncoding>, Seq<u8>),
                Seq<char>,
            >((Some(parts.key.encoding), parts.key.der@)),
            KeyFormat::Der => parts.key.der@ == contents->Ok_0@ && der_key_encoding(
                contents->Ok_0@,
            ) == Some(parts.key.encoding),
        },
        res matches Err(text) ==> match (request.format, contents) {
            (KeyFormat::Pem, Ok(data)) => match pem_private_key(data@) {
                Ok((encoding, _)) => encoding is None && text@ == "failed to read key from "@
                    + lossy_text(request.key_path@) + ": "@ + "unknown or invalid key format"@,
                Err(why) => text@ == "failed to read key from "@ + lossy_text(request.key_path@)
                    + ": "@ + why,
            },
            (KeyFormat::Pem, Err(why)) => text@ == "failed to read key from "@ + lossy_text(
                request.key_path@,
            ) + ": "@ + why@,
            (KeyFormat::Der, Ok(data)) => der_key_encoding(data@) is None && text@
                == "error parsing key DER: "@ + "unknown or invalid key format"@,
            (KeyFormat::Der, Err(why)) => text@ == "error reading key from file: "@ + why@,
        },
{
}

/// A key that was parsed stays with the chain that was read before it, and a certified key holds
/// that chain and signs with that key; what fails on the way ends the load, with the reason.
pub proof fn chain_and_key_stay_together(
    request: KeyRequest,
    key: Result<PrivateKey, String>,
    parsed: Result<CertifiedParts, String>,
    provider: &CryptoProvider,
    certified: Result<CertifiedKey, String>,
)
    requires
        call_ensures(KeyRequest::key_parsed, (request, key), parsed),
        parsed matches Ok(parts) ==> call_ensures(
            CertifiedParts::certify,
            (parts, provider),
            certified,
        ),
    ensures
        parsed is Ok <==> key is Ok,
        parsed is Ok && certified is Ok ==> certificates_in(&certified->Ok_0) == chain_bytes(
            request.chain@,
        ) && signs_with(&certified->Ok_0, provider, key->Ok_0.encoding, key->Ok_0.der@),
        parsed matches Err(text) ==> text@ == match request.format {
            KeyFormat::Pem => "failed to read key from "@ + lossy_text(request.key_path@) + ": "@
                + key->Err_0@,
            KeyFormat::Der => "error parsing key DER: "@ + key->Err_0@,
        },
{
}

/// Whether a chain and a key can be used is passed on, with the reason where they cannot.
pub proof fn outcome_is_passed_on<K>(outcome: Result<K, String>, res: Result<K, String>)
    requires
        call_ensures(CertifiedParts::certified::<K>, (outcome,), res),
    ensures
        outcome matches Ok(key) ==> res == Ok::<K, String>(key),
        outcome matches Err(why) ==> res matches Err(text) && text@
            == "failed to read certificate and keys: "@ + why@,
{
}

} // verus!
