//! TLS settings of a connection: which kind of TLS, and the certificate and
//! key files it uses. Paths are held as UTF-8 strings.

use vstd::prelude::*;

verus! {

/// How a connection is secured.
#[derive(Debug, PartialEq, Clone)]
pub enum ConnectionTLSConfig {
    /// No TLS.
    Plaintext,
    /// TLS, trusting the given CA certificate.
    ClientCACertificate(ClientCertificate),
    /// TLS without server certificate validation.
    NoSSLValidation,
    /// TLS with a client certificate.
    MutualTLS(MutualTLS),
    /// TLCP (GM/T 0024-2014).
    Tlcp(TlcpConfig),
}

/// A CA certificate file the client trusts.
#[derive(Debug, Clone, PartialEq)]
pub struct ClientCertificate {
    pub(crate) cert_file: String,
}

/// Mutual TLS: optional CA file, client certificate and client key.
#[derive(Debug, Clone, PartialEq)]
pub struct MutualTLS {
    pub(crate) validation: bool,
    pub(crate) cert_file: Option<String>,
    pub(crate) client_cert: String,
    pub(crate) client_key: String,
}

/// TLCP (dual-certificate SM2) settings: CA file and the signing and
/// encryption certificate/key pairs of the client.
#[derive(Debug, Clone, PartialEq)]
pub struct TlcpConfig {
    pub(crate) validation: bool,
    pub(crate) ca_cert: Option<String>,
    pub(crate) sign_cert: Option<String>,
    pub(crate) sign_key: Option<String>,
    pub(crate) enc_cert: Option<String>,
    pub(crate) enc_key: Option<String>,
}

pub struct ClientCertificateView {
    pub cert_file: Seq<char>,
}

pub struct MutualTLSView {
    pub validation: bool,
    pub cert_file: Option<Seq<char>>,
    pub client_cert: Seq<char>,
    pub client_key: Seq<char>,
}

pub struct TlcpConfigView {
    pub validation: bool,
    pub ca_cert: Option<Seq<char>>,
    pub sign_cert: Option<Seq<char>>,
    pub sign_key: Option<Seq<char>>,
    pub enc_cert: Option<Seq<char>>,
    pub enc_key: Option<Seq<char>>,
}

/// The view of an optional path given as a string slice.
pub open spec fn str_opt_view(p: Option<&str>) -> Option<Seq<char>> {
    match p {
        Some(s) => Some(s@),
        None => None,
    }
}

/// The view of an optional owned path.
pub open spec fn string_opt_view(p: Option<String>) -> Option<Seq<char>> {
    match p {
        Some(s) => Some(s@),
        None => None,
    }
}

impl View for ClientCertificate {
    type V = ClientCertificateView;

    closed spec fn view(&self) -> ClientCertificateView {
        ClientCertificateView { cert_file: self.cert_file@ }
    }
}

impl View for MutualTLS {
    type V = MutualTLSView;

    closed spec fn view(&self) -> MutualTLSView {
        MutualTLSView {
            validation: self.validation,
            cert_file: string_opt_view(self.cert_file),
            client_cert: self.client_cert@,
            client_key: self.client_key@,
        }
    }
}

impl View for TlcpConfig {
    type V = TlcpConfigView;

    closed spec fn view(&self) -> TlcpConfigView {
        TlcpConfigView {
            validation: self.validation,
            ca_cert: string_opt_view(self.ca_cert),
            sign_cert: string_opt_view(self.sign_cert),
            sign_key: string_opt_view(self.sign_key),
            enc_cert: string_opt_view(self.enc_cert),
            enc_key: string_opt_view(self.enc_key),
        }
    }
}

fn owned_path(p: Option<&str>) -> (r: Option<String>)
    ensures
        string_opt_view(r) == str_opt_view(p),
{
    match p {
        Some(s) => Some(s.to_owned()),
        None => None,
    }
}

fn path_ref(p: &Option<String>) -> (r: Option<&str>)
    ensures
        str_opt_view(r) == string_opt_view(*p),
{
    match p {
        Some(s) => Some(s.as_str()),
        None => None,
    }
}

fn copy_path(p: &Option<String>) -> (r: Option<String>)
    ensures
        r == *p,
{
    match p {
        Some(s) => Some(s.clone()),
        None => None,
    }
}

impl ClientCertificate {
    /// A CA certificate read from `path`.
    pub fn new(path: &str) -> (r: Self)
        ensures
            r@.cert_file == path@,
    {
        ClientCertificate { cert_file: path.to_owned() }
    }
}

impl MutualTLS {
    /// Mutual TLS with server certificate validation switched on.
    pub fn new(cert_file: Option<&str>, client_cert: &str, client_key: &str) -> (r: Self)
        ensures
            r@ == (MutualTLSView {
                validation: true,
                cert_file: str_opt_view(cert_file),
                client_cert: client_cert@,
                client_key: client_key@,
            }),
    {
        MutualTLS {
            validation: true,
            cert_file: owned_path(cert_file),
            client_cert: client_cert.to_owned(),
            client_key: client_key.to_owned(),
        }
    }

    /// The same settings with server certificate validation switched off.
    pub fn with_no_validation(&self) -> (r: Self)
        ensures
            r@ == (MutualTLSView { validation: false, ..self@ }),
    {
        MutualTLS {
            validation: false,
            cert_file: copy_path(&self.cert_file),
            client_cert: self.client_cert.clone(),
            client_key: self.client_key.clone(),
        }
    }
}

impl TlcpConfig {
    /// TLCP settings with server certificate validation switched on.
    pub fn new(
        ca_cert: Option<&str>,
        sign_cert: Option<&str>,
        sign_key: Option<&str>,
        enc_cert: Option<&str>,
        enc_key: Option<&str>,
    ) -> (r: Self)
        ensures
            r@ == (TlcpConfigView {
                validation: true,
                ca_cert: str_opt_view(ca_cert),
                sign_cert: str_opt_view(sign_cert),
                sign_key: str_opt_view(sign_key),
                enc_cert: str_opt_view(enc_cert),
                enc_key: str_opt_view(enc_key),
            }),
    {
        TlcpConfig {
            validation: true,
            ca_cert: owned_path(ca_cert),
            sign_cert: owned_path(sign_cert),
            sign_key: owned_path(sign_key),
            enc_cert: owned_path(enc_cert),
            enc_key: owned_path(enc_key),
        }
    }

    /// The same settings with server certificate validation switched off.
    pub fn with_no_validation(&self) -> (r: Self)
        ensures
            r@ == (TlcpConfigView { validation: false, ..self@ }),
    {
        TlcpConfig {
            validation: false,
            ca_cert: copy_path(&self.ca_cert),
            sign_cert: copy_path(&self.sign_cert),
            sign_key: copy_path(&self.sign_key),
            enc_cert: copy_path(&self.enc_cert),
            enc_key: copy_path(&self.enc_key),
        }
    }
    /// Whether the server certificate is validated.
    pub fn validation(&self) -> (r: bool)
        ensures
            r == self@.validation,
    {
        self.validation
    }

    /// The CA certificate file, if any.
    pub fn ca_cert(&self) -> (r: Option<&str>)
        ensures
            str_opt_view(r) == self@.ca_cert,
    {
        path_ref(&self.ca_cert)
    }

    /// The client signing certificate file, if any.
    pub fn sign_cert(&self) -> (r: Option<&str>)
        ensures
            str_opt_view(r) == self@.sign_cert,
    {
        path_ref(&self.sign_cert)
    }

    /// The client signing key file, if any.
    pub fn sign_key(&self) -> (r: Option<&str>)
        ensures
            str_opt_view(r) == self@.sign_key,
    {
        path_ref(&self.sign_key)
    }

    /// The client encryption certificate file, if any.
    pub fn enc_cert(&self) -> (r: Option<&str>)
        ensures
            str_opt_view(r) == self@.enc_cert,
    {
        path_ref(&self.enc_cert)
    }

    /// The client encryption key file, if any.
    pub fn enc_key(&self) -> (r: Option<&str>)
        ensures
            str_opt_view(r) == self@.enc_key,
    {
        path_ref(&self.enc_key)
    }
}

} // verus!
