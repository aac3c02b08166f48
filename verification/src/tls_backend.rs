//! The Tongsuo (TLCP-capable OpenSSL fork) and Tokio items the TLCP layer
//! uses. Each function here makes one call into the outside crate; its
//! contract is what that crate's source shows of it. What a context
//! builder, a context, a session and a stream have been configured with is
//! kept as a log of settings (`builder_settings` and its companions): each
//! configuring call adds the setting it was handed.

use vstd::prelude::*;

use tokio::net::TcpStream;
use tokio_tongsuo::SslStream;
use tongsuo::error::ErrorStack;
use tongsuo::ssl::{
    Error as SslError, Ssl, SslContext, SslContextBuilder, SslFiletype, SslMethod, SslVerifyMode,
};
use tongsuo::x509::verify::X509CheckFlags;

use crate::report::string_opt;

verus! {

#[verifier::external_type_specification]
#[verifier::external_body]
pub struct ExSslContextBuilder(SslContextBuilder);

#[verifier::external_type_specification]
#[verifier::external_body]
pub struct ExSslContext(SslContext);

#[verifier::external_type_specification]
#[verifier::external_body]
pub struct ExSsl(Ssl);

#[verifier::external_type_specification]
#[verifier::external_body]
pub struct ExErrorStack(ErrorStack);

#[verifier::external_type_specification]
#[verifier::external_body]
pub struct ExSslError(SslError);

#[verifier::external_type_specification]
#[verifier::external_body]
pub struct ExTcpStream(TcpStream);

#[verifier::external_type_specification]
#[verifier::external_body]
#[verifier::reject_recursive_types(S)]
pub struct ExSslStream<S>(SslStream<S>);

/// Server certificate verification modes (`SslVerifyMode::PEER` and
/// `SslVerifyMode::NONE`).
#[derive(Debug, Clone, Copy, PartialEq, Eq)]
pub enum VerifyMode {
    Peer,
    Off,
}

/// Certificate and key file formats (`SslFiletype::PEM` and
/// `SslFiletype::ASN1`).
#[derive(Debug, Clone, Copy, PartialEq, Eq)]
pub enum FileFormat {
    Pem,
    Asn1,
}

/// Host name check flags (the named `X509CheckFlags`).
#[derive(Debug, Clone, Copy, PartialEq, Eq)]
pub enum HostCheck {
    AlwaysCheckSubject,
    NoWildcards,
    NoPartialWildcards,
    MultiLabelWildcards,
    SingleLabelSubdomains,
}

/// A setting applied to a TLS context.
pub enum ContextSetting {
    /// The context was created for the NTLS (TLCP) client method.
    NtlsClientMethod,
    NtlsEnabled,
    CipherList(Seq<char>),
    CaFile(Seq<char>),
    Verify(VerifyMode),
    SignCertificate(Seq<char>, FileFormat),
    SignKey(Seq<char>, FileFormat),
    EncCertificate(Seq<char>, FileFormat),
    EncKey(Seq<char>, FileFormat),
}

/// A setting applied to one TLS session.
pub enum SessionSetting {
    /// The session was created from a context with these settings.
    FromContext(Seq<ContextSetting>),
    ConnectState,
    SniHostname(Seq<char>),
    HostFlags(HostCheck),
    VerificationHost(Seq<char>),
    VerificationIpv4([u8; 4]),
    VerificationIpv6([u8; 16]),
}

/// The settings applied so far to a context builder, in order.
pub uninterp spec fn builder_settings(builder: SslContextBuilder) -> Seq<ContextSetting>;

/// The settings a finished context was built with, in order.
pub uninterp spec fn context_settings(context: SslContext) -> Seq<ContextSetting>;

/// The settings applied so far to a session, in order.
pub uninterp spec fn session_settings(ssl: Ssl) -> Seq<SessionSetting>;

/// The settings of the session a TLS stream runs.
pub uninterp spec fn stream_session(stream: SslStream<TcpStream>) -> Seq<SessionSetting>;

/// The `Display` text of an OpenSSL error stack.
pub uninterp spec fn error_stack_shown(error: ErrorStack) -> Seq<char>;

/// The `Debug` text of an OpenSSL error stack.
pub uninterp spec fn error_stack_debug_text(error: ErrorStack) -> Seq<char>;

/// The raw code of a TLS error (`code().as_raw()`).
pub uninterp spec fn ssl_error_raw_code(error: SslError) -> i32;

/// Whether a TLS error was caused by an I/O error (`io_error()` is `Some`).
pub uninterp spec fn ssl_error_has_io(error: SslError) -> bool;

/// The `Display` text of the OpenSSL error stack behind a TLS error, when
/// it has one (`ssl_error()`).
pub uninterp spec fn ssl_error_stack_shown(error: SslError) -> Option<Seq<char>>;

/// The `Display` text of a TLS error that was not caused by an I/O error.
pub uninterp spec fn ssl_error_shown(error: SslError) -> Seq<char>;

/// The `Debug` text of a TLS error that was not caused by an I/O error.
pub uninterp spec fn ssl_error_debug_text(error: SslError) -> Seq<char>;

/// Whether a text can be handed to C as a NUL-terminated string: it holds
/// no NUL character.
pub open spec fn nul_free(s: Seq<char>) -> bool {
    forall|i: int| 0 <= i < s.len() ==> s[i] != '\0'
}

/// `SslContextBuilder::new(SslMethod::ntls_client())`: a fresh builder for
/// the NTLS client method, or the OpenSSL error stack when `SSL_CTX_new`
/// fails. Whether it succeeds is not stated.
#[verifier::external_body]
pub(crate) fn new_ntls_client_builder() -> (r: Result<SslContextBuilder, ErrorStack>)
    ensures
        r matches Ok(b) ==> builder_settings(b) == seq![ContextSetting::NtlsClientMethod],
{
    SslContextBuilder::new(SslMethod::ntls_client())
}

/// `SslContextBuilder::enable_ntls`: records that NTLS is switched on.
#[verifier::external_body]
pub(crate) fn enable_ntls(builder: &mut SslContextBuilder)
    ensures
        builder_settings(*final(builder)) == builder_settings(*old(builder)).push(
            ContextSetting::NtlsEnabled,
        ),
{
    builder.enable_ntls()
}

/// `SslContextBuilder::set_cipher_list`. It panics on a list with a NUL
/// character (`CString::new(..).unwrap()`), which `requires` leaves out.
/// On success the list is recorded; whether OpenSSL accepts it is not
/// stated, nor what a refused call leaves in the builder.
#[verifier::external_body]
pub(crate) fn set_cipher_list(builder: &mut SslContextBuilder, ciphers: &str) -> (r: Result<
    (),
    ErrorStack,
>)
    requires
        nul_free(ciphers@),
    ensures
        r is Ok ==> builder_settings(*final(builder)) == builder_settings(*old(builder)).push(
            ContextSetting::CipherList(ciphers@),
        ),
{
    builder.set_cipher_list(ciphers)
}

/// `SslContextBuilder::set_ca_file` on a UTF-8 path. It panics on a path
/// with a NUL character, which `requires` leaves out. On success the file
/// is recorded; whether it loads is not stated.
#[verifier::external_body]
pub(crate) fn set_ca_file(builder: &mut SslContextBuilder, path: &str) -> (r: Result<
    (),
    ErrorStack,
>)
    requires
        nul_free(path@),
    ensures
        r is Ok ==> builder_settings(*final(builder)) == builder_settings(*old(builder)).push(
            ContextSetting::CaFile(path@),
        ),
{
    builder.set_ca_file(path)
}

/// `SslContextBuilder::set_verify` with `SslVerifyMode::PEER` or
/// `SslVerifyMode::NONE`: records the mode.
#[verifier::external_body]
pub(crate) fn set_verify(builder: &mut SslContextBuilder, mode: VerifyMode)
    ensures
        builder_settings(*final(builder)) == builder_settings(*old(builder)).push(
            ContextSetting::Verify(mode),
        ),
{
    builder.set_verify(
        match mode {
            VerifyMode::Peer => SslVerifyMode::PEER,
            VerifyMode::Off => SslVerifyMode::NONE,
        },
    )
}

/// `SslContextBuilder::set_sign_certificate_file` on a UTF-8 path; panics
/// on a NUL character, left out by `requires`. On success the file and
/// its format are recorded; success is not stated.
#[verifier::external_body]
pub(crate) fn set_sign_certificate_file(
    builder: &mut SslContextBuilder,
    path: &str,
    format: FileFormat,
) -> (r: Result<(), ErrorStack>)
    requires
        nul_free(path@),
    ensures
        r is Ok ==> builder_settings(*final(builder)) == builder_settings(*old(builder)).push(
            ContextSetting::SignCertificate(path@, format),
        ),
{
    builder.set_sign_certificate_file(
        path,
        match format {
            FileFormat::Pem => SslFiletype::PEM,
            FileFormat::Asn1 => SslFiletype::ASN1,
        },
    )
}

/// `SslContextBuilder::set_sign_private_key_file` on a UTF-8 path; panics
/// on a NUL character, left out by `requires`. On success the file and
/// its format are recorded; success is not stated.
#[verifier::external_body]
pub(crate) fn set_sign_private_key_file(
    builder: &mut SslContextBuilder,
    path: &str,
    format: FileFormat,
) -> (r: Result<(), ErrorStack>)
    requires
        nul_free(path@),
    ensures
        r is Ok ==> builder_settings(*final(builder)) == builder_settings(*old(builder)).push(
            ContextSetting::SignKey(path@, format),
        ),
{
    builder.set_sign_private_key_file(
        path,
        match format {
            FileFormat::Pem => SslFiletype::PEM,
            FileFormat::Asn1 => SslFiletype::ASN1,
        },
    )
}

/// `SslContextBuilder::set_enc_certificate_file` on a UTF-8 path; panics
/// on a NUL character, left out by `requires`. On success the file and
/// its format are recorded; success is not stated.
#[verifier::external_body]
pub(crate) fn set_enc_certificate_file(
    builder: &mut SslContextBuilder,
    path: &str,
    format: FileFormat,
) -> (r: Result<(), ErrorStack>)
    requires
        nul_free(path@),
    ensures
        r is Ok ==> builder_settings(*final(builder)) == builder_settings(*old(builder)).push(
            ContextSetting::EncCertificate(path@, format),
        ),
{
    builder.set_enc_certificate_file(
        path,
        match format {
            FileFormat::Pem => SslFiletype::PEM,
            FileFormat::Asn1 => SslFiletype::ASN1,
        },
    )
}

/// `SslContextBuilder::set_enc_private_key_file` on a UTF-8 path; panics
/// on a NUL character, left out by `requires`. On success the file and
/// its format are recorded; success is not stated.
#[verifier::external_body]
pub(crate) fn set_enc_private_key_file(
    builder: &mut SslContextBuilder,
    path: &str,
    format: FileFormat,
) -> (r: Result<(), ErrorStack>)
    requires
        nul_free(path@),
    ensures
        r is Ok ==> builder_settings(*final(builder)) == builder_settings(*old(builder)).push(
            ContextSetting::EncKey(path@, format),
        ),
{
    builder.set_enc_private_key_file(
        path,
        match format {
            FileFormat::Pem => SslFiletype::PEM,
            FileFormat::Asn1 => SslFiletype::ASN1,
        },
    )
}

/// `SslContextBuilder::build`: the finished context keeps the builder's
/// settings.
#[verifier::external_body]
pub(crate) fn build_context(builder: SslContextBuilder) -> (r: SslContext)
    ensures
        context_settings(r) == builder_settings(builder),
{
    builder.build()
}

/// `Ssl::new`: a session on the context, or the error stack. Whether it
/// succeeds is not stated.
#[verifier::external_body]
pub(crate) fn new_ssl(context: &SslContext) -> (r: Result<Ssl, ErrorStack>)
    ensures
        r matches Ok(s) ==> session_settings(s) == seq![
            SessionSetting::FromContext(context_settings(*context)),
        ],
{
    Ssl::new(context)
}

/// `SslRef::set_connect_state`: records client (connect) state.
#[verifier::external_body]
pub(crate) fn set_connect_state(ssl: &mut Ssl)
    ensures
        session_settings(*final(ssl)) == session_settings(*old(ssl)).push(
            SessionSetting::ConnectState,
        ),
{
    ssl.set_connect_state()
}

/// `SslRef::set_hostname` (SNI). It panics on a name with a NUL character,
/// which `requires` leaves out. On success the name is recorded; success
/// is not stated.
#[verifier::external_body]
pub(crate) fn set_hostname(ssl: &mut Ssl, hostname: &str) -> (r: Result<(), ErrorStack>)
    requires
        nul_free(hostname@),
    ensures
        r is Ok ==> session_settings(*final(ssl)) == session_settings(*old(ssl)).push(
            SessionSetting::SniHostname(hostname@),
        ),
{
    ssl.set_hostname(hostname)
}

/// `X509VerifyParamRef::set_hostflags` on the session's verification
/// parameters (`SslRef::param_mut`): records the flag.
#[verifier::external_body]
pub(crate) fn set_hostflags(ssl: &mut Ssl, flag: HostCheck)
    ensures
        session_settings(*final(ssl)) == session_settings(*old(ssl)).push(
            SessionSetting::HostFlags(flag),
        ),
{
    ssl.param_mut().set_hostflags(
        match flag {
            HostCheck::AlwaysCheckSubject => X509CheckFlags::ALWAYS_CHECK_SUBJECT,
            HostCheck::NoWildcards => X509CheckFlags::NO_WILDCARDS,
            HostCheck::NoPartialWildcards => X509CheckFlags::NO_PARTIAL_WILDCARDS,
            HostCheck::MultiLabelWildcards => X509CheckFlags::MULTI_LABEL_WILDCARDS,
            HostCheck::SingleLabelSubdomains => X509CheckFlags::SINGLE_LABEL_SUBDOMAINS,
        },
    )
}

/// `X509VerifyParamRef::set_host` on the session's verification parameters
/// (`SslRef::param_mut`); it passes the length, so any text is accepted
/// without panic. On success the host is recorded; success is not stated.
#[verifier::external_body]
pub(crate) fn set_verify_host(ssl: &mut Ssl, host: &str) -> (r: Result<(), ErrorStack>)
    ensures
        r is Ok ==> session_settings(*final(ssl)) == session_settings(*old(ssl)).push(
            SessionSetting::VerificationHost(host@),
        ),
{
    ssl.param_mut().set_host(host)
}

/// `X509VerifyParamRef::set_ip` on the session's verification parameters
/// (`SslRef::param_mut`) with the IPv4 address of these octets. On success
/// the address is recorded; success is not stated.
#[verifier::external_body]
pub(crate) fn set_verify_ipv4(ssl: &mut Ssl, octets: [u8; 4]) -> (r: Result<(), ErrorStack>)
    ensures
        r is Ok ==> session_settings(*final(ssl)) == session_settings(*old(ssl)).push(
            SessionSetting::VerificationIpv4(octets),
        ),
{
    ssl.param_mut().set_ip(octets.into())
}

/// `X509VerifyParamRef::set_ip` on the session's verification parameters
/// (`SslRef::param_mut`) with the IPv6 address of these octets. On success
/// the address is recorded; success is not stated.
#[verifier::external_body]
pub(crate) fn set_verify_ipv6(ssl: &mut Ssl, octets: [u8; 16]) -> (r: Result<(), ErrorStack>)
    ensures
        r is Ok ==> session_settings(*final(ssl)) == session_settings(*old(ssl)).push(
            SessionSetting::VerificationIpv6(octets),
        ),
{
    ssl.param_mut().set_ip(octets.into())
}

/// `tokio_tongsuo::SslStream::new`: the session over the TCP stream, with
/// no handshake done yet, or the error stack. The stream runs the session
/// it was handed; success is not stated.
#[verifier::external_body]
pub(crate) fn new_ssl_stream(ssl: Ssl, stream: TcpStream) -> (r: Result<
    SslStream<TcpStream>,
    ErrorStack,
>)
    ensures
        r matches Ok(s) ==> stream_session(s) == session_settings(ssl),
{
    SslStream::new(ssl, stream)
}

/// The `Display` text of an error stack: the OpenSSL reason strings of its
/// entries, a function of the stack alone.
#[verifier::external_body]
pub(crate) fn error_stack_text(error: &ErrorStack) -> (r: String)
    ensures
        r@ == error_stack_shown(*error),
{
    format!("{error}")
}

/// The (derived) `Debug` text of an error stack.
#[verifier::external_body]
pub(crate) fn error_stack_debug(error: &ErrorStack) -> (r: String)
    ensures
        r@ == error_stack_debug_text(*error),
{
    format!("{error:?}")
}

/// `ssl::Error::code` read with `ErrorCode::as_raw`: the stored code.
#[verifier::external_body]
pub(crate) fn ssl_error_code(error: &SslError) -> (r: i32)
    ensures
        r == ssl_error_raw_code(*error),
{
    error.code().as_raw()
}

/// The `Display` text of a TLS error. Without an I/O cause it is a
/// function of the code and the error stack; with one it includes the
/// operating system's message, which depends on the locale, and is not
/// stated.
#[verifier::external_body]
pub(crate) fn ssl_error_text(error: &SslError) -> (r: String)
    ensures
        !ssl_error_has_io(*error) ==> r@ == ssl_error_shown(*error),
{
    format!("{error}")
}

/// `ssl::Error::io_error`, shown with `Display` when present. It is present
/// exactly when the error has an I/O cause; its text (the operating
/// system's message) is not stated.
#[verifier::external_body]
pub(crate) fn ssl_error_io_text(error: &SslError) -> (r: Option<String>)
    ensures
        r is Some <==> ssl_error_has_io(*error),
{
    match error.io_error() {
        Some(io) => Some(format!("{io}")),
        None => None,
    }
}

/// `ssl::Error::ssl_error`, the OpenSSL error stack, shown with `Display`
/// when present.
#[verifier::external_body]
pub(crate) fn ssl_error_stack_text(error: &SslError) -> (r: Option<String>)
    ensures
        string_opt(r) == ssl_error_stack_shown(*error),
{
    match error.ssl_error() {
        Some(stack) => Some(format!("{stack}")),
        None => None,
    }
}

/// The (derived) `Debug` text of a TLS error. Without an I/O cause it is a
/// function of the code and the error stack; with one it includes the
/// operating system's message and is not stated.
#[verifier::external_body]
pub(crate) fn ssl_error_debug(error: &SslError) -> (r: String)
    ensures
        !ssl_error_has_io(*error) ==> r@ == ssl_error_debug_text(*error),
{
    format!("{error:?}")
}

} // verus!
