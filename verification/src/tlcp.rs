//! TLCP (GM/T 0024-2014) connection set-up: the plan that turns the
//! connection's TLS settings into Tongsuo context configuration, the
//! connector built by carrying that plan out, and the per-connection
//! session set-up.

use vstd::prelude::*;

use std::sync::Arc;

use tokio::net::TcpStream;
use tokio_tongsuo::SslStream;
use tongsuo::error::ErrorStack;
use tongsuo::ssl::{Error as SslError, Ssl, SslContext};

use crate::auth::{ConnectionTLSConfig, TlcpConfig, TlcpConfigView};
use crate::errors::Error;
use crate::report::{handshake_error_report, handshake_report, stage_error_text, stage_message, string_opt};
use crate::tls_backend::{
    build_context, builder_settings, context_settings, enable_ntls, error_stack_debug,
    error_stack_debug_text, error_stack_shown, error_stack_text, new_ntls_client_builder, new_ssl,
    new_ssl_stream, nul_free, session_settings, set_ca_file, set_cipher_list, set_connect_state,
    set_enc_certificate_file, set_enc_private_key_file, set_hostflags, set_hostname,
    set_sign_certificate_file, set_sign_private_key_file, set_verify, set_verify_host,
    ssl_error_code, ssl_error_debug, ssl_error_debug_text, ssl_error_has_io, ssl_error_io_text,
    ssl_error_raw_code, ssl_error_shown, ssl_error_stack_shown, ssl_error_stack_text,
    ssl_error_text, stream_session, set_verify_ipv4, set_verify_ipv6, ContextSetting, FileFormat, HostCheck, SessionSetting,
    VerifyMode,
};
use tongsuo::ssl::SslContextBuilder;

verus! {

/// The TLCP cipher suites offered, with their GM/T 0024-2014 names:
/// forward-secret (ECDHE) first, AEAD (GCM) before CBC.
pub const TLCP_CIPHER_LIST: &'static str =
    "ECDHE-SM2-SM4-GCM-SM3:ECDHE-SM2-SM4-CBC-SM3:ECC-SM2-SM4-GCM-SM3:ECC-SM2-SM4-CBC-SM3";

/// Reported when the server certificate is to be validated but no CA
/// certificate is configured.
pub const CA_CERTIFICATE_REQUIRED: &'static str = "TLCP CA certificate is required";

/// Reported when only some of the four client certificate/key files are
/// configured.
pub const INCOMPLETE_CLIENT_IDENTITY: &'static str =
    "TLCP mutual authentication requires sign cert/key and enc cert/key";

/// One configuration step of a TLCP context, after the context builder for
/// the NTLS client method has been created.
#[derive(Debug, PartialEq)]
pub enum ContextStep {
    /// Switch NTLS (TLCP) on.
    EnableNtls,
    /// Restrict the cipher suites to [`TLCP_CIPHER_LIST`].
    SetCipherList,
    /// Load trusted CA certificates from this file.
    LoadCaFile(String),
    /// Verify the server's certificate.
    VerifyPeer,
    /// Do not verify the server's certificate.
    VerifyNone,
    /// Load the client signing certificate (PEM) from this file.
    LoadSignCertificate(String),
    /// Load the client signing key (PEM) from this file.
    LoadSignKey(String),
    /// Load the client encryption certificate (PEM) from this file.
    LoadEncCertificate(String),
    /// Load the client encryption key (PEM) from this file.
    LoadEncKey(String),
    /// The settings cannot be used; stop with this message.
    Reject(String),
}

/// Mathematical model of a [`ContextStep`].
pub enum StepView {
    EnableNtls,
    SetCipherList,
    LoadCaFile(Seq<char>),
    VerifyPeer,
    VerifyNone,
    LoadSignCertificate(Seq<char>),
    LoadSignKey(Seq<char>),
    LoadEncCertificate(Seq<char>),
    LoadEncKey(Seq<char>),
    Reject(Seq<char>),
}

impl View for ContextStep {
    type V = StepView;

    open spec fn view(&self) -> StepView {
        match self {
            ContextStep::EnableNtls => StepView::EnableNtls,
            ContextStep::SetCipherList => StepView::SetCipherList,
            ContextStep::LoadCaFile(p) => StepView::LoadCaFile(p@),
            ContextStep::VerifyPeer => StepView::VerifyPeer,
            ContextStep::VerifyNone => StepView::VerifyNone,
            ContextStep::LoadSignCertificate(p) => StepView::LoadSignCertificate(p@),
            ContextStep::LoadSignKey(p) => StepView::LoadSignKey(p@),
            ContextStep::LoadEncCertificate(p) => StepView::LoadEncCertificate(p@),
            ContextStep::LoadEncKey(p) => StepView::LoadEncKey(p@),
            ContextStep::Reject(m) => StepView::Reject(m@),
        }
    }
}

pub open spec fn step_views(steps: Seq<ContextStep>) -> Seq<StepView> {
    steps.map_values(|s: ContextStep| s@)
}

/// The TLCP settings used for a connection: its own when it is a TLCP
/// connection, otherwise validating settings with no files.
pub open spec fn effective_tlcp(config: ConnectionTLSConfig) -> TlcpConfigView {
    match config {
        ConnectionTLSConfig::Tlcp(t) => t@,
        _ => default_tlcp(),
    }
}

pub open spec fn default_tlcp() -> TlcpConfigView {
    TlcpConfigView {
        validation: true,
        ca_cert: None,
        sign_cert: None,
        sign_key: None,
        enc_cert: None,
        enc_key: None,
    }
}

/// How the server is verified: with the CA file when validating (which
/// then must be configured), not at all otherwise.
pub open spec fn verification_steps(c: TlcpConfigView) -> Seq<StepView> {
    if c.validation {
        match c.ca_cert {
            Some(ca) => seq![StepView::LoadCaFile(ca), StepView::VerifyPeer],
            None => seq![StepView::Reject(CA_CERTIFICATE_REQUIRED@)],
        }
    } else {
        seq![StepView::VerifyNone]
    }
}

/// The client identity: all four files, or none of them.
pub open spec fn client_identity_steps(c: TlcpConfigView) -> Seq<StepView> {
    match (c.sign_cert, c.sign_key, c.enc_cert, c.enc_key) {
        (Some(sc), Some(sk), Some(ec), Some(ek)) => seq![
            StepView::LoadSignCertificate(sc),
            StepView::LoadSignKey(sk),
            StepView::LoadEncCertificate(ec),
            StepView::LoadEncKey(ek),
        ],
        (None, None, None, None) => Seq::empty(),
        _ => seq![StepView::Reject(INCOMPLETE_CLIENT_IDENTITY@)],
    }
}

/// The configuration plan for a TLCP context with settings `c`.
pub open spec fn tlcp_plan(c: TlcpConfigView) -> Seq<StepView> {
    let head = seq![StepView::EnableNtls, StepView::SetCipherList] + verification_steps(c);
    if c.validation && c.ca_cert is None {
        head
    } else {
        head + client_identity_steps(c)
    }
}

/// The stage named in the error of a step that the TLS library can refuse.
pub open spec fn step_stage(s: StepView) -> Option<Seq<char>> {
    match s {
        StepView::SetCipherList => Some("set TLCP cipher list"@),
        StepView::LoadCaFile(_) => Some("load TLCP CA certificate"@),
        StepView::LoadSignCertificate(_) => Some("load TLCP client signing certificate"@),
        StepView::LoadSignKey(_) => Some("load TLCP client signing key"@),
        StepView::LoadEncCertificate(_) => Some("load TLCP client encryption certificate"@),
        StepView::LoadEncKey(_) => Some("load TLCP client encryption key"@),
        _ => None,
    }
}

/// The file a step hands to the TLS library, if any.
pub open spec fn step_path(s: StepView) -> Option<Seq<char>> {
    match s {
        StepView::LoadCaFile(p) => Some(p),
        StepView::LoadSignCertificate(p) => Some(p),
        StepView::LoadSignKey(p) => Some(p),
        StepView::LoadEncCertificate(p) => Some(p),
        StepView::LoadEncKey(p) => Some(p),
        _ => None,
    }
}

/// Whether the plan stops the set-up.
pub open spec fn rejects(plan: Seq<StepView>) -> bool {
    exists|k: int| 0 <= k < plan.len() && plan[k] is Reject
}

/// Every file of the plan can be handed to C.
pub open spec fn plan_paths_nul_free(plan: Seq<StepView>) -> bool {
    forall|k: int|
        0 <= k < plan.len() ==> (#[trigger] step_path(plan[k]) matches Some(p) ==> nul_free(p))
}

fn plan_for(tlcp: &TlcpConfig) -> (r: Vec<ContextStep>)
    ensures
        step_views(r@) == tlcp_plan(tlcp@),
{
    let mut plan: Vec<ContextStep> = Vec::new();
    plan.push(ContextStep::EnableNtls);
    plan.push(ContextStep::SetCipherList);
    if tlcp.validation() {
        match tlcp.ca_cert() {
            Some(ca) => {
                plan.push(ContextStep::LoadCaFile(ca.to_owned()));
                plan.push(ContextStep::VerifyPeer);
            },
            None => {
                plan.push(ContextStep::Reject(CA_CERTIFICATE_REQUIRED.to_owned()));
                assert(step_views(plan@) =~= tlcp_plan(tlcp@));
                return plan;
            },
        }
    } else {
        plan.push(ContextStep::VerifyNone);
    }
    match (tlcp.sign_cert(), tlcp.sign_key(), tlcp.enc_cert(), tlcp.enc_key()) {
        (Some(sc), Some(sk), Some(ec), Some(ek)) => {
            plan.push(ContextStep::LoadSignCertificate(sc.to_owned()));
            plan.push(ContextStep::LoadSignKey(sk.to_owned()));
            plan.push(ContextStep::LoadEncCertificate(ec.to_owned()));
            plan.push(ContextStep::LoadEncKey(ek.to_owned()));
        },
        (None, None, None, None) => {},
        _ => {
            plan.push(ContextStep::Reject(INCOMPLETE_CLIENT_IDENTITY.to_owned()));
        },
    }
    assert(step_views(plan@) =~= tlcp_plan(tlcp@));
    plan
}

/// The steps that configure the TLCP context of a connection with TLS
/// settings `tls_config`, in the order they are carried out. A connection
/// that is not a TLCP one is treated as TLCP with validation and no files.
pub fn context_plan(tls_config: &ConnectionTLSConfig) -> (r: Vec<ContextStep>)
    ensures
        step_views(r@) == tlcp_plan(effective_tlcp(*tls_config)),
{
    match tls_config {
        ConnectionTLSConfig::Tlcp(tlcp) => plan_for(tlcp),
        _ => {
            let tlcp = TlcpConfig::new(None, None, None, None, None);
            plan_for(&tlcp)
        },
    }
}


/// The host a TLCP connection is made to: a DNS name, or an IPv4 or IPv6
/// address given by its octets.
#[derive(Debug, Clone, PartialEq)]
pub enum TlcpHost {
    Domain(String),
    Ipv4([u8; 4]),
    Ipv6([u8; 16]),
}

/// A TLCP connector: the shared, configured context and the host that
/// each connection made through it is for.
#[derive(Clone)]
pub struct TlcpConnector {
    context: Arc<SslContext>,
    host: TlcpHost,
}

/// The error line of stage `stage` failing with the OpenSSL error stack
/// `error`: the stage, then the stack's display and debug texts.
pub open spec fn stage_error_message(stage: Seq<char>, error: ErrorStack) -> Seq<char> {
    stage_message(stage, error_stack_shown(error), error_stack_debug_text(error))
}

/// The error line of a failed stage: the stage, then the error's display
/// and debug texts.
pub fn format_tongsuo_error(stage: &str, error: &ErrorStack) -> (r: String)
    ensures
        r@ == stage_error_message(stage@, *error),
{
    let shown = error_stack_text(error);
    let debug = error_stack_debug(error);
    stage_error_text(stage, shown.as_str(), debug.as_str())
}

fn stage_failure(stage: &str, error: &ErrorStack) -> (r: Error)
    ensures
        r matches Error::SSLConnectionError(m) && m@ == stage_error_message(stage@, *error),
{
    Error::SSLConnectionError(format_tongsuo_error(stage, error))
}

/// What follows a call of stage `stage` that came back with `outcome`:
/// nothing on success, the stage's error line on failure.
pub fn call_outcome(stage: &str, outcome: Result<(), ErrorStack>) -> (r: Result<(), Error>)
    ensures
        match outcome {
            Ok(()) => r is Ok,
            Err(e) => r matches Err(Error::SSLConnectionError(m)) && m@ == stage_error_message(
                stage@,
                e,
            ),
        },
{
    match outcome {
        Ok(()) => Ok(()),
        Err(e) => Err(stage_failure(stage, &e)),
    }
}

/// Whether `report` is the report on the failed TLS operation `error`:
/// its code, display text, I/O part (present exactly when the error has an
/// I/O cause), error stack part and debug text. Without an I/O cause the
/// report is fixed by the error; with one, the operating system's message
/// in it is left open.
pub open spec fn is_ssl_error_report(report: Seq<char>, error: SslError) -> bool {
    exists|shown: Seq<char>, io: Option<Seq<char>>, debug: Seq<char>|
        {
            &&& (io is Some <==> ssl_error_has_io(error))
            &&& !ssl_error_has_io(error) ==> shown == ssl_error_shown(error) && debug
                == ssl_error_debug_text(error)
            &&& report == handshake_report(
                ssl_error_raw_code(error) as int,
                shown,
                io,
                ssl_error_stack_shown(error),
                debug,
            )
        }
}

/// The report on a failed TLS operation: the error code, the display
/// text, the I/O error and the OpenSSL error stack when present (an empty
/// stack is left out), and the debug text, joined with `"; "`.
pub fn format_tongsuo_ssl_error(error: &SslError) -> (r: String)
    ensures
        is_ssl_error_report(r@, *error),
{
    let code: i32 = ssl_error_code(error);
    let shown = ssl_error_text(error);
    let io = ssl_error_io_text(error);
    let stack = ssl_error_stack_text(error);
    let debug = ssl_error_debug(error);
    let ghost (shown_v, io_v, debug_v) = (shown@, string_opt(io), debug@);
    let r = handshake_error_report(code, shown, io, stack, debug);
    assert(r@ == handshake_report(
        ssl_error_raw_code(*error) as int,
        shown_v,
        io_v,
        ssl_error_stack_shown(*error),
        debug_v,
    ));
    r
}

/// The error reported when the TLCP handshake fails with `error`: the
/// prefix `"TLCP handshake failed: "` followed by the report on `error`.
pub fn handshake_failure(error: &SslError) -> (r: Error)
    ensures
        r matches Error::SSLConnectionError(m) && exists|report: Seq<char>|
            m@ == "TLCP handshake failed: "@ + report && is_ssl_error_report(report, *error),
{
    let report = format_tongsuo_ssl_error(error);
    let mut m = "TLCP handshake failed: ".to_owned();
    m.append(report.as_str());
    Error::SSLConnectionError(m)
}

proof fn lemma_cipher_list_nul_free()
    ensures
        nul_free(TLCP_CIPHER_LIST@),
{
    reveal_strlit("ECDHE-SM2-SM4-GCM-SM3:ECDHE-SM2-SM4-CBC-SM3:ECC-SM2-SM4-GCM-SM3:ECC-SM2-SM4-CBC-SM3");
}

/// The context setting a plan step hands to the TLS library; a rejection
/// hands it none.
pub open spec fn step_setting(s: StepView) -> Option<ContextSetting> {
    match s {
        StepView::EnableNtls => Some(ContextSetting::NtlsEnabled),
        StepView::SetCipherList => Some(ContextSetting::CipherList(TLCP_CIPHER_LIST@)),
        StepView::LoadCaFile(p) => Some(ContextSetting::CaFile(p)),
        StepView::VerifyPeer => Some(ContextSetting::Verify(VerifyMode::Peer)),
        StepView::VerifyNone => Some(ContextSetting::Verify(VerifyMode::Off)),
        StepView::LoadSignCertificate(p) => Some(ContextSetting::SignCertificate(p, FileFormat::Pem)),
        StepView::LoadSignKey(p) => Some(ContextSetting::SignKey(p, FileFormat::Pem)),
        StepView::LoadEncCertificate(p) => Some(ContextSetting::EncCertificate(p, FileFormat::Pem)),
        StepView::LoadEncKey(p) => Some(ContextSetting::EncKey(p, FileFormat::Pem)),
        StepView::Reject(_) => None,
    }
}

/// The settings of a context created for the NTLS client method and then
/// configured by `steps` (none of them a rejection), in order.
pub open spec fn applied_settings(steps: Seq<StepView>) -> Seq<ContextSetting> {
    seq![ContextSetting::NtlsClientMethod] + steps.map_values(|s: StepView| step_setting(s)->0)
}

/// Whether `message` is the error of step `s` failing: its stage's line
/// for some OpenSSL error stack, or the rejection message.
pub open spec fn step_failure(s: StepView, message: Seq<char>) -> bool {
    if s is Reject {
        message == s->Reject_0
    } else {
        step_stage(s) is Some && exists|e: ErrorStack|
            message == #[trigger] stage_error_message(step_stage(s)->0, e)
    }
}

/// Whether `message` is what building a context with `plan` reports:
/// creating the context failed, or step `k` failed with no rejection
/// among the steps before it.
pub open spec fn context_failure(plan: Seq<StepView>, message: Seq<char>) -> bool {
    ||| exists|e: ErrorStack| message == stage_error_message("create TLCP SSL context"@, e)
    ||| exists|k: int|
        0 <= k < plan.len() && (forall|j: int| 0 <= j < k ==> !(#[trigger] plan[j] is Reject))
            && #[trigger] step_failure(plan[k], message)
}

proof fn lemma_stage_failure(s: StepView, stage: Seq<char>, e: ErrorStack)
    requires
        !(s is Reject),
        step_stage(s) == Some(stage),
    ensures
        step_failure(s, stage_error_message(stage, e)),
{
    let m = stage_error_message(stage, e);
    assert(step_stage(s) is Some);
    assert(step_stage(s)->0 == stage);
    assert(m == stage_error_message(step_stage(s)->0, e));
    assert(exists|e2: ErrorStack| m == #[trigger] stage_error_message(step_stage(s)->0, e2));
    assert(!(s is Reject));
}

/// Carries out one plan step on the context builder. A step the TLS
/// library can refuse hands it its argument (the plan's path, the cipher
/// list, PEM format) and on success records the step's setting; on
/// failure it reports the step's stage line. Switching NTLS on and setting
/// the verification mode always succeed; a rejection leaves the builder
/// untouched and reports its message.
pub fn apply_context_step(builder: &mut SslContextBuilder, step: &ContextStep) -> (r: Result<
    (),
    Error,
>)
    requires
        step_path(step@) matches Some(p) ==> nul_free(p),
    ensures
        step@ is Reject ==> builder_settings(*final(builder)) == builder_settings(*old(builder))
            && (r matches Err(Error::SSLConnectionError(m)) && step@ == StepView::Reject(m@)),
        !(step@ is Reject) && r is Ok ==> builder_settings(*final(builder)) == builder_settings(
            *old(builder),
        ).push(step_setting(step@)->0),
        !(step@ is Reject) && step_stage(step@) is None ==> r is Ok,
        r matches Err(e) ==> e matches Error::SSLConnectionError(m) && step_failure(step@, m@),
{
    match step {
        ContextStep::EnableNtls => {
            enable_ntls(builder);
            Ok(())
        },
        ContextStep::SetCipherList => {
            proof {
                lemma_cipher_list_nul_free();
            }
            let outcome = set_cipher_list(builder, TLCP_CIPHER_LIST);
            let ghost o = outcome;
            let r = call_outcome("set TLCP cipher list", outcome);
            proof {
                match o {
                    Err(e) => {
                        lemma_stage_failure(step@, "set TLCP cipher list"@, e);
                    },
                    Ok(_) => {},
                }
            }
            r
        },
        ContextStep::LoadCaFile(path) => {
            let outcome = set_ca_file(builder, path.as_str());
            let ghost o = outcome;
            let r = call_outcome("load TLCP CA certificate", outcome);
            proof {
                match o {
                    Err(e) => {
                        lemma_stage_failure(step@, "load TLCP CA certificate"@, e);
                    },
                    Ok(_) => {},
                }
            }
            r
        },
        ContextStep::VerifyPeer => {
            set_verify(builder, VerifyMode::Peer);
            Ok(())
        },
        ContextStep::VerifyNone => {
            set_verify(builder, VerifyMode::Off);
            Ok(())
        },
        ContextStep::LoadSignCertificate(path) => {
            let outcome = set_sign_certificate_file(builder, path.as_str(), FileFormat::Pem);
            let ghost o = outcome;
            let r = call_outcome("load TLCP client signing certificate", outcome);
            proof {
                match o {
                    Err(e) => {
                        lemma_stage_failure(step@, "load TLCP client signing certificate"@, e);
                    },
                    Ok(_) => {},
                }
            }
            r
        },
        ContextStep::LoadSignKey(path) => {
            let outcome = set_sign_private_key_file(builder, path.as_str(), FileFormat::Pem);
            let ghost o = outcome;
            let r = call_outcome("load TLCP client signing key", outcome);
            proof {
                match o {
                    Err(e) => {
                        lemma_stage_failure(step@, "load TLCP client signing key"@, e);
                    },
                    Ok(_) => {},
                }
            }
            r
        },
        ContextStep::LoadEncCertificate(path) => {
            let outcome = set_enc_certificate_file(builder, path.as_str(), FileFormat::Pem);
            let ghost o = outcome;
            let r = call_outcome("load TLCP client encryption certificate", outcome);
            proof {
                match o {
                    Err(e) => {
                        lemma_stage_failure(step@, "load TLCP client encryption certificate"@, e);
                    },
                    Ok(_) => {},
                }
            }
            r
        },
        ContextStep::LoadEncKey(path) => {
            let outcome = set_enc_private_key_file(builder, path.as_str(), FileFormat::Pem);
            let ghost o = outcome;
            let r = call_outcome("load TLCP client encryption key", outcome);
            proof {
                match o {
                    Err(e) => {
                        lemma_stage_failure(step@, "load TLCP client encryption key"@, e);
                    },
                    Ok(_) => {},
                }
            }
            r
        },
        ContextStep::Reject(message) => {
            let r = Err(Error::SSLConnectionError(message.clone()));
            assert(r matches Err(Error::SSLConnectionError(m)) && step_failure(step@, m@));
            r
        },
    }
}

/// Builds the shared TLCP connector for `host` from the connection's TLS
/// settings: creates the NTLS client context and carries out
/// [`context_plan`] on it with [`apply_context_step`], stopping at the
/// first step that fails.
pub fn build_connector(host: TlcpHost, tls_config: &ConnectionTLSConfig) -> (r: Result<
    TlcpConnector,
    Error,
>)
    requires
        plan_paths_nul_free(tlcp_plan(effective_tlcp(*tls_config))),
    ensures
        r matches Ok(c) ==> {
            &&& c.target() == host
            &&& !rejects(tlcp_plan(effective_tlcp(*tls_config)))
            &&& c.settings() == applied_settings(tlcp_plan(effective_tlcp(*tls_config)))
        },
        r matches Err(e) ==> e matches Error::SSLConnectionError(m) && context_failure(
            tlcp_plan(effective_tlcp(*tls_config)),
            m@,
        ),
        rejects(tlcp_plan(effective_tlcp(*tls_config))) ==> r is Err,
{
    let plan = context_plan(tls_config);
    let ghost steps = step_views(plan@);
    let mut builder = match new_ntls_client_builder() {
        Ok(b) => b,
        Err(e) => {
            return Err(stage_failure("create TLCP SSL context", &e));
        },
    };
    assert(steps.take(0).map_values(|s: StepView| step_setting(s)->0) =~= Seq::<ContextSetting>::empty());
    let mut i: usize = 0;
    while i < plan.len()
        invariant
            i <= plan.len(),
            steps == step_views(plan@),
            steps == tlcp_plan(effective_tlcp(*tls_config)),
            plan_paths_nul_free(steps),
            forall|j: int| 0 <= j < i ==> !(steps[j] is Reject),
            builder_settings(builder) == applied_settings(steps.take(i as int)),
        decreases plan.len() - i,
    {
        let ghost here = steps[i as int];
        assert(here == plan@[i as int]@);
        assert(step_path(here) matches Some(p) ==> nul_free(p));
        match apply_context_step(&mut builder, &plan[i]) {
            Ok(()) => {},
            Err(e) => {
                assert(e matches Error::SSLConnectionError(m) && step_failure(steps[i as int], m@));
                return Err(e);
            },
        }
        assert(steps.take(i + 1) =~= steps.take(i as int).push(here));
        assert(applied_settings(steps.take(i + 1)) =~= applied_settings(steps.take(i as int)).push(
            step_setting(here)->0,
        ));
        i = i + 1;
    }
    assert(steps.take(plan.len() as int) =~= steps);
    let context = build_context(builder);
    Ok(TlcpConnector { context: Arc::new(context), host })
}

/// One configuring step of a connection's session, after the session has
/// been created on the shared context and put in client (connect) state.
#[derive(Debug, PartialEq)]
pub enum SessionStep {
    /// Send this name by SNI.
    SniHostname(String),
    /// Set this host name check flag.
    HostFlags(HostCheck),
    /// Verify the server certificate against this DNS name.
    VerificationHost(String),
    /// Verify the server certificate against this IPv4 address.
    VerificationIpv4([u8; 4]),
    /// Verify the server certificate against this IPv6 address.
    VerificationIpv6([u8; 16]),
}

impl View for SessionStep {
    type V = SessionSetting;

    open spec fn view(&self) -> SessionSetting {
        match self {
            SessionStep::SniHostname(h) => SessionSetting::SniHostname(h@),
            SessionStep::HostFlags(f) => SessionSetting::HostFlags(*f),
            SessionStep::VerificationHost(h) => SessionSetting::VerificationHost(h@),
            SessionStep::VerificationIpv4(a) => SessionSetting::VerificationIpv4(*a),
            SessionStep::VerificationIpv6(a) => SessionSetting::VerificationIpv6(*a),
        }
    }
}

pub open spec fn session_step_views(steps: Seq<SessionStep>) -> Seq<SessionSetting> {
    steps.map_values(|s: SessionStep| s@)
}

/// The host-specific settings of a session: for a DNS name, the name by
/// SNI, no partial wildcards, and the name as the host to verify; for an
/// IP address, the address to verify.
pub open spec fn host_steps(host: TlcpHost) -> Seq<SessionSetting> {
    match host {
        TlcpHost::Domain(d) => seq![
            SessionSetting::SniHostname(d@),
            SessionSetting::HostFlags(HostCheck::NoPartialWildcards),
            SessionSetting::VerificationHost(d@),
        ],
        TlcpHost::Ipv4(a) => seq![SessionSetting::VerificationIpv4(a)],
        TlcpHost::Ipv6(a) => seq![SessionSetting::VerificationIpv6(a)],
    }
}

/// The settings of a session set up for `host` on a context with settings
/// `context`: created from that context, client state, then the host's
/// settings.
pub open spec fn session_plan(context: Seq<ContextSetting>, host: TlcpHost) -> Seq<SessionSetting> {
    seq![SessionSetting::FromContext(context), SessionSetting::ConnectState] + host_steps(host)
}

/// The stage named in the error of a session step the TLS library can
/// refuse.
pub open spec fn session_step_stage(s: SessionSetting) -> Option<Seq<char>> {
    match s {
        SessionSetting::SniHostname(_) => Some("set TLCP SNI hostname"@),
        SessionSetting::VerificationHost(_) => Some("set TLCP verification host"@),
        SessionSetting::VerificationIpv4(_) => Some("set TLCP verification IPv4"@),
        SessionSetting::VerificationIpv6(_) => Some("set TLCP verification IPv6"@),
        _ => None,
    }
}

/// Whether `message` is the error of session step `s` failing: its stage's
/// line for some OpenSSL error stack.
pub open spec fn session_step_failure(s: SessionSetting, message: Seq<char>) -> bool {
    session_step_stage(s) is Some && exists|e: ErrorStack|
        message == #[trigger] stage_error_message(session_step_stage(s)->0, e)
}

/// Whether `message` is what setting up a session with host steps `steps`
/// reports: creating the session failed, or step `k` failed.
pub open spec fn session_failure(steps: Seq<SessionSetting>, message: Seq<char>) -> bool {
    ||| exists|e: ErrorStack| message == #[trigger] stage_error_message("create TLCP SSL"@, e)
    ||| exists|k: int| 0 <= k < steps.len() && #[trigger] session_step_failure(steps[k], message)
}

/// Whether a host can be handed to C: a DNS name holds no NUL character.
pub open spec fn host_nul_free(host: TlcpHost) -> bool {
    host matches TlcpHost::Domain(d) ==> nul_free(d@)
}

/// The host-specific steps of setting up a session for `host`, in order.
pub fn session_steps(host: &TlcpHost) -> (r: Vec<SessionStep>)
    ensures
        session_step_views(r@) == host_steps(*host),
{
    let mut v: Vec<SessionStep> = Vec::new();
    match host {
        TlcpHost::Domain(d) => {
            v.push(SessionStep::SniHostname(d.clone()));
            v.push(SessionStep::HostFlags(HostCheck::NoPartialWildcards));
            v.push(SessionStep::VerificationHost(d.clone()));
        },
        TlcpHost::Ipv4(a) => {
            v.push(SessionStep::VerificationIpv4(*a));
        },
        TlcpHost::Ipv6(a) => {
            v.push(SessionStep::VerificationIpv6(*a));
        },
    }
    assert(session_step_views(v@) =~= host_steps(*host));
    v
}

proof fn lemma_session_stage_failure(s: SessionSetting, stage: Seq<char>, e: ErrorStack)
    requires
        session_step_stage(s) == Some(stage),
    ensures
        session_step_failure(s, stage_error_message(stage, e)),
{
    let m = stage_error_message(stage, e);
    assert(m == stage_error_message(session_step_stage(s)->0, e));
}

/// Carries out one session step. A step the TLS library can refuse hands
/// it its argument (name or address) and on success records the step's
/// setting; on failure it reports the step's stage line. Setting a host
/// check flag always succeeds.
pub fn apply_session_step(ssl: &mut Ssl, step: &SessionStep) -> (r: Result<(), Error>)
    requires
        step@ matches SessionSetting::SniHostname(h) ==> nul_free(h),
    ensures
        r is Ok ==> session_settings(*final(ssl)) == session_settings(*old(ssl)).push(step@),
        session_step_stage(step@) is None ==> r is Ok,
        r matches Err(e) ==> e matches Error::SSLConnectionError(m) && session_step_failure(
            step@,
            m@,
        ),
{
    match step {
        SessionStep::SniHostname(h) => {
            let outcome = set_hostname(ssl, h.as_str());
            let ghost o = outcome;
            let r = call_outcome("set TLCP SNI hostname", outcome);
            proof {
                match o {
                    Err(e) => {
                        lemma_session_stage_failure(step@, "set TLCP SNI hostname"@, e);
                    },
                    Ok(_) => {},
                }
            }
            r
        },
        SessionStep::HostFlags(f) => {
            set_hostflags(ssl, *f);
            Ok(())
        },
        SessionStep::VerificationHost(h) => {
            let outcome = set_verify_host(ssl, h.as_str());
            let ghost o = outcome;
            let r = call_outcome("set TLCP verification host", outcome);
            proof {
                match o {
                    Err(e) => {
                        lemma_session_stage_failure(step@, "set TLCP verification host"@, e);
                    },
                    Ok(_) => {},
                }
            }
            r
        },
        SessionStep::VerificationIpv4(a) => {
            let outcome = set_verify_ipv4(ssl, *a);
            let ghost o = outcome;
            let r = call_outcome("set TLCP verification IPv4", outcome);
            proof {
                match o {
                    Err(e) => {
                        lemma_session_stage_failure(step@, "set TLCP verification IPv4"@, e);
                    },
                    Ok(_) => {},
                }
            }
            r
        },
        SessionStep::VerificationIpv6(a) => {
            let outcome = set_verify_ipv6(ssl, *a);
            let ghost o = outcome;
            let r = call_outcome("set TLCP verification IPv6", outcome);
            proof {
                match o {
                    Err(e) => {
                        lemma_session_stage_failure(step@, "set TLCP verification IPv6"@, e);
                    },
                    Ok(_) => {},
                }
            }
            r
        },
    }
}

impl TlcpConnector {
    /// The host connections made through this connector are for.
    pub closed spec fn target(&self) -> TlcpHost {
        self.host
    }

    /// The settings of the shared context.
    pub closed spec fn settings(&self) -> Seq<ContextSetting> {
        context_settings(*self.context)
    }

    /// The host connections made through this connector are for.
    pub fn host(&self) -> (r: &TlcpHost)
        ensures
            *r == self.target(),
    {
        &self.host
    }

    /// A new client session on the shared context, in connect state,
    /// configured for the connector's host by [`session_steps`] with
    /// [`apply_session_step`]: for a DNS host it sends the name by SNI and
    /// verifies the certificate against it with no partial wildcards; for
    /// an IP host it verifies the certificate against the address. The
    /// first call that fails ends the set-up with its stage's error line.
    pub fn open_session(&self) -> (r: Result<Ssl, Error>)
        requires
            host_nul_free(self.target()),
        ensures
            r matches Ok(s) ==> session_settings(s) == session_plan(self.settings(), self.target()),
            r matches Err(e) ==> e matches Error::SSLConnectionError(m) && session_failure(
                host_steps(self.target()),
                m@,
            ),
    {
        let steps = session_steps(&self.host);
        let ghost plan = session_step_views(steps@);
        let mut ssl = match new_ssl(&*self.context) {
            Ok(s) => s,
            Err(e) => {
                return Err(stage_failure("create TLCP SSL", &e));
            },
        };
        set_connect_state(&mut ssl);
        let ghost base = seq![
            SessionSetting::FromContext(self.settings()),
            SessionSetting::ConnectState,
        ];
        assert(plan.take(0) =~= Seq::<SessionSetting>::empty());
        assert(session_settings(ssl) =~= base + plan.take(0));
        let mut i: usize = 0;
        while i < steps.len()
            invariant
                i <= steps.len(),
                plan == session_step_views(steps@),
                plan == host_steps(self.target()),
                host_nul_free(self.target()),
                base == seq![SessionSetting::FromContext(self.settings()), SessionSetting::ConnectState],
                session_settings(ssl) == base + plan.take(i as int),
            decreases steps.len() - i,
        {
            let ghost here = plan[i as int];
            assert(here == steps@[i as int]@);
            proof {
                assert(plan.len() == steps@.len());
                match self.target() {
                    TlcpHost::Domain(d) => {
                        assert(plan =~= seq![
                            SessionSetting::SniHostname(d@),
                            SessionSetting::HostFlags(HostCheck::NoPartialWildcards),
                            SessionSetting::VerificationHost(d@),
                        ]);
                        if i == 0 {
                            assert(here == SessionSetting::SniHostname(d@));
                        } else {
                            assert(i == 1 || i == 2);
                            assert(!(here is SniHostname));
                        }
                    },
                    TlcpHost::Ipv4(a) => {
                        assert(plan =~= seq![SessionSetting::VerificationIpv4(a)]);
                    },
                    TlcpHost::Ipv6(a) => {
                        assert(plan =~= seq![SessionSetting::VerificationIpv6(a)]);
                    },
                }
            }
            assert(here matches SessionSetting::SniHostname(h) ==> nul_free(h));
            match apply_session_step(&mut ssl, &steps[i]) {
                Ok(()) => {},
                Err(e) => {
                    assert(e matches Error::SSLConnectionError(m) && session_step_failure(
                        plan[i as int],
                        m@,
                    ));
                    return Err(e);
                },
            }
            assert(plan.take(i + 1) =~= plan.take(i as int).push(here));
            assert(base + plan.take(i + 1) =~= (base + plan.take(i as int)).push(here));
            i = i + 1;
        }
        assert(plan.take(steps.len() as int) =~= plan);
        Ok(ssl)
    }
}

/// Puts the TLCP session over the TCP stream, without a handshake yet.
/// The stream runs the session it was handed.
pub fn attach_stream(ssl: Ssl, stream: TcpStream) -> (r: Result<SslStream<TcpStream>, Error>)
    ensures
        r matches Ok(st) ==> stream_session(st) == session_settings(ssl),
        r matches Err(e) ==> e matches Error::SSLConnectionError(m) && exists|es: ErrorStack|
            m@ == "TLCP stream initialization failed: "@ + stage_error_message(
                "create TLCP SSL stream"@,
                es,
            ),
{
    match new_ssl_stream(ssl, stream) {
        Ok(s) => Ok(s),
        Err(e) => {
            let line = format_tongsuo_error("create TLCP SSL stream", &e);
            let mut m = "TLCP stream initialization failed: ".to_owned();
            m.append(line.as_str());
            Err(Error::SSLConnectionError(m))
        },
    }
}

/// Whether some but not all four client identity files are configured.
pub open spec fn partial_identity(c: TlcpConfigView) -> bool {
    !(c.sign_cert is Some && c.sign_key is Some && c.enc_cert is Some && c.enc_key is Some) && !(
    c.sign_cert is None && c.sign_key is None && c.enc_cert is None && c.enc_key is None)
}

/// A plan stops only at its last step: nothing is configured after a
/// rejection.
pub proof fn lemma_reject_is_last(c: TlcpConfigView)
    ensures
        forall|k: int| 0 <= k < tlcp_plan(c).len() - 1 ==> !(#[trigger] tlcp_plan(c)[k] is Reject),
{
}

/// Server verification: a validating configuration loads its CA file and
/// verifies the peer, or is rejected when it has no CA file; a
/// non-validating one turns verification off and loads no CA file.
pub proof fn lemma_plan_server_verification(c: TlcpConfigView)
    ensures
        c.validation && c.ca_cert is None ==> tlcp_plan(c) == seq![
            StepView::EnableNtls,
            StepView::SetCipherList,
            StepView::Reject(CA_CERTIFICATE_REQUIRED@),
        ],
        c.validation && c.ca_cert is Some ==> tlcp_plan(c)[2] == StepView::LoadCaFile(
            c.ca_cert->0,
        ) && tlcp_plan(c)[3] == StepView::VerifyPeer,
        !c.validation ==> tlcp_plan(c)[2] == StepView::VerifyNone && forall|k: int|
            0 <= k < tlcp_plan(c).len() ==> !(#[trigger] tlcp_plan(c)[k] is LoadCaFile),
{
}

/// The settings are rejected exactly when a validating configuration has
/// no CA file, or the client identity files are neither all present nor
/// all absent.
pub proof fn lemma_plan_rejects_exactly(c: TlcpConfigView)
    ensures
        rejects(tlcp_plan(c)) <==> (c.validation && c.ca_cert is None) || partial_identity(c),
{
    let plan = tlcp_plan(c);
    if (c.validation && c.ca_cert is None) || partial_identity(c) {
        assert(plan[plan.len() - 1] is Reject);
    }
}

/// The client identity is loaded, signing certificate and key then
/// encryption certificate and key, exactly when all four files are
/// configured and the server verification steps succeed.
pub proof fn lemma_plan_client_identity(c: TlcpConfigView)
    ensures
        !(c.validation && c.ca_cert is None) && c.sign_cert is Some && c.sign_key is Some
            && c.enc_cert is Some && c.enc_key is Some ==> {
            let plan = tlcp_plan(c);
            let n: nat = plan.len();
            &&& plan[n - 4] == StepView::LoadSignCertificate(c.sign_cert->0)
            &&& plan[n - 3] == StepView::LoadSignKey(c.sign_key->0)
            &&& plan[n - 2] == StepView::LoadEncCertificate(c.enc_cert->0)
            &&& plan[n - 1] == StepView::LoadEncKey(c.enc_key->0)
        },
        c.sign_cert is None && c.sign_key is None && c.enc_cert is None && c.enc_key is None
            ==> forall|k: int|
            0 <= k < tlcp_plan(c).len() ==> step_path(#[trigger] tlcp_plan(c)[k]) is None || tlcp_plan(
                c,
            )[k] is LoadCaFile,
{
}

/// A connection that is not configured for TLCP gets no TLCP connector:
/// its settings demand a CA certificate that it does not have.
pub proof fn lemma_non_tlcp_config_rejected(config: ConnectionTLSConfig)
    requires
        !(config is Tlcp),
    ensures
        rejects(tlcp_plan(effective_tlcp(config))),
        tlcp_plan(effective_tlcp(config)).last() == StepView::Reject(CA_CERTIFICATE_REQUIRED@),
{
    assert(tlcp_plan(effective_tlcp(config))[2] is Reject);
}


/// What a built connector's context is configured with: the NTLS client
/// method, NTLS switched on, the TLCP cipher list; then, for validating
/// settings, the CA file and peer verification, and otherwise verification
/// off with no CA file loaded.
pub proof fn lemma_connector_settings(c: TlcpConfigView)
    requires
        !rejects(tlcp_plan(c)),
    ensures
        applied_settings(tlcp_plan(c))[0] == ContextSetting::NtlsClientMethod,
        applied_settings(tlcp_plan(c))[1] == ContextSetting::NtlsEnabled,
        applied_settings(tlcp_plan(c))[2] == ContextSetting::CipherList(TLCP_CIPHER_LIST@),
        c.validation ==> c.ca_cert is Some && applied_settings(tlcp_plan(c))[3]
            == ContextSetting::CaFile(c.ca_cert->0) && applied_settings(tlcp_plan(c))[4]
            == ContextSetting::Verify(VerifyMode::Peer),
        !c.validation ==> applied_settings(tlcp_plan(c))[3] == ContextSetting::Verify(
            VerifyMode::Off,
        ) && forall|k: int|
            0 <= k < applied_settings(tlcp_plan(c)).len() ==> !(#[trigger] applied_settings(
                tlcp_plan(c),
            )[k] is CaFile),
{
    lemma_plan_rejects_exactly(c);
    lemma_plan_server_verification(c);
    let plan = tlcp_plan(c);
    let applied = applied_settings(plan);
    assert forall|k: int| 0 <= k < applied.len() && !c.validation implies !(
    #[trigger] applied[k] is CaFile) by {
        if k > 0 {
            assert(applied[k] == step_setting(plan[k - 1])->0);
            assert(!(plan[k - 1] is LoadCaFile));
        }
    }
}


/// Whether a plan step sets the server verification mode.
pub open spec fn sets_verify_mode(s: StepView) -> bool {
    s is VerifyPeer || s is VerifyNone
}

/// The server verification mode follows the validation setting: a
/// validating plan never turns verification off, a non-validating one
/// never turns it on nor loads a CA file, and a plan that is carried out
/// sets the mode exactly once.
pub proof fn lemma_plan_verify_mode(c: TlcpConfigView)
    ensures
        c.validation ==> forall|k: int|
            0 <= k < tlcp_plan(c).len() ==> !(#[trigger] tlcp_plan(c)[k] is VerifyNone),
        !c.validation ==> forall|k: int|
            0 <= k < tlcp_plan(c).len() ==> !(#[trigger] tlcp_plan(c)[k] is VerifyPeer) && !(
            tlcp_plan(c)[k] is LoadCaFile),
        !rejects(tlcp_plan(c)) ==> exists|k: int|
            0 <= k < tlcp_plan(c).len() && #[trigger] sets_verify_mode(tlcp_plan(c)[k]),
        forall|j: int, k: int|
            0 <= j < tlcp_plan(c).len() && 0 <= k < tlcp_plan(c).len() && #[trigger] sets_verify_mode(
                tlcp_plan(c)[j],
            ) && #[trigger] sets_verify_mode(tlcp_plan(c)[k]) ==> j == k,
{
    lemma_plan_rejects_exactly(c);
    let plan = tlcp_plan(c);
    let v: int = if c.validation {
        3
    } else {
        2
    };
    let head = seq![StepView::EnableNtls, StepView::SetCipherList] + verification_steps(c);
    assert forall|k: int| 0 <= k < plan.len() && sets_verify_mode(plan[k]) implies k == v by {
        if k >= head.len() {
            let t = client_identity_steps(c);
            assert(plan[k] == t[k - head.len()]);
            assert(!sets_verify_mode(t[k - head.len()]));
        }
    }
    if !rejects(plan) {
        assert(sets_verify_mode(plan[v]));
    }
}

/// The plan of each kind of settings, step by step: what is loaded and
/// how the server is verified depend only on the validation flag and on
/// which files are configured.
pub proof fn lemma_plan_by_settings(c: TlcpConfigView)
    ensures
        c.validation && c.ca_cert is Some && c.sign_cert is None && c.sign_key is None
            && c.enc_cert is None && c.enc_key is None ==> tlcp_plan(c) == seq![
            StepView::EnableNtls,
            StepView::SetCipherList,
            StepView::LoadCaFile(c.ca_cert->0),
            StepView::VerifyPeer,
        ],
        !c.validation && c.sign_cert is None && c.sign_key is None && c.enc_cert is None
            && c.enc_key is None ==> tlcp_plan(c) == seq![
            StepView::EnableNtls,
            StepView::SetCipherList,
            StepView::VerifyNone,
        ],
        c.validation && c.ca_cert is Some && c.sign_cert is Some && c.sign_key is Some
            && c.enc_cert is Some && c.enc_key is Some ==> tlcp_plan(c) == seq![
            StepView::EnableNtls,
            StepView::SetCipherList,
            StepView::LoadCaFile(c.ca_cert->0),
            StepView::VerifyPeer,
            StepView::LoadSignCertificate(c.sign_cert->0),
            StepView::LoadSignKey(c.sign_key->0),
            StepView::LoadEncCertificate(c.enc_cert->0),
            StepView::LoadEncKey(c.enc_key->0),
        ],
        !c.validation && c.sign_cert is Some && c.sign_key is Some && c.enc_cert is Some
            && c.enc_key is Some ==> tlcp_plan(c) == seq![
            StepView::EnableNtls,
            StepView::SetCipherList,
            StepView::VerifyNone,
            StepView::LoadSignCertificate(c.sign_cert->0),
            StepView::LoadSignKey(c.sign_key->0),
            StepView::LoadEncCertificate(c.enc_cert->0),
            StepView::LoadEncKey(c.enc_key->0),
        ],
        !(c.validation && c.ca_cert is None) && !rejects(tlcp_plan(c)) ==> tlcp_plan(c).len() == (
        if c.validation {
            4int
        } else {
            3int
        }) + (if c.sign_cert is Some {
            4int
        } else {
            0int
        }),
{
    lemma_plan_rejects_exactly(c);
    let plan = tlcp_plan(c);
    if c.validation && c.ca_cert is Some && c.sign_cert is None && c.sign_key is None
        && c.enc_cert is None && c.enc_key is None {
        assert(plan =~= seq![
            StepView::EnableNtls,
            StepView::SetCipherList,
            StepView::LoadCaFile(c.ca_cert->0),
            StepView::VerifyPeer,
        ]);
    }
    if !c.validation && c.sign_cert is None && c.sign_key is None && c.enc_cert is None
        && c.enc_key is None {
        assert(plan =~= seq![StepView::EnableNtls, StepView::SetCipherList, StepView::VerifyNone]);
    }
    if c.sign_cert is Some && c.sign_key is Some && c.enc_cert is Some && c.enc_key is Some {
        if c.validation && c.ca_cert is Some {
            assert(plan =~= seq![
                StepView::EnableNtls,
                StepView::SetCipherList,
                StepView::LoadCaFile(c.ca_cert->0),
                StepView::VerifyPeer,
                StepView::LoadSignCertificate(c.sign_cert->0),
                StepView::LoadSignKey(c.sign_key->0),
                StepView::LoadEncCertificate(c.enc_cert->0),
                StepView::LoadEncKey(c.enc_key->0),
            ]);
        }
        if !c.validation {
            assert(plan =~= seq![
                StepView::EnableNtls,
                StepView::SetCipherList,
                StepView::VerifyNone,
                StepView::LoadSignCertificate(c.sign_cert->0),
                StepView::LoadSignKey(c.sign_key->0),
                StepView::LoadEncCertificate(c.enc_cert->0),
                StepView::LoadEncKey(c.enc_key->0),
            ]);
        }
    }
}

/// A session verifies the host it is for and nothing else: every name or
/// address it hands to the TLS library is the host's own, octet for octet;
/// an IP host's session verifies exactly its address, and a DNS host's
/// session sends its name by SNI and verifies that name.
pub proof fn lemma_session_verifies_own_host(host: TlcpHost)
    ensures
        forall|k: int|
            0 <= k < host_steps(host).len() ==> match #[trigger] host_steps(host)[k] {
                SessionSetting::VerificationIpv4(a) => host == TlcpHost::Ipv4(a),
                SessionSetting::VerificationIpv6(a) => host == TlcpHost::Ipv6(a),
                SessionSetting::VerificationHost(n) => host matches TlcpHost::Domain(d) && n == d@,
                SessionSetting::SniHostname(n) => host matches TlcpHost::Domain(d) && n == d@,
                _ => true,
            },
        host matches TlcpHost::Ipv4(a) ==> host_steps(host) == seq![
            SessionSetting::VerificationIpv4(a),
        ],
        host matches TlcpHost::Ipv6(a) ==> host_steps(host) == seq![
            SessionSetting::VerificationIpv6(a),
        ],
        host matches TlcpHost::Domain(d) ==> exists|i: int, j: int|
            0 <= i < host_steps(host).len() && 0 <= j < host_steps(host).len()
                && host_steps(host)[i] == SessionSetting::SniHostname(d@) && host_steps(host)[j]
                == SessionSetting::VerificationHost(d@),
{
    match host {
        TlcpHost::Domain(d) => {
            assert(host_steps(host)[0] == SessionSetting::SniHostname(d@));
            assert(host_steps(host)[2] == SessionSetting::VerificationHost(d@));
        },
        _ => {},
    }
}

} // verus!
