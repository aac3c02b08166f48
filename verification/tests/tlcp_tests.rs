use bolt_driver::HostCheck;
use bolt_driver::{call_outcome, format_tongsuo_error, session_steps, SessionStep, format_tongsuo_ssl_error, handshake_failure};
use tongsuo::error::ErrorStack;
use bolt_driver::report::{decimal_i32, handshake_error_report, join_parts, stage_error_text};
use bolt_driver::{
    build_connector, context_plan, ClientCertificate, ConnectionTLSConfig,
    ContextStep, Error, MutualTLS, TlcpConfig, TlcpHost, CA_CERTIFICATE_REQUIRED,
    INCOMPLETE_CLIENT_IDENTITY, TLCP_CIPHER_LIST,
};

fn tlcp(c: TlcpConfig) -> ConnectionTLSConfig {
    ConnectionTLSConfig::Tlcp(c)
}

#[test]
fn cipher_list_is_the_gm_suites() {
    assert_eq!(
        TLCP_CIPHER_LIST,
        "ECDHE-SM2-SM4-GCM-SM3:ECDHE-SM2-SM4-CBC-SM3:ECC-SM2-SM4-GCM-SM3:ECC-SM2-SM4-CBC-SM3"
    );
}

#[test]
fn plan_validating_with_ca_and_full_identity() {
    let c = TlcpConfig::new(Some("ca.pem"), Some("s.crt"), Some("s.key"), Some("e.crt"), Some("e.key"));
    assert_eq!(
        context_plan(&tlcp(c)),
        vec![
            ContextStep::EnableNtls,
            ContextStep::SetCipherList,
            ContextStep::LoadCaFile("ca.pem".to_string()),
            ContextStep::VerifyPeer,
            ContextStep::LoadSignCertificate("s.crt".to_string()),
            ContextStep::LoadSignKey("s.key".to_string()),
            ContextStep::LoadEncCertificate("e.crt".to_string()),
            ContextStep::LoadEncKey("e.key".to_string()),
        ]
    );
}

#[test]
fn plan_validating_without_ca_is_rejected() {
    let c = TlcpConfig::new(None, Some("s.crt"), None, None, None);
    assert_eq!(
        context_plan(&tlcp(c)),
        vec![
            ContextStep::EnableNtls,
            ContextStep::SetCipherList,
            ContextStep::Reject(CA_CERTIFICATE_REQUIRED.to_string()),
        ]
    );
}

#[test]
fn plan_without_validation_needs_no_ca() {
    let c = TlcpConfig::new(Some("ca.pem"), None, None, None, None).with_no_validation();
    assert_eq!(
        context_plan(&tlcp(c)),
        vec![ContextStep::EnableNtls, ContextStep::SetCipherList, ContextStep::VerifyNone]
    );
}

#[test]
fn plan_partial_identity_is_rejected() {
    let c = TlcpConfig::new(Some("ca.pem"), Some("s.crt"), Some("s.key"), Some("e.crt"), None);
    assert_eq!(
        context_plan(&tlcp(c)),
        vec![
            ContextStep::EnableNtls,
            ContextStep::SetCipherList,
            ContextStep::LoadCaFile("ca.pem".to_string()),
            ContextStep::VerifyPeer,
            ContextStep::Reject(INCOMPLETE_CLIENT_IDENTITY.to_string()),
        ]
    );
}

#[test]
fn plan_of_non_tlcp_config_demands_ca() {
    let expected = vec![
        ContextStep::EnableNtls,
        ContextStep::SetCipherList,
        ContextStep::Reject(CA_CERTIFICATE_REQUIRED.to_string()),
    ];
    assert_eq!(context_plan(&ConnectionTLSConfig::Plaintext), expected);
    assert_eq!(context_plan(&ConnectionTLSConfig::NoSSLValidation), expected);
    let m = MutualTLS::new(Some("ca.pem"), "c.crt", "c.key");
    assert_eq!(context_plan(&ConnectionTLSConfig::MutualTLS(m)), expected);
    let cc = ClientCertificate::new("ca.pem");
    assert_eq!(context_plan(&ConnectionTLSConfig::ClientCACertificate(cc)), expected);
}

#[test]
fn build_connector_rejects_missing_ca() {
    let r = build_connector(TlcpHost::Domain("db.example".to_string()), &ConnectionTLSConfig::Plaintext);
    match r {
        Err(Error::SSLConnectionError(m)) => {
            assert!(m == CA_CERTIFICATE_REQUIRED || m.starts_with("create TLCP SSL context: "));
        }
        _ => panic!("expected a connection error"),
    }
}

#[test]
fn build_connector_rejects_partial_identity() {
    let c = TlcpConfig::new(None, Some("s.crt"), None, None, None).with_no_validation();
    match build_connector(TlcpHost::Ipv4([127, 0, 0, 1]), &tlcp(c)) {
        Err(Error::SSLConnectionError(m)) => {
            assert!(
                m == INCOMPLETE_CLIENT_IDENTITY
                    || m.starts_with("create TLCP SSL context: ")
                    || m.starts_with("set TLCP cipher list: ")
            );
        }
        _ => panic!("expected a connection error"),
    }
}

#[test]
fn build_connector_reports_missing_ca_file() {
    let c = TlcpConfig::new(Some("/nonexistent/ca.pem"), None, None, None, None);
    match build_connector(TlcpHost::Domain("db.example".to_string()), &tlcp(c)) {
        Err(Error::SSLConnectionError(m)) => {
            assert!(
                m.starts_with("load TLCP CA certificate: ")
                    || m.starts_with("create TLCP SSL context: ")
                    || m.starts_with("set TLCP cipher list: ")
            );
            assert!(m.contains("; debug: "));
        }
        _ => panic!("expected a connection error"),
    }
}

#[test]
fn connector_without_validation_keeps_host() {
    let c = TlcpConfig::new(None, None, None, None, None).with_no_validation();
    let host = TlcpHost::Domain("db.example".to_string());
    if let Ok(conn) = build_connector(host.clone(), &tlcp(c)) {
        assert_eq!(conn.host(), &host);
        assert!(conn.open_session().is_ok());
    }
    let c = TlcpConfig::new(None, None, None, None, None).with_no_validation();
    if let Ok(conn) = build_connector(TlcpHost::Ipv4([127, 0, 0, 1]), &tlcp(c)) {
        assert!(conn.open_session().is_ok());
    }
}

#[test]
fn session_steps_per_host() {
    assert_eq!(
        session_steps(&TlcpHost::Domain("db.example".to_string())),
        vec![
            SessionStep::SniHostname("db.example".to_string()),
            SessionStep::HostFlags(HostCheck::NoPartialWildcards),
            SessionStep::VerificationHost("db.example".to_string()),
        ]
    );
    assert_eq!(session_steps(&TlcpHost::Ipv4([10, 0, 0, 1])), vec![SessionStep::VerificationIpv4([10, 0, 0, 1])]);
    assert_eq!(session_steps(&TlcpHost::Ipv6([0; 16])), vec![SessionStep::VerificationIpv6([0; 16])]);
}

#[test]
fn decimal_codes() {
    assert_eq!(decimal_i32(0), "0");
    assert_eq!(decimal_i32(7), "7");
    assert_eq!(decimal_i32(-1), "-1");
    assert_eq!(decimal_i32(1234567), "1234567");
    assert_eq!(decimal_i32(i32::MAX), "2147483647");
    assert_eq!(decimal_i32(i32::MIN), "-2147483648");
}

#[test]
fn join_with_separator() {
    assert_eq!(join_parts(&vec![], "; "), "");
    assert_eq!(join_parts(&vec!["a".to_string()], "; "), "a");
    assert_eq!(join_parts(&vec!["a".to_string(), "b".to_string(), "c".to_string()], "; "), "a; b; c");
}

#[test]
fn stage_line() {
    assert_eq!(
        stage_error_text("set TLCP cipher list", "no cipher match", "ErrorStack([])"),
        "set TLCP cipher list: no cipher match; debug: ErrorStack([])"
    );
}

#[test]
fn handshake_report_parts() {
    assert_eq!(
        handshake_error_report(1, "ssl".to_string(), None, Some("bad cert".to_string()), "Dbg".to_string()),
        "OpenSSL error code 1; ssl; stack: bad cert; debug: Dbg"
    );
    assert_eq!(
        handshake_error_report(5, "syscall".to_string(), Some("reset".to_string()), Some(String::new()), "D".to_string()),
        "OpenSSL error code 5; syscall; io: reset; debug: D"
    );
    assert_eq!(
        handshake_error_report(-2, "x".to_string(), None, None, "y".to_string()),
        "OpenSSL error code -2; x; debug: y"
    );
}

#[test]
fn call_outcome_reports_the_stage() {
    assert_eq!(call_outcome("set TLCP cipher list", Ok(())), Ok(()));
    let e = ErrorStack::get();
    let shown = format!("{e}");
    let debug = format!("{e:?}");
    assert_eq!(
        call_outcome("set TLCP cipher list", Err(e)),
        Err(Error::SSLConnectionError(format!("set TLCP cipher list: {shown}; debug: {debug}")))
    );
}

#[test]
fn stage_error_line_of_an_empty_stack() {
    let e = ErrorStack::get();
    assert_eq!(
        format_tongsuo_error("create TLCP SSL", &e),
        "create TLCP SSL: OpenSSL error; debug: ErrorStack([])"
    );
    assert_eq!(
        call_outcome("set TLCP verification IPv4", Err(ErrorStack::get())),
        Err(Error::SSLConnectionError("set TLCP verification IPv4: OpenSSL error; debug: ErrorStack([])".to_string()))
    );
}

#[test]
fn handshake_failure_report_of_an_ssl_error() {
    let e = tongsuo::ssl::Error::from(ErrorStack::get());
    let debug = format!("{e:?}");
    let report = format_tongsuo_ssl_error(&e);
    assert_eq!(
        report,
        format!("OpenSSL error code 1; OpenSSL error; stack: OpenSSL error; debug: {debug}")
    );
    assert_eq!(
        handshake_failure(&e),
        Error::SSLConnectionError(format!("TLCP handshake failed: {report}"))
    );
}
