use bolt_driver::{ClientCertificate, ConnectionTLSConfig, MutualTLS, TlcpConfig};

#[test]
fn tlcp_config_new_validates_and_keeps_paths() {
    let c = TlcpConfig::new(Some("ca.pem"), Some("s.crt"), Some("s.key"), None, Some("e.key"));
    assert!(c.validation());
    assert_eq!(c.ca_cert(), Some("ca.pem"));
    assert_eq!(c.sign_cert(), Some("s.crt"));
    assert_eq!(c.sign_key(), Some("s.key"));
    assert_eq!(c.enc_cert(), None);
    assert_eq!(c.enc_key(), Some("e.key"));
}

#[test]
fn tlcp_with_no_validation_only_drops_validation() {
    let c = TlcpConfig::new(Some("ca.pem"), Some("s.crt"), Some("s.key"), Some("e.crt"), Some("e.key"));
    let n = c.with_no_validation();
    assert!(!n.validation());
    assert_eq!(n.ca_cert(), c.ca_cert());
    assert_eq!(n.sign_cert(), c.sign_cert());
    assert_eq!(n.sign_key(), c.sign_key());
    assert_eq!(n.enc_cert(), c.enc_cert());
    assert_eq!(n.enc_key(), c.enc_key());
    assert_ne!(n, c);
    assert_eq!(n.with_no_validation(), n);
    assert!(c.validation());
}

#[test]
fn mutual_tls_with_no_validation() {
    let m = MutualTLS::new(Some("ca.pem"), "client.crt", "client.key");
    let n = m.with_no_validation();
    assert_ne!(m, n);
    assert_eq!(n, n.with_no_validation());
    assert_eq!(m, MutualTLS::new(Some("ca.pem"), "client.crt", "client.key"));
    assert_ne!(m, MutualTLS::new(None, "client.crt", "client.key"));
}

#[test]
fn client_certificate_equality_follows_path() {
    assert_eq!(ClientCertificate::new("a.pem"), ClientCertificate::new("a.pem"));
    assert_ne!(ClientCertificate::new("a.pem"), ClientCertificate::new("b.pem"));
    let cfg = ConnectionTLSConfig::ClientCACertificate(ClientCertificate::new("a.pem"));
    assert_eq!(cfg.clone(), cfg);
}
