use bolt_driver::scheme::{is_cluster, is_encrypted, is_tlcp, lookup, parse, schemes};
use bolt_driver::Error;

#[test]
fn lookup_known_schemes() {
    assert_eq!(lookup("bolt").unwrap().routing, false);
    assert_eq!(lookup("bolt+s").unwrap().validation, true);
    assert_eq!(lookup("bolt+ssc").unwrap().validation, false);
    assert_eq!(lookup("bolt+gmssl").unwrap().tlcp, true);
    assert_eq!(lookup("neo4j").unwrap().routing, true);
    let neo4j_s = lookup("neo4j+s").unwrap();
    let neo4j_ssl = lookup("neo4j+ssl").unwrap();
    assert_eq!(neo4j_ssl.routing, neo4j_s.routing);
    assert_eq!(neo4j_ssl.encryption, neo4j_s.encryption);
    assert_eq!(neo4j_ssl.validation, neo4j_s.validation);
    assert_eq!(neo4j_ssl.tlcp, neo4j_s.tlcp);
    assert_eq!(lookup("").unwrap().scheme, "bolt");
}

#[test]
fn lookup_unknown_scheme() {
    assert!(lookup("http").is_none());
    assert!(parse("http").is_err());
}

#[test]
fn helpers_consistent_with_table() {
    for s in schemes() {
        assert_eq!(is_cluster(s.scheme), s.routing);
        assert_eq!(is_tlcp(s.scheme), s.tlcp);
        assert_eq!(is_encrypted(s.scheme), s.encryption);
    }
}

#[test]
fn table_has_sixteen_distinct_schemes() {
    let table = schemes();
    assert_eq!(table.len(), 16);
    for (i, a) in table.iter().enumerate() {
        for b in table.iter().skip(i + 1) {
            assert_ne!(a.scheme, b.scheme);
        }
    }
}

#[test]
fn each_table_scheme_looks_up_to_its_entry() {
    for s in schemes() {
        assert_eq!(lookup(s.scheme), Some(s));
        assert_eq!(parse(s.scheme), Ok(s));
    }
}

#[test]
fn empty_scheme_is_bolt() {
    assert_eq!(lookup(""), lookup("bolt"));
    assert_eq!(parse("").unwrap().scheme, "bolt");
}

#[test]
fn parse_reports_the_unknown_scheme() {
    assert_eq!(parse("http"), Err(Error::UnsupportedScheme("http".to_string())));
    assert_eq!(parse("BOLT"), Err(Error::UnsupportedScheme("BOLT".to_string())));
    assert_eq!(parse("bolt+"), Err(Error::UnsupportedScheme("bolt+".to_string())));
}

#[test]
fn unknown_schemes_have_no_features() {
    for s in ["http", "bolt+x", "neo4j+gmssl", " bolt", "bolt://"] {
        assert!(!is_cluster(s));
        assert!(!is_tlcp(s));
        assert!(!is_encrypted(s));
    }
}

#[test]
fn secure_scheme_aliases_agree() {
    for (short, long) in [("bolt+s", "bolt+ssl"), ("neo4j+s", "neo4j+ssl"), ("bolt+gms", "bolt+gmssl")] {
        let a = lookup(short).unwrap();
        let b = lookup(long).unwrap();
        assert_eq!((a.routing, a.encryption, a.validation, a.tlcp), (b.routing, b.encryption, b.validation, b.tlcp));
        assert_eq!(a.scheme, short);
        assert_eq!(b.scheme, long);
    }
}

#[test]
fn validation_and_tlcp_need_encryption() {
    for s in schemes() {
        if s.validation || s.tlcp {
            assert!(s.encryption);
        }
    }
}

#[test]
fn cluster_tlcp_scheme_flags() {
    let info = lookup("bolt+cluster+gmssc").unwrap();
    assert!(info.routing && info.encryption && !info.validation && info.tlcp);
    assert!(is_cluster("bolt+cluster"));
    assert!(!is_encrypted("bolt+cluster"));
    assert!(is_tlcp("bolt+gms"));
    assert!(!is_tlcp("neo4j+s"));
}
