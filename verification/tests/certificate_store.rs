use openssl::asn1::Asn1Time;
use openssl::bn::BigNum;
use openssl::ec::{EcGroup, EcKey};
use openssl::hash::MessageDigest;
use openssl::nid::Nid;
use openssl::x509::X509NameBuilder;
use pingora_openssl::pkey::{PKey, Private};
use pingora_openssl::x509::X509;
use pingora_reverse_proxy::app::ProxyApp;
use pingora_reverse_proxy::certificate::{
    credential_part, decode_certificate, decode_private_key, CertificateEntry, CertificateStore,
    CredentialError, CredentialPart, Decoded, LoadedCredential, NoMatchingCertificate, MAX_PEM_LEN,
};
use pingora_reverse_proxy::service::{plain_host_configs, HostConfigTls};

/// A fresh key with a self-signed certificate for `hostname`, both as PEM.
fn credential(hostname: &str) -> (Vec<u8>, Vec<u8>) {
    let group = EcGroup::from_curve_name(Nid::X9_62_PRIME256V1).unwrap();
    let key = PKey::from_ec_key(EcKey::generate(&group).unwrap()).unwrap();
    let mut name = X509NameBuilder::new().unwrap();
    name.append_entry_by_text("CN", hostname).unwrap();
    let name = name.build();
    let mut builder = X509::builder().unwrap();
    builder.set_version(2).unwrap();
    let serial = BigNum::from_u32(1).unwrap().to_asn1_integer().unwrap();
    builder.set_serial_number(&serial).unwrap();
    builder.set_subject_name(&name).unwrap();
    builder.set_issuer_name(&name).unwrap();
    builder.set_pubkey(&key).unwrap();
    builder.set_not_before(&Asn1Time::days_from_now(0).unwrap()).unwrap();
    builder.set_not_after(&Asn1Time::days_from_now(30).unwrap()).unwrap();
    builder.sign(&key, MessageDigest::sha256()).unwrap();
    let certificate = builder.build();
    (
        certificate.to_pem().unwrap(),
        key.private_key_to_pem_pkcs8().unwrap(),
    )
}

fn loaded(hostname: &str, certificate: Option<Vec<u8>>, key: Option<Vec<u8>>) -> LoadedCredential {
    LoadedCredential {
        hostname: hostname.to_owned(),
        certificate,
        private_key: key,
    }
}

fn loaded_for(hostname: &str) -> LoadedCredential {
    let (certificate, key) = credential(hostname);
    loaded(hostname, Some(certificate), Some(key))
}

fn entry(hostname: &str) -> CertificateEntry {
    let (certificate, key) = credential(hostname);
    CertificateEntry {
        hostname: hostname.to_owned(),
        certificate: X509::from_pem(&certificate).unwrap(),
        private_key: PKey::private_key_from_pem(&key).unwrap(),
    }
}

fn store(built: Result<CertificateStore, CredentialError>) -> CertificateStore {
    match built {
        Ok(store) => store,
        Err(e) => panic!("no store: {e:?}"),
    }
}

fn tls_host(hostname: &str) -> HostConfigTls {
    HostConfigTls {
        proxy_addr: "127.0.0.1:4000".to_owned(),
        proxy_tls: false,
        proxy_hostname: hostname.to_owned(),
        cert_path: format!("keys/{hostname}.crt"),
        key_path: format!("keys/{hostname}.pem"),
    }
}

#[test]
fn resolve_in_a_store_of_one_entry() {
    let (certificate, key) = credential("secure.test");
    let built = store(CertificateStore::build(&vec![loaded(
        "secure.test",
        Some(certificate.clone()),
        Some(key.clone()),
    )]));
    assert_eq!(built.len(), 1);
    let found = built.resolve(Some("secure.test")).expect("the entry");
    assert_eq!(found.hostname, "secure.test");
    assert_eq!(found.certificate.to_pem().unwrap(), certificate);
    assert_eq!(found.private_key.private_key_to_pem_pkcs8().unwrap(), key);
    assert!(found.certificate.public_key().unwrap().public_eq(&found.private_key));
    assert_eq!(
        built.resolve(Some("other.test")).err(),
        Some(NoMatchingCertificate)
    );
    assert_eq!(built.resolve(None).err(), Some(NoMatchingCertificate));
}

#[test]
fn each_host_gets_its_own_credential() {
    let (cert_a, key_a) = credential("a.test");
    let (cert_b, key_b) = credential("b.test");
    let built = store(CertificateStore::build(&vec![
        loaded("a.test", Some(cert_a.clone()), Some(key_a.clone())),
        loaded("b.test", Some(cert_b.clone()), Some(key_b.clone())),
    ]));
    assert_eq!(built.len(), 2);
    let a = built.lookup("a.test").expect("the entry of a.test");
    let b = built.lookup("b.test").expect("the entry of b.test");
    assert_eq!(a.hostname, "a.test");
    assert_eq!(b.hostname, "b.test");
    assert_eq!(a.certificate.to_pem().unwrap(), cert_a);
    assert_eq!(b.certificate.to_pem().unwrap(), cert_b);
    assert_eq!(a.private_key.private_key_to_pem_pkcs8().unwrap(), key_a);
    assert_eq!(b.private_key.private_key_to_pem_pkcs8().unwrap(), key_b);
    assert_ne!(cert_a, cert_b);
}

#[test]
fn server_names_are_compared_exactly() {
    let built = store(CertificateStore::build(&vec![loaded_for("secure.test")]));
    for name in [
        "Secure.test",
        "secure.test.",
        "secure.test:443",
        "www.secure.test",
        "",
        "secure",
    ] {
        assert!(built.lookup(name).is_none(), "{name}");
        assert_eq!(built.resolve(Some(name)).err(), Some(NoMatchingCertificate));
    }
}

#[test]
fn the_first_of_two_entries_with_one_hostname_wins() {
    let (cert_first, key_first) = credential("dup.test");
    let (cert_second, key_second) = credential("dup.test");
    let built = store(CertificateStore::build(&vec![
        loaded_for("other.test"),
        loaded("dup.test", Some(cert_first.clone()), Some(key_first)),
        loaded("dup.test", Some(cert_second.clone()), Some(key_second)),
    ]));
    assert_eq!(built.len(), 3);
    let found = built.resolve(Some("dup.test")).expect("an entry");
    assert_eq!(found.certificate.to_pem().unwrap(), cert_first);
    assert_ne!(found.certificate.to_pem().unwrap(), cert_second);
}

#[test]
fn an_empty_store_resolves_nothing() {
    let built = store(CertificateStore::build(&Vec::new()));
    assert_eq!(built.len(), 0);
    assert!(built.lookup("a.test").is_none());
    assert_eq!(built.resolve(Some("a.test")).err(), Some(NoMatchingCertificate));
    assert_eq!(built.resolve(None).err(), Some(NoMatchingCertificate));
}

#[test]
fn a_certificate_that_was_not_loaded_is_a_load_error() {
    let (_, key) = credential("a.test");
    let built = CertificateStore::build(&vec![
        loaded_for("ok.test"),
        loaded("a.test", None, Some(key)),
    ]);
    let error = built.err().expect("an error");
    assert_eq!(
        error,
        CredentialError::Load { index: 1, part: CredentialPart::Certificate }
    );
    assert_eq!(error.index(), 1);
}

#[test]
fn a_private_key_that_was_not_loaded_is_a_load_error() {
    let (certificate, _) = credential("a.test");
    let built = CertificateStore::build(&vec![loaded("a.test", Some(certificate), None)]);
    assert_eq!(
        built.err(),
        Some(CredentialError::Load { index: 0, part: CredentialPart::PrivateKey })
    );
}

#[test]
fn a_certificate_that_does_not_decode_is_a_parse_error() {
    let (certificate, key) = credential("a.test");
    for bad in [
        Vec::new(),
        b"not a certificate".to_vec(),
        key.clone(),
        certificate[..certificate.len() / 2].to_vec(),
        b"-----BEGIN CERTIFICATE-----\nAAAA\n-----END CERTIFICATE-----\n".to_vec(),
    ] {
        let built = CertificateStore::build(&vec![loaded("a.test", Some(bad), Some(key.clone()))]);
        let error = built.err().expect("an error");
        assert_eq!(
            error,
            CredentialError::Parse { index: 0, part: CredentialPart::Certificate }
        );
        assert_eq!(error.index(), 0);
    }
}

#[test]
fn a_private_key_that_does_not_decode_is_a_parse_error() {
    let (certificate, key) = credential("a.test");
    for bad in [
        Vec::new(),
        b"not a key".to_vec(),
        certificate.clone(),
        key[..key.len() / 2].to_vec(),
    ] {
        let built = CertificateStore::build(&vec![
            loaded_for("ok.test"),
            loaded_for("fine.test"),
            loaded("a.test", Some(certificate.clone()), Some(bad)),
        ]);
        assert_eq!(
            built.err(),
            Some(CredentialError::Parse { index: 2, part: CredentialPart::PrivateKey })
        );
    }
}

#[test]
fn the_first_failure_in_order_is_reported() {
    let (certificate, key) = credential("a.test");
    // The certificate is looked at before the private key.
    let built = CertificateStore::build(&vec![loaded("a.test", None, None)]);
    assert_eq!(
        built.err(),
        Some(CredentialError::Load { index: 0, part: CredentialPart::Certificate })
    );
    let built = CertificateStore::build(&vec![loaded("a.test", Some(b"junk".to_vec()), None)]);
    assert_eq!(
        built.err(),
        Some(CredentialError::Parse { index: 0, part: CredentialPart::Certificate })
    );
    // An earlier credential is looked at before a later one.
    let built = CertificateStore::build(&vec![
        loaded("a.test", Some(certificate.clone()), Some(b"junk".to_vec())),
        loaded("b.test", None, None),
    ]);
    assert_eq!(
        built.err(),
        Some(CredentialError::Parse { index: 0, part: CredentialPart::PrivateKey })
    );
    let built = CertificateStore::build(&vec![
        loaded("a.test", Some(certificate), Some(key)),
        loaded("b.test", Some(b"junk".to_vec()), None),
        loaded("c.test", None, None),
    ]);
    assert_eq!(
        built.err(),
        Some(CredentialError::Parse { index: 1, part: CredentialPart::Certificate })
    );
}

#[test]
fn decoding_tells_missing_from_malformed_from_valid() {
    let (certificate, key) = credential("a.test");
    assert!(matches!(decode_certificate(&None), Decoded::Missing));
    assert!(matches!(decode_private_key(&None), Decoded::Missing));
    assert!(matches!(
        decode_certificate(&Some(b"junk".to_vec())),
        Decoded::Malformed
    ));
    assert!(matches!(
        decode_private_key(&Some(b"junk".to_vec())),
        Decoded::Malformed
    ));
    assert!(matches!(decode_certificate(&Some(Vec::new())), Decoded::Malformed));
    match decode_certificate(&Some(certificate.clone())) {
        Decoded::Valid(decoded) => assert_eq!(decoded.to_pem().unwrap(), certificate),
        _ => panic!("the certificate decodes"),
    }
    match decode_private_key(&Some(key.clone())) {
        Decoded::Valid(decoded) => {
            assert_eq!(decoded.private_key_to_pem_pkcs8().unwrap(), key)
        }
        _ => panic!("the key decodes"),
    }
    assert_eq!(MAX_PEM_LEN, i32::MAX as usize);
}

#[test]
fn an_outcome_of_a_decoder_is_valid_or_malformed() {
    let (certificate, key) = credential("a.test");
    match Decoded::from_outcome(X509::from_pem(&certificate)) {
        Decoded::Valid(decoded) => assert_eq!(decoded.to_pem().unwrap(), certificate),
        _ => panic!("a value is valid"),
    }
    assert!(matches!(
        Decoded::from_outcome(X509::from_pem(&key)),
        Decoded::Malformed
    ));
    let no_key: Result<PKey<Private>, _> = PKey::private_key_from_pem(b"junk");
    assert!(matches!(Decoded::from_outcome(no_key), Decoded::Malformed));
}

#[test]
fn a_part_is_taken_or_stands_for_its_error() {
    let taken: Result<u8, CredentialError> =
        credential_part(3, CredentialPart::Certificate, Decoded::Valid(7u8));
    assert_eq!(taken, Ok(7));
    let taken: Result<u8, CredentialError> =
        credential_part(3, CredentialPart::Certificate, Decoded::Missing);
    assert_eq!(
        taken,
        Err(CredentialError::Load { index: 3, part: CredentialPart::Certificate })
    );
    let taken: Result<u8, CredentialError> =
        credential_part(4, CredentialPart::PrivateKey, Decoded::Malformed);
    assert_eq!(
        taken,
        Err(CredentialError::Parse { index: 4, part: CredentialPart::PrivateKey })
    );
    let taken: Result<PKey<Private>, CredentialError> =
        credential_part(0, CredentialPart::PrivateKey, Decoded::Missing);
    assert_eq!(
        taken.err(),
        Some(CredentialError::Load { index: 0, part: CredentialPart::PrivateKey })
    );
}

#[test]
fn the_entries_of_a_store_keep_their_order() {
    let built = store(CertificateStore::build(&vec![loaded_for("b.test"), loaded_for("a.test")]));
    let names: Vec<&str> = built.entries().iter().map(|e| e.hostname.as_str()).collect();
    assert_eq!(names, vec!["b.test", "a.test"]);
}

#[test]
fn a_store_holds_exactly_the_entries_it_was_made_of() {
    let a = entry("a.test");
    let b = entry("b.test");
    let cert_a = a.certificate.to_pem().unwrap();
    let cert_b = b.certificate.to_pem().unwrap();
    let made = CertificateStore::from_entries(vec![a, b]);
    assert_eq!(made.len(), 2);
    assert_eq!(
        made.lookup("a.test").map(|e| e.certificate.to_pem().unwrap()),
        Some(cert_a)
    );
    assert_eq!(
        made.lookup("b.test").map(|e| e.certificate.to_pem().unwrap()),
        Some(cert_b)
    );
    assert!(made.lookup("c.test").is_none());
    assert_eq!(CertificateStore::from_entries(Vec::new()).len(), 0);
}

#[test]
fn the_store_agrees_with_the_host_table() {
    let hosts = vec![tls_host("somedomain.com"), tls_host("one.one.one.one")];
    let table = ProxyApp::new(plain_host_configs(&hosts)).expect("a table");
    let credentials: Vec<LoadedCredential> = hosts
        .iter()
        .map(|host| {
            let (certificate, key) = credential(&host.proxy_hostname);
            LoadedCredential::new(host, Some(certificate), Some(key))
        })
        .collect();
    assert_eq!(credentials[0].hostname, "somedomain.com");
    assert_eq!(credentials[1].hostname, "one.one.one.one");
    let built = store(CertificateStore::build(&credentials));
    for name in [
        "somedomain.com",
        "one.one.one.one",
        "someotherdomain.com",
        "",
        "ONE.one.one.one",
    ] {
        assert_eq!(
            built.lookup(name).is_some(),
            table.lookup(name).is_some(),
            "{name}"
        );
        if let Some(found) = built.lookup(name) {
            assert_eq!(found.hostname, name);
        }
    }
    assert!(built.lookup("somedomain.com").is_some());
    assert!(built.lookup("someotherdomain.com").is_none());
}

#[test]
fn a_loaded_credential_keeps_what_was_loaded() {
    let host = tls_host("a.test");
    let made = LoadedCredential::new(&host, Some(vec![1, 2, 3]), None);
    assert_eq!(made.hostname, "a.test");
    assert_eq!(made.certificate, Some(vec![1, 2, 3]));
    assert_eq!(made.private_key, None);
}

#[test]
fn building_twice_gives_equal_stores() {
    let credentials = vec![loaded_for("a.test"), loaded_for("b.test"), loaded_for("a.test")];
    let first = store(CertificateStore::build(&credentials));
    let second = store(CertificateStore::build(&credentials));
    assert_eq!(first.len(), second.len());
    for name in ["a.test", "b.test", "c.test"] {
        let a = first.lookup(name);
        let b = second.lookup(name);
        assert_eq!(a.is_some(), b.is_some());
        if let (Some(a), Some(b)) = (a, b) {
            assert_eq!(a.hostname, b.hostname);
            assert_eq!(a.certificate.to_pem().unwrap(), b.certificate.to_pem().unwrap());
            assert_eq!(
                a.private_key.private_key_to_pem_pkcs8().unwrap(),
                b.private_key.private_key_to_pem_pkcs8().unwrap()
            );
        }
    }
    let broken = vec![loaded_for("a.test"), loaded("b.test", Some(b"junk".to_vec()), None)];
    assert_eq!(
        CertificateStore::build(&broken).err(),
        CertificateStore::build(&broken).err()
    );
}

#[test]
fn repeated_resolution_gives_the_same_entry() {
    let (certificate, key) = credential("b.test");
    let built = store(CertificateStore::build(&vec![
        loaded_for("a.test"),
        loaded("b.test", Some(certificate.clone()), Some(key)),
    ]));
    for rounds in [1usize, 10, 1000] {
        for _ in 0..rounds {
            let found = built.resolve(Some("b.test")).expect("the entry");
            assert_eq!(found.hostname, "b.test");
            assert_eq!(found.certificate.to_pem().unwrap(), certificate);
            assert!(built.resolve(Some("z.test")).is_err());
        }
    }
}
