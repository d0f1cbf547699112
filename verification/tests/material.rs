use hitherhost::material::{fetch_output, file_stem, material_url, CertFile};

#[test]
fn url_for_each_material_kind() {
    assert_eq!(
        material_url(CertFile::Privkey),
        "https://cert.for.hither.host/privkey.pem"
    );
    assert_eq!(
        material_url(CertFile::Fullchain),
        "https://cert.for.hither.host/fullchain.pem"
    );
    assert_eq!(
        material_url(CertFile::Cert),
        "https://cert.for.hither.host/cert.pem"
    );
    assert_eq!(
        material_url(CertFile::Chain),
        "https://cert.for.hither.host/chain.pem"
    );
}

#[test]
fn stem_for_each_material_kind() {
    assert_eq!(file_stem(CertFile::Privkey), "privkey");
    assert_eq!(file_stem(CertFile::Fullchain), "fullchain");
    assert_eq!(file_stem(CertFile::Cert), "cert");
    assert_eq!(file_stem(CertFile::Chain), "chain");
}

#[test]
fn fetch_emits_supplier_bytes_unchanged() {
    let body = vec![45u8, 45, 45, 45, 45, 66, 69, 71, 73, 78, 0, 255, 10];
    let emitted = fetch_output(body.clone());
    assert_eq!(emitted, body);
}

#[test]
fn fetch_emits_empty_payload_unchanged() {
    let emitted = fetch_output(Vec::new());
    assert!(emitted.is_empty());
}
