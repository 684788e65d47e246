use gldf_sign::core_ops::{
    cmd_signgldf, cmd_verifygldf, get_gldf_buf_all, get_meta_information, get_property,
};
use gldf_sign::types::{Archive, Entry, GldfSignError};
use std::io::Write;

fn keypair() -> (minisign::SecretKey, String) {
    let kp = minisign::KeyPair::generate_unencrypted_keypair().unwrap();
    let pk_b64 = kp.pk.to_base64();
    (kp.sk, pk_b64)
}

fn entry(path: &str, content: &[u8]) -> Entry {
    Entry { path: path.to_string(), content: content.to_vec() }
}

fn product_archive() -> Archive {
    let product_xml = gldf_rs::GldfProduct::default().to_xml().unwrap();
    Archive {
        files: vec![
            entry("product.xml", product_xml.as_bytes()),
            entry("a.txt", b"hello"),
            entry("b.txt", b"world"),
        ],
    }
}

#[test]
fn container_sign_then_verify_bytes() {
    let (sk, pk_b64) = keypair();
    let archive = product_archive();
    let (meta, bytes) = cmd_signgldf(&archive, &sk, &pk_b64, None, None, &"tc".to_string())
        .unwrap();
    // product.xml, a.txt and b.txt each got a signature, plus the key.
    assert_eq!(meta.property.len(), 4);
    assert!(cmd_verifygldf(&bytes, false).is_ok());
    assert!(cmd_verifygldf(&bytes, true).is_ok());
}

#[test]
fn container_round_trip_preserves_entries() {
    let (sk, pk_b64) = keypair();
    let archive = product_archive();
    let (_meta, bytes) = cmd_signgldf(&archive, &sk, &pk_b64, None, None, &"tc".to_string())
        .unwrap();
    let reloaded = get_gldf_buf_all(&bytes).unwrap();
    // The new metadata carrier comes first, then every original entry.
    assert_eq!(reloaded.files.len(), 4);
    assert_eq!(reloaded.files[0].path, "meta-information.xml");
    assert_eq!(reloaded.files[1].path, "product.xml");
    assert_eq!(reloaded.files[2].path, "a.txt");
    assert_eq!(reloaded.files[2].content, b"hello");
    assert_eq!(reloaded.files[3].path, "b.txt");
    assert_eq!(reloaded.files[3].content, b"world");
    let meta2 = get_meta_information(&reloaded).unwrap();
    assert!(get_property(&meta2, "gldf_rs_file_public_key").is_some());
}

#[test]
fn container_tamper_is_detected_from_bytes() {
    let (sk, pk_b64) = keypair();
    let archive = product_archive();
    let (_meta, bytes) = cmd_signgldf(&archive, &sk, &pk_b64, None, None, &"tc".to_string())
        .unwrap();
    // Rebuild the container with a.txt flipped, reusing the signed metadata.
    let reloaded = get_gldf_buf_all(&bytes).unwrap();
    let mut tampered = Archive { files: Vec::new() };
    for e in reloaded.files {
        if e.path == "a.txt" {
            tampered.files.push(entry("a.txt", b"hellp"));
        } else {
            tampered.files.push(e);
        }
    }
    let tampered_bytes = rebuild_zip(&tampered);
    match cmd_verifygldf(&tampered_bytes, false) {
        Err(GldfSignError::VerifyFailed(p)) => assert_eq!(p, "a.txt"),
        _ => panic!("expected a verification failure naming a.txt"),
    }
}

fn rebuild_zip(archive: &Archive) -> Vec<u8> {
    let mut w = zip::ZipWriter::new(std::io::Cursor::new(Vec::new()));
    let options = zip::write::SimpleFileOptions::default()
        .compression_method(zip::CompressionMethod::Stored);
    for e in &archive.files {
        w.start_file(e.path.as_str(), options).unwrap();
        w.write_all(&e.content).unwrap();
    }
    w.finish().unwrap().into_inner()
}

#[test]
fn garbage_bytes_are_an_archive_load_error() {
    match cmd_verifygldf(&b"not a container".to_vec(), false) {
        Err(GldfSignError::ArchiveLoad) => {}
        _ => panic!("expected an archive-load error"),
    }
}

#[test]
fn container_without_metadata_is_missing_meta() {
    let archive = Archive { files: vec![entry("a.txt", b"hello")] };
    match get_meta_information(&archive) {
        Err(GldfSignError::MissingMeta) => {}
        _ => panic!("expected a missing-metadata error"),
    }
    // The same through raw bytes: a container with product.xml but no
    // metadata carrier.
    let product_xml = gldf_rs::GldfProduct::default().to_xml().unwrap();
    let bare = Archive {
        files: vec![entry("product.xml", product_xml.as_bytes()), entry("a.txt", b"hello")],
    };
    match cmd_verifygldf(&rebuild_zip(&bare), false) {
        Err(GldfSignError::MissingMeta) => {}
        _ => panic!("expected a missing-metadata error"),
    }
}
