use gldf_sign::core_ops::{
    check_ignore_path, cmd_signgldf, cmd_verifygldf, get_gldf_buf_all, get_meta_information,
    get_property, make_sig_name, sign_entries, verify_entries,
};
use gldf_sign::types::{Archive, Entry, GldfSignError, MetaInformation, Property};

fn keypair() -> (minisign::SecretKey, String) {
    let kp = minisign::KeyPair::generate_unencrypted_keypair().unwrap();
    let pk_b64 = kp.pk.to_base64();
    (kp.sk, pk_b64)
}

fn entry(path: &str, content: &[u8]) -> Entry {
    Entry { path: path.to_string(), content: content.to_vec() }
}

fn hello_world_archive() -> Archive {
    Archive { files: vec![entry("a.txt", b"hello"), entry("b.txt", b"world")] }
}

#[test]
fn round_trip_sign_then_verify() {
    let (sk, pk_b64) = keypair();
    let archive = hello_world_archive();
    let meta = sign_entries(&archive, &sk, &pk_b64, &"tc".to_string(), None).unwrap();
    assert!(verify_entries(&archive, &meta, false).is_ok());
    assert!(verify_entries(&archive, &meta, true).is_ok());
}

#[test]
fn concrete_scenario_properties_and_tamper() {
    let (sk, pk_b64) = keypair();
    let archive = hello_world_archive();
    let meta = sign_entries(&archive, &sk, &pk_b64, &"tc".to_string(), None).unwrap();
    assert_eq!(meta.property.len(), 3);
    assert_eq!(meta.property[0].name, "gldf_rs_file_a.txt");
    assert_eq!(meta.property[1].name, "gldf_rs_file_b.txt");
    assert_eq!(meta.property[2].name, "gldf_rs_file_public_key");
    assert_eq!(meta.property[2].property_text, pk_b64);

    // Each stored signature verifies the matching content under the key.
    let pk = minisign::PublicKey::from_base64(&pk_b64).unwrap();
    let sig_a = minisign::SignatureBox::from_string(&meta.property[0].property_text).unwrap();
    assert!(minisign::verify(&pk, &sig_a, std::io::Cursor::new(b"hello"), true, false, false)
        .is_ok());
    let sig_b = minisign::SignatureBox::from_string(&meta.property[1].property_text).unwrap();
    assert!(minisign::verify(&pk, &sig_b, std::io::Cursor::new(b"world"), true, false, false)
        .is_ok());

    assert!(verify_entries(&archive, &meta, false).is_ok());

    // Changing "hello" to "hellp" fails naming a.txt; b.txt is never reached.
    let tampered = Archive { files: vec![entry("a.txt", b"hellp"), entry("b.txt", b"world")] };
    match verify_entries(&tampered, &meta, false) {
        Err(GldfSignError::VerifyFailed(p)) => assert_eq!(p, "a.txt"),
        _ => panic!("expected a verification failure naming a.txt"),
    }
}

#[test]
fn tamper_detection_second_entry() {
    let (sk, pk_b64) = keypair();
    let archive = hello_world_archive();
    let meta = sign_entries(&archive, &sk, &pk_b64, &"tc".to_string(), None).unwrap();
    let tampered = Archive { files: vec![entry("a.txt", b"hello"), entry("b.txt", b"worle")] };
    match verify_entries(&tampered, &meta, false) {
        Err(GldfSignError::VerifyFailed(p)) => assert_eq!(p, "b.txt"),
        _ => panic!("expected a verification failure naming b.txt"),
    }
}

#[test]
fn exclusion_invariant() {
    let (sk, pk_b64) = keypair();
    let archive = Archive {
        files: vec![
            entry("meta-information.xml", b"<MetaInformation></MetaInformation>"),
            entry("__MACOSX/junk", b"fork"),
            entry("a.txt", b"hello"),
        ],
    };
    let meta = sign_entries(&archive, &sk, &pk_b64, &"tc".to_string(), None).unwrap();
    // Only a.txt got a signature property, plus the public key.
    assert_eq!(meta.property.len(), 2);
    assert_eq!(meta.property[0].name, "gldf_rs_file_a.txt");
    assert!(get_property(&meta, "gldf_rs_file_meta-information.xml").is_none());
    assert!(get_property(&meta, "gldf_rs_file___MACOSX/junk").is_none());
    // Excluded entries are never reported as missing a signature.
    assert!(verify_entries(&archive, &meta, false).is_ok());
}

#[test]
fn replace_not_merge_on_resign() {
    let (sk, pk_b64) = keypair();
    let archive = hello_world_archive();
    let meta = sign_entries(&archive, &sk, &pk_b64, &"tc".to_string(), None).unwrap();
    assert!(get_property(&meta, "gldf_rs_file_b.txt").is_some());

    // Re-sign after removing b.txt: no stale signature for it remains.
    let smaller = Archive { files: vec![entry("a.txt", b"hello")] };
    let meta2 = sign_entries(&smaller, &sk, &pk_b64, &"tc".to_string(), None).unwrap();
    assert_eq!(meta2.property.len(), 2);
    assert!(get_property(&meta2, "gldf_rs_file_b.txt").is_none());
    assert!(get_property(&meta2, "gldf_rs_file_a.txt").is_some());
    assert!(verify_entries(&smaller, &meta2, false).is_ok());
}

#[test]
fn missing_key_is_distinct_from_missing_signature() {
    let archive = Archive { files: vec![entry("a.txt", b"hello")] };
    let meta = MetaInformation {
        property: vec![Property {
            name: "gldf_rs_file_a.txt".to_string(),
            property_text: "unused".to_string(),
        }],
    };
    match verify_entries(&archive, &meta, false) {
        Err(GldfSignError::MissingKey) => {}
        _ => panic!("expected the missing-key error"),
    }
}

#[test]
fn missing_signature_names_the_path() {
    let (sk, pk_b64) = keypair();
    let signed = Archive { files: vec![entry("a.txt", b"hello")] };
    let meta = sign_entries(&signed, &sk, &pk_b64, &"tc".to_string(), None).unwrap();
    let grown = Archive { files: vec![entry("a.txt", b"hello"), entry("new.txt", b"later")] };
    match verify_entries(&grown, &meta, false) {
        Err(GldfSignError::MissingSignature(p)) => assert_eq!(p, "new.txt"),
        _ => panic!("expected a missing-signature error naming new.txt"),
    }
}

#[test]
fn undecodable_key_is_a_decode_error() {
    let archive = Archive { files: vec![entry("a.txt", b"hello")] };
    let meta = MetaInformation {
        property: vec![Property {
            name: "gldf_rs_file_public_key".to_string(),
            property_text: "not a key".to_string(),
        }],
    };
    match verify_entries(&archive, &meta, false) {
        Err(GldfSignError::KeyDecode) => {}
        _ => panic!("expected a key-decode error"),
    }
}

#[test]
fn undecodable_signature_is_a_decode_error() {
    let (_sk, pk_b64) = keypair();
    let archive = Archive { files: vec![entry("a.txt", b"hello")] };
    let meta = MetaInformation {
        property: vec![
            Property {
                name: "gldf_rs_file_a.txt".to_string(),
                property_text: "not a signature".to_string(),
            },
            Property { name: "gldf_rs_file_public_key".to_string(), property_text: pk_b64 },
        ],
    };
    match verify_entries(&archive, &meta, false) {
        Err(GldfSignError::SignatureDecode(p)) => assert_eq!(p, "a.txt"),
        _ => panic!("expected a signature-decode error naming a.txt"),
    }
}

#[test]
fn wrong_key_fails_verification() {
    let (sk, pk_b64) = keypair();
    let (_other_sk, other_pk_b64) = keypair();
    let archive = Archive { files: vec![entry("a.txt", b"hello")] };
    let mut meta = sign_entries(&archive, &sk, &pk_b64, &"tc".to_string(), None).unwrap();
    // Swap the embedded key for another valid one.
    meta.property[1] = Property {
        name: "gldf_rs_file_public_key".to_string(),
        property_text: other_pk_b64,
    };
    match verify_entries(&archive, &meta, false) {
        Err(GldfSignError::VerifyFailed(p)) => assert_eq!(p, "a.txt"),
        _ => panic!("expected a verification failure naming a.txt"),
    }
}

#[test]
fn check_ignore_path_policy() {
    assert!(check_ignore_path(&"meta-information.xml".to_string()));
    assert!(check_ignore_path(&"__MACOSX/resource".to_string()));
    assert!(!check_ignore_path(&"a.txt".to_string()));
    assert!(!check_ignore_path(&"nested/meta-information.xml".to_string()));
    // Only the exact carrier path is reserved; a name that merely starts
    // with it is an ordinary signing target.
    assert!(!check_ignore_path(&"meta-information.xml.bak".to_string()));
}

#[test]
fn carrier_lookalike_is_signed_and_verified() {
    let (sk, pk_b64) = keypair();
    let archive = Archive {
        files: vec![entry("meta-information.xml.bak", b"old"), entry("a.txt", b"hello")],
    };
    let meta = sign_entries(&archive, &sk, &pk_b64, &"tc".to_string(), None).unwrap();
    assert_eq!(meta.property.len(), 3);
    assert!(get_property(&meta, "gldf_rs_file_meta-information.xml.bak").is_some());
    assert!(verify_entries(&archive, &meta, false).is_ok());
}

#[test]
fn truncated_global_signature_is_a_decode_error() {
    let (sk, pk_b64) = keypair();
    let archive = Archive { files: vec![entry("a.txt", b"hello")] };
    let mut meta = sign_entries(&archive, &sk, &pk_b64, &"tc".to_string(), None).unwrap();
    // Replace the fourth line of the stored signature (the global
    // signature) with short base64: the text still parses, but the
    // signature must be rejected as undecodable, not verified.
    let lines: Vec<&str> = meta.property[0].property_text.lines().collect();
    let forged = format!("{}\n{}\n{}\nAAAA\n", lines[0], lines[1], lines[2]);
    meta.property[0].property_text = forged;
    match verify_entries(&archive, &meta, false) {
        Err(GldfSignError::SignatureDecode(p)) => assert_eq!(p, "a.txt"),
        _ => panic!("expected a signature-decode error naming a.txt"),
    }
}

#[test]
fn make_sig_name_prefixes_the_path() {
    assert_eq!(make_sig_name(&"a.txt".to_string()), "gldf_rs_file_a.txt");
    assert_eq!(make_sig_name(&"public_key".to_string()), "gldf_rs_file_public_key");
}

#[test]
fn get_property_is_first_match_wins() {
    let meta = MetaInformation {
        property: vec![
            Property { name: "dup".to_string(), property_text: "first".to_string() },
            Property { name: "dup".to_string(), property_text: "second".to_string() },
        ],
    };
    assert_eq!(get_property(&meta, "dup").unwrap().property_text, "first");
    assert!(get_property(&meta, "absent").is_none());
}

#[test]
fn error_messages_name_the_path() {
    let e = GldfSignError::MissingSignature("a.txt".to_string());
    assert_eq!(e.message(), "can't find signature for a.txt");
    assert_eq!(GldfSignError::MissingKey.message(), "can't find the public key property");
}
