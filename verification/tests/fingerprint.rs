use rtc_agent::fingerprint::{
    build_device_fingerprint_from_material, extract_ioplatform_uuid, normalize_fingerprint_source,
    FingerprintMaterial,
};

#[test]
fn fingerprint_is_stable_across_restart() {
    let first = build_device_fingerprint_from_material(FingerprintMaterial {
        machine_id: Some("ABC-123".into()),
        board_serial: None,
        platform_uuid: None,
        fallback_seed: None,
    });
    let second = build_device_fingerprint_from_material(FingerprintMaterial {
        machine_id: Some("abc-123".into()),
        board_serial: None,
        platform_uuid: None,
        fallback_seed: None,
    });
    assert_eq!(first.device_fingerprint, second.device_fingerprint);
    assert_eq!(first.fingerprint_version, "v1");
}

#[test]
fn fallback_path_is_explicitly_marked() {
    let fingerprint = build_device_fingerprint_from_material(FingerprintMaterial {
        machine_id: None,
        board_serial: None,
        platform_uuid: None,
        fallback_seed: Some("Fallback Seed".into()),
    });
    assert_eq!(fingerprint.fingerprint_version, "v1-fallback");
    assert!(fingerprint.sources.fallback);
}

#[test]
fn normalization_compacts_separators() {
    assert_eq!(normalize_fingerprint_source("  A_B:C  "), "a-b-c");
}

#[test]
fn fingerprint_is_lowercase_hex_sha256_of_labelled_sources() {
    let fingerprint = build_device_fingerprint_from_material(FingerprintMaterial {
        machine_id: Some("abc".into()),
        board_serial: None,
        platform_uuid: None,
        fallback_seed: None,
    });
    // SHA-256 of "machine-id=abc".
    assert_eq!(fingerprint.device_fingerprint.len(), 64);
    assert!(fingerprint.device_fingerprint.chars().all(|c| c.is_ascii_hexdigit() && !c.is_ascii_uppercase()));
    assert_ne!(fingerprint.device_fingerprint, "machine-id=abc");
}

#[test]
fn different_sources_give_different_fingerprints() {
    let a = build_device_fingerprint_from_material(FingerprintMaterial {
        machine_id: Some("one".into()),
        ..Default::default()
    });
    let b = build_device_fingerprint_from_material(FingerprintMaterial {
        machine_id: Some("two".into()),
        ..Default::default()
    });
    assert_ne!(a.device_fingerprint, b.device_fingerprint);
    assert!(a.sources.machine_id);
    assert!(!a.sources.fallback);
}

#[test]
fn ioplatform_uuid_is_read_from_ioreg_output() {
    let output = "+-o Root\n  | \"IOPlatformUUID\" = \"1234-ABCD\"\n  | \"other\" = \"x\"\n";
    assert_eq!(extract_ioplatform_uuid(output), Some("1234-ABCD".into()));
    assert_eq!(extract_ioplatform_uuid("nothing here"), None);
}

#[test]
fn fingerprint_is_the_hex_sha256_of_the_joined_parts() {
    let single = build_device_fingerprint_from_material(FingerprintMaterial {
        machine_id: Some("ABC-123".into()),
        board_serial: None,
        platform_uuid: None,
        fallback_seed: None,
    });
    assert_eq!(
        single.device_fingerprint,
        "6f25d45a232c71a2241210e358646e4e5ad673aa10c4e1407309fb0c32394711"
    );
    let all = build_device_fingerprint_from_material(FingerprintMaterial {
        machine_id: Some("abc".into()),
        board_serial: Some("S_1".into()),
        platform_uuid: Some(" U ".into()),
        fallback_seed: Some("ignored".into()),
    });
    assert_eq!(
        all.device_fingerprint,
        "5b87354d11be394cf3da20beb9218efc4621c2e9338119f6a0bc4119ffdbf707"
    );
}

#[test]
fn normalized_source_is_canonical_and_stable() {
    let once = normalize_fingerprint_source("  --Serial__No.: 00AB--ff--  ");
    assert_eq!(once, "serial-no-00ab-ff");
    assert!(once.chars().all(|c| c.is_ascii_lowercase() || c.is_ascii_digit() || c == '-'));
    assert!(!once.starts_with('-') && !once.ends_with('-') && !once.contains("--"));
    assert_eq!(normalize_fingerprint_source(&once), once);
    assert_eq!(normalize_fingerprint_source("  \t "), "");
}
