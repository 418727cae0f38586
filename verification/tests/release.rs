use rtc_agent::release::{replace_in_text, validate_version, version_file_replacements};

#[test]
fn versions_must_look_like_x_y_z() {
    assert_eq!(validate_version(" 0.3.1 "), Ok(()));
    assert_eq!(validate_version("1.2.3-beta.1"), Ok(()));
    assert_eq!(validate_version("  "), Err("version cannot be empty".to_string()));
    for bad in ["1.2", "1.2.3.4", "1..3", "a.b.c", "1.2.x", "-1.2.3"] {
        assert_eq!(validate_version(bad), Err("version must look like x.y.z".to_string()), "{bad}");
    }
}

#[test]
fn replacement_rewrites_first_occurrence_only() {
    assert_eq!(
        replace_in_text("a=1\nb=1\n", "=1", "=2", "f"),
        Ok("a=2\nb=1\n".to_string())
    );
    assert_eq!(
        replace_in_text("x", "version = \"1\"", "y", "Cargo.toml"),
        Err("expected to find `version = \"1\"` in Cargo.toml while updating version".to_string())
    );
}

#[test]
fn version_change_touches_every_recorded_place() {
    let r = version_file_replacements("0.3.0", "0.3.1");
    assert_eq!(r.len(), 9);
    assert_eq!((r[0].path.as_str(), r[0].from.as_str(), r[0].to.as_str()), ("VERSION", "0.3.0", "0.3.1"));
    assert_eq!(r[1].from, "version = \"0.3.0\"");
    assert_eq!(r[5].to, "Version=\"0.3.1\"");
    assert_eq!(r[6].from, "!define AGENT_VERSION \"0.3.0\"");
    assert_eq!(r[8].to, "\"agentVersion\": \"0.3.1\"");
}
