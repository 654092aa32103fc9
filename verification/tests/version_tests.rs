use upmc::errors::UpdateErrorKind;
use upmc::version::{
    extract_toml_value, local_version_from_json, local_version_or_empty, local_version_to_json,
    needs_version_upgrade, parse_pack_toml_versions, version_tag_for, LocalVersion, RemoteVersion,
    Downloads,
};

fn remote(mc: &str, fabric: &str) -> RemoteVersion {
    RemoteVersion {
        mc_version: mc.to_string(),
        fabric_version: fabric.to_string(),
        version_tag: version_tag_for(mc, fabric),
        pack_url: "https://example.invalid/pack.toml".to_string(),
        downloads: Downloads::none(),
    }
}

fn local(mc: &str, fabric: &str) -> LocalVersion {
    LocalVersion {
        mc_version: mc.to_string(),
        fabric_version: fabric.to_string(),
        version_tag: version_tag_for(mc, fabric),
    }
}

#[test]
fn matching_tags_need_no_upgrade() {
    assert!(!needs_version_upgrade(&remote("1.21.4", "0.16.9"), &local("1.21.4", "0.16.9")));
}

#[test]
fn any_single_differing_tag_triggers_upgrade() {
    assert!(needs_version_upgrade(&remote("1.21.11", "0.16.9"), &local("1.21.4", "0.16.9")));
    assert!(needs_version_upgrade(&remote("1.21.4", "0.18.4"), &local("1.21.4", "0.16.9")));
}

#[test]
fn missing_local_state_always_upgrades() {
    let empty = local_version_or_empty(None);
    assert_eq!(empty.mc_version, "");
    assert!(needs_version_upgrade(&remote("1.21.4", "0.16.9"), &empty));
}

#[test]
fn corrupt_local_state_reads_as_empty() {
    let v = local_version_from_json("{not json");
    assert_eq!(v.mc_version, "");
    let v = local_version_from_json("{\"mc_version\":\"1.0.0\"}");
    // a record missing a field is discarded whole
    assert_eq!(v.mc_version, "");
}

#[test]
fn local_state_round_trips_through_json() {
    let v = local("1.21.11", "0.18.4");
    let text = local_version_to_json(&v);
    let back = local_version_from_json(&text);
    assert_eq!(back.mc_version, "1.21.11");
    assert_eq!(back.fabric_version, "0.18.4");
    assert_eq!(back.version_tag, "fabric-loader-0.18.4-1.21.11");
}

#[test]
fn version_tag_has_the_expected_shape() {
    assert_eq!(version_tag_for("1.21.11", "0.18.4"), "fabric-loader-0.18.4-1.21.11");
}

#[test]
fn pack_toml_versions_are_read_from_the_versions_table() {
    let toml = "\
[pack]\nname = \"x\"\n\n[versions]\nfabric = \"0.18.4\"\nminecraft = \"1.21.11\"\n";
    let (mc, fabric) = parse_pack_toml_versions(toml).expect("parses");
    assert_eq!(mc, "1.21.11");
    assert_eq!(fabric, "0.18.4");
}

#[test]
fn pack_toml_tolerates_comments_and_quote_styles() {
    let toml = "[versions]\nminecraft = '1.21.4' # pinned\nfabric = \"0.16.9\" # loader\n";
    let (mc, fabric) = parse_pack_toml_versions(toml).expect("parses");
    assert_eq!(mc, "1.21.4");
    assert_eq!(fabric, "0.16.9");
}

#[test]
fn pack_toml_section_ends_at_next_heading() {
    let toml = "[versions]\nminecraft = \"1.21.4\"\n[other]\nfabric = \"9.9.9\"\n";
    let err = parse_pack_toml_versions(toml).expect_err("fabric missing");
    assert!(matches!(err.kind, UpdateErrorKind::RemoteDataMalformed));
}

#[test]
fn pack_toml_without_versions_is_malformed() {
    let err = parse_pack_toml_versions("nothing here").expect_err("no versions");
    assert!(matches!(err.kind, UpdateErrorKind::RemoteDataMalformed));
}

#[test]
fn toml_value_extraction_handles_quotes_and_comments() {
    assert_eq!(extract_toml_value("minecraft = \"1.21.4\"", "minecraft"), Some("1.21.4".to_string()));
    assert_eq!(extract_toml_value("minecraft = '1.21.4'", "minecraft"), Some("1.21.4".to_string()));
    assert_eq!(
        extract_toml_value("minecraft = \"1.21.4\" # comment", "minecraft"),
        Some("1.21.4".to_string())
    );
    assert_eq!(extract_toml_value("minecraft = 17 # bare", "minecraft"), Some("17".to_string()));
    assert_eq!(extract_toml_value("minecraftX = \"1\"", "minecraft"), None);
    assert_eq!(extract_toml_value("other = \"1\"", "minecraft"), None);
    assert_eq!(extract_toml_value("  minecraft   =   \"1.21.4\"  ", "minecraft"), Some("1.21.4".to_string()));
}

#[test]
fn json_writer_escapes_special_characters() {
    let v = LocalVersion {
        mc_version: "quote\" back\\ tab\t end".to_string(),
        fabric_version: "line\nbreak".to_string(),
        version_tag: "control\u{1} char".to_string(),
    };
    let text = local_version_to_json(&v);
    // the library's own reader uses a real JSON parser: an exact round
    // trip shows the escaping is correct
    let back = local_version_from_json(&text);
    assert_eq!(back.mc_version, v.mc_version);
    assert_eq!(back.fabric_version, v.fabric_version);
    assert_eq!(back.version_tag, v.version_tag);
}
