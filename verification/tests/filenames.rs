use trace::filename::{format_export_filename, with_extension};
use trace::{ExportOutputFormat, RoomWithCachedInfo};

fn room(id: &str, name: Option<&str>, alias: Option<&str>) -> RoomWithCachedInfo {
    RoomWithCachedInfo {
        id: String::from(id),
        name: name.map(String::from),
        canonical_alias: alias.map(String::from),
        alt_aliases: Vec::new(),
    }
}

#[test]
fn stem_with_name_and_alias() {
    let team = room("!abc123:example.org", Some("Team"), Some("#team:example.org"));
    assert!(team.is_well_formed());
    assert_eq!(format_export_filename(&team), "Team [team, abc123, example.org]");
}

#[test]
fn stem_with_name_only() {
    let team = room("!abc123:example.org", Some("Team"), None);
    assert_eq!(format_export_filename(&team), "Team [abc123, example.org]");
}

#[test]
fn stem_with_alias_only() {
    let team = room("!abc123:example.org", None, Some("#team:example.org"));
    assert_eq!(format_export_filename(&team), "team [abc123, example.org]");
}

#[test]
fn stem_with_neither() {
    let team = room("!abc123:example.org", None, None);
    assert_eq!(format_export_filename(&team), "abc123 [example.org]");
}

#[test]
fn server_name_keeps_its_port() {
    let team = room("!abc123:example.org:8448", None, Some("#team:other.org:443"));
    assert!(team.is_well_formed());
    assert_eq!(format_export_filename(&team), "team [abc123, example.org:8448]");
}

#[test]
fn stem_beyond_ascii() {
    let cafe = room("!\u{e9}t\u{e9}:example.org", Some("Caf\u{e9}"), None);
    assert_eq!(format_export_filename(&cafe), "Caf\u{e9} [\u{e9}t\u{e9}, example.org]");
}

#[test]
fn rooms_without_qualified_identifiers_are_told_apart() {
    assert!(!room("abc123:example.org", None, None).is_well_formed());
    assert!(!room("!abc123", None, None).is_well_formed());
    assert!(!room("", None, None).is_well_formed());
    assert!(!room("!abc123:example.org", None, Some("team:example.org")).is_well_formed());
    assert!(!room("!abc123:example.org", None, Some("#team")).is_well_formed());
    assert!(room("!:", None, Some("#:")).is_well_formed());
}

#[test]
fn extensions_tell_the_formats_apart() {
    assert_eq!(with_extension("Team [abc123, example.org]", ExportOutputFormat::Json), "Team [abc123, example.org].json");
    assert_eq!(with_extension("Team [abc123, example.org]", ExportOutputFormat::Txt), "Team [abc123, example.org].txt");
}
