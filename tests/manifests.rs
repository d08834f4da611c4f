use mc_launcher::manifest::{listing_manifest, maven_manifest, vanilla_manifest, ListingRow, Manifest, Tag, VanillaEntry, Version};

fn entry(id: &str) -> Version {
    Version { id: id.to_string(), url: format!("http://h/{}.json", id), tags: Vec::new() }
}

fn tag_ids(tags: &[Tag]) -> Vec<String> {
    tags.iter().map(|t| t.id.clone()).collect()
}

#[test]
fn get_finds_entry_by_id() {
    let m = Manifest { tags: Vec::new(), versions: vec![entry("1.0"), entry("1.1")] };
    assert_eq!(m.get("1.1").unwrap().url, "http://h/1.1.json");
    assert!(m.get("2.0").is_none());
}

#[test]
fn get_returns_first_of_equal_ids() {
    let mut second = entry("1.0");
    second.url = "other".to_string();
    let m = Manifest { tags: Vec::new(), versions: vec![entry("1.0"), second] };
    assert_eq!(m.get("1.0").unwrap().url, "http://h/1.0.json");
}

#[test]
fn get_on_empty_manifest() {
    let m = Manifest { tags: Vec::new(), versions: Vec::new() };
    assert!(m.get("").is_none());
    assert_eq!(m.find("1.0").err(), Some(mc_launcher::error::Error::NotFound));
}

fn ve(id: &str, kind: &str) -> VanillaEntry {
    VanillaEntry { id: id.to_string(), url: format!("http://h/{}.json", id), kind: kind.to_string() }
}

#[test]
fn vanilla_entries_are_tagged() {
    let entries = vec![ve("20w14a", "snapshot"), ve("1.15.2", "release"), ve("1.15.1", "release"), ve("b1.7", "old_beta"), ve("x", "custom")];
    let m = vanilla_manifest("1.15.2", "20w14a", &entries);
    assert_eq!(m.versions.len(), 5);
    assert_eq!(tag_ids(&m.versions[0].tags), vec!["snapshot", "latest"]);
    assert_eq!(tag_ids(&m.versions[1].tags), vec!["release", "latest"]);
    assert_eq!(tag_ids(&m.versions[2].tags), vec!["release"]);
    assert_eq!(m.versions[3].tags[0].name, "Beta");
    assert!(m.versions[3].tags[0].filter);
    assert_eq!(m.versions[4].tags[0].name, "custom");
    assert_eq!(m.versions[1].tags[1].name, "Latest");
    assert!(!m.versions[1].tags[1].filter);
    assert_eq!(tag_ids(&m.tags), vec!["latest", "snapshot", "release", "old_beta", "custom"]);
}

#[test]
fn maven_builds_take_last_piece() {
    let m = maven_manifest(&vec!["1.12.2-14.23.5.2860".to_string(), "1.7.10-10.13.4.1614-1.7.10".to_string()]);
    assert_eq!(m.versions[0].id, "14.23.5.2860");
    assert_eq!(m.versions[1].id, "1.7.10");
    assert_eq!(
        m.versions[0].url,
        "https://maven.minecraftforge.net/net/minecraftforge/forge/1.12.2-14.23.5.2860/forge-1.12.2-14.23.5.2860-installer.jar"
    );
    assert!(m.tags.is_empty());
    assert!(m.versions[0].tags.is_empty());
}

#[test]
fn listing_keeps_installer_links() {
    let rows = vec![
        ListingRow {
            id: "14.23.5.2860".to_string(),
            recommended: false,
            links: vec![Some("http://h/a-installer.jar".to_string()), Some("http://h/a-universal.jar".to_string()), None],
        },
        ListingRow { id: "14.23.5.2859".to_string(), recommended: true, links: vec![Some("http://h/b-installer.jar".to_string())] },
    ];
    let m = listing_manifest(&rows);
    assert_eq!(tag_ids(&m.tags), vec!["latest", "recommended"]);
    assert_eq!(m.versions.len(), 2);
    assert_eq!(m.versions[0].id, "14.23.5.2860");
    assert_eq!(m.versions[0].url, "http://h/a-installer.jar");
    assert_eq!(tag_ids(&m.versions[0].tags), vec!["latest"]);
    assert_eq!(tag_ids(&m.versions[1].tags), vec!["recommended"]);
}
