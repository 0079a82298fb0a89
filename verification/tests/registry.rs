use lycan::addon::{Addon, AddonKind};
use lycan::failure::Failure;
use lycan::json::{Json, Member};
use lycan::registry::{addon_from_json, addon_to_json, kind_from_json, kind_to_json, read_addons, write_addons};

fn rg_text(text: &str) -> Json {
    Json::Text(String::from(text))
}

fn rg_number(digits: &str) -> Json {
    Json::Number(String::from(digits))
}

fn rg_object(members: Vec<(&str, Json)>) -> Json {
    Json::Object(
        members.into_iter().map(|(key, value)| Member { key: String::from(key), value }).collect(),
    )
}

fn rg_full() -> Addon {
    let mut addon = Addon::new(
        String::from("Tercioo/Plater-Nameplates"),
        AddonKind::GithubRepo { branch: String::from("master") },
    );
    addon.version = Some(String::from("0a1b2c3d"));
    addon.name = Some(String::from("Plater-Nameplates"));
    addon.id = 12;
    addon.dirs = Some(vec![String::from("Plater"), String::from("Plater_Options")]);
    addon.download_url = Some(String::from("https://www.github.com/x.zip"));
    addon.filename = Some(String::from("x.zip"));
    addon
}

fn rg_same_but_download(read: &Addon, written: &Addon) {
    assert_eq!(read.project, written.project);
    assert_eq!(read.version, written.version);
    assert_eq!(read.name, written.name);
    assert_eq!(read.kind, written.kind);
    assert_eq!(read.id, written.id);
    assert_eq!(read.dirs, written.dirs);
    assert_eq!(read.download_url, None);
    assert_eq!(read.filename, None);
}

fn rg_to_value(document: &Json) -> serde_json::Value {
    match document {
        Json::Null => serde_json::Value::Null,
        Json::Bool(b) => serde_json::Value::Bool(*b),
        Json::Number(digits) => serde_json::Value::Number(digits.parse().unwrap()),
        Json::Text(text) => serde_json::Value::String(text.clone()),
        Json::Array(items) => serde_json::Value::Array(items.iter().map(rg_to_value).collect()),
        Json::Object(members) => serde_json::Value::Object(
            members.iter().map(|m| (m.key.clone(), rg_to_value(&m.value))).collect(),
        ),
    }
}

fn rg_from_value(value: &serde_json::Value) -> Json {
    match value {
        serde_json::Value::Null => Json::Null,
        serde_json::Value::Bool(b) => Json::Bool(*b),
        serde_json::Value::Number(n) => Json::Number(n.to_string()),
        serde_json::Value::String(text) => Json::Text(text.clone()),
        serde_json::Value::Array(items) => Json::Array(items.iter().map(rg_from_value).collect()),
        serde_json::Value::Object(members) => Json::Object(
            members
                .iter()
                .map(|(key, value)| Member { key: key.clone(), value: rg_from_value(value) })
                .collect(),
        ),
    }
}

fn rg_parse(text: &str) -> Json {
    rg_from_value(&serde_json::from_str::<serde_json::Value>(text).unwrap())
}

#[test]
fn addon_is_written_with_its_members() {
    assert_eq!(
        addon_to_json(&rg_full()),
        rg_object(vec![
            ("project", rg_text("Tercioo/Plater-Nameplates")),
            ("version", rg_text("0a1b2c3d")),
            ("name", rg_text("Plater-Nameplates")),
            ("kind", rg_object(vec![("GithubRepo", rg_object(vec![("branch", rg_text("master"))]))])),
            ("id", rg_number("12")),
            ("dirs", Json::Array(vec![rg_text("Plater"), rg_text("Plater_Options")])),
        ])
    );
}

#[test]
fn addon_is_written_without_what_it_lacks() {
    let addon = Addon::new(String::from("elvui"), AddonKind::TukuiMain);
    assert_eq!(
        addon_to_json(&addon),
        rg_object(vec![
            ("project", rg_text("elvui")),
            ("kind", rg_text("TukuiMain")),
            ("id", rg_number("0")),
        ])
    );
}

#[test]
fn kinds_are_written_by_name() {
    assert_eq!(kind_to_json(&AddonKind::GithubRelease), rg_text("GithubRelease"));
    assert_eq!(kind_to_json(&AddonKind::TukuiMain), rg_text("TukuiMain"));
    assert_eq!(kind_to_json(&AddonKind::TukuiAddon), rg_text("TukuiAddon"));
    assert_eq!(kind_to_json(&AddonKind::Gitlab), rg_text("Gitlab"));
    assert_eq!(kind_to_json(&AddonKind::WowInt), rg_text("WowInt"));
    assert_eq!(
        kind_to_json(&AddonKind::GithubRepo { branch: String::from("dev") }),
        rg_object(vec![("GithubRepo", rg_object(vec![("branch", rg_text("dev"))]))])
    );
}

#[test]
fn kinds_are_read_again() {
    for kind in [
        AddonKind::GithubRelease,
        AddonKind::GithubRepo { branch: String::from("feature/x") },
        AddonKind::GithubRepo { branch: String::new() },
        AddonKind::TukuiMain,
        AddonKind::TukuiAddon,
        AddonKind::Gitlab,
        AddonKind::WowInt,
    ] {
        assert_eq!(kind_from_json(&kind_to_json(&kind)), Some(kind));
    }
}

#[test]
fn unknown_kinds_are_refused() {
    assert_eq!(kind_from_json(&rg_text("Curse")), None);
    assert_eq!(kind_from_json(&rg_text("githubrelease")), None);
    assert_eq!(kind_from_json(&rg_text("GithubRepo")), None);
    assert_eq!(kind_from_json(&rg_text("")), None);
    assert_eq!(kind_from_json(&Json::Null), None);
    assert_eq!(kind_from_json(&rg_object(Vec::new())), None);
    assert_eq!(kind_from_json(&rg_object(vec![("GithubRepo", rg_text("master"))])), None);
    assert_eq!(kind_from_json(&rg_object(vec![("GithubRepo", rg_object(Vec::new()))])), None);
    assert_eq!(
        kind_from_json(&rg_object(vec![("Gitlab", rg_object(vec![("branch", rg_text("x"))]))])),
        None
    );
}

#[test]
fn registry_is_read_again_as_it_was_written() {
    let mut second = Addon::new(String::from("209"), AddonKind::TukuiAddon);
    second.id = 1;
    second.dirs = Some(Vec::new());
    let mut third = Addon::new(String::from("o/r"), AddonKind::GithubRelease);
    third.id = u32::MAX;
    third.version = Some(String::new());
    third.filename = Some(String::from("r.zip"));
    let registry = vec![rg_full(), second, third];
    let read = read_addons(Some(&write_addons(&registry))).unwrap();
    assert_eq!(read.len(), 3);
    for (read, written) in read.iter().zip(registry.iter()) {
        rg_same_but_download(read, written);
    }
}

#[test]
fn registry_is_read_again_from_its_text() {
    let mut second = Addon::new(String::from("siebens/legacy/autoactioncam"), AddonKind::Gitlab);
    second.id = 2;
    second.name = Some(String::from("auto \"action\" cam\n"));
    let registry = vec![rg_full(), second];
    let text = serde_json::to_string_pretty(&rg_to_value(&write_addons(&registry))).unwrap();
    let read = read_addons(Some(&rg_parse(&text))).unwrap();
    assert_eq!(read.len(), 2);
    for (read, written) in read.iter().zip(registry.iter()) {
        rg_same_but_download(read, written);
    }
}

#[test]
fn written_download_is_not_read() {
    let text = "[{\"project\": \"o/r\", \"kind\": \"GithubRelease\", \"id\": 3,
        \"download_url\": \"https://example.com/a.zip\", \"filename\": \"a.zip\", \"extra\": [1.5, -2]}]";
    let read = read_addons(Some(&rg_parse(text))).unwrap();
    assert_eq!(read.len(), 1);
    assert_eq!(read[0].project, "o/r");
    assert_eq!(read[0].kind, AddonKind::GithubRelease);
    assert_eq!(read[0].id, 3);
    assert_eq!(read[0].download_url, None);
    assert_eq!(read[0].filename, None);
}

#[test]
fn null_members_are_read_as_missing() {
    let text = "[{\"project\": \"o/r\", \"version\": null, \"name\": null,
        \"kind\": {\"GithubRepo\": {\"branch\": \"main\"}}, \"id\": 1, \"dirs\": null}]";
    let read = read_addons(Some(&rg_parse(text))).unwrap();
    assert_eq!(read.len(), 1);
    assert_eq!(read[0].version, None);
    assert_eq!(read[0].name, None);
    assert_eq!(read[0].dirs, None);
    assert_eq!(read[0].kind, AddonKind::GithubRepo { branch: String::from("main") });
}

#[test]
fn missing_store_is_an_empty_registry() {
    assert_eq!(read_addons(None).map(|registry| registry.len()), Ok(0));
    assert_eq!(read_addons(Some(&Json::Array(Vec::new()))).map(|registry| registry.len()), Ok(0));
    assert_eq!(write_addons(&Vec::new()), Json::Array(Vec::new()));
}

#[test]
fn document_that_is_no_registry_is_refused() {
    let good = rg_object(vec![
        ("project", rg_text("o/r")),
        ("kind", rg_text("GithubRelease")),
        ("id", rg_number("1")),
    ]);
    assert!(addon_from_json(&good).is_some());
    for document in [
        Json::Null,
        rg_text("[]"),
        rg_object(Vec::new()),
        rg_object(vec![("project", rg_text("o/r"))]),
        Json::Array(vec![Json::Null]),
        Json::Array(vec![rg_object(Vec::new())]),
        Json::Array(vec![
            rg_object(vec![
                ("project", rg_text("o/r")),
                ("kind", rg_text("GithubRelease")),
                ("id", rg_number("1")),
            ]),
            rg_text("odd"),
        ]),
    ] {
        assert_eq!(read_addons(Some(&document)).map(|r| r.len()), Err(Failure::MalformedRegistry));
    }
}

#[test]
fn addon_with_a_wrong_member_is_refused() {
    let members = |replace: &str, with: Option<Json>| {
        let mut all = vec![
            ("project", rg_text("o/r")),
            ("version", rg_text("1")),
            ("name", rg_text("r")),
            ("kind", rg_text("GithubRelease")),
            ("id", rg_number("1")),
            ("dirs", Json::Array(vec![rg_text("R")])),
        ];
        all.retain(|(key, _)| *key != replace);
        if let Some(value) = with {
            all.push((replace, value));
        }
        rg_object(all)
    };
    assert!(addon_from_json(&members("none", None)).is_some());
    assert!(addon_from_json(&members("version", None)).is_some());
    assert!(addon_from_json(&members("name", None)).is_some());
    assert!(addon_from_json(&members("dirs", None)).is_some());
    assert!(addon_from_json(&members("project", None)).is_none());
    assert!(addon_from_json(&members("kind", None)).is_none());
    assert!(addon_from_json(&members("id", None)).is_none());
    assert!(addon_from_json(&members("project", Some(Json::Null))).is_none());
    assert!(addon_from_json(&members("project", Some(rg_number("1")))).is_none());
    assert!(addon_from_json(&members("version", Some(rg_number("1")))).is_none());
    assert!(addon_from_json(&members("name", Some(Json::Bool(true)))).is_none());
    assert!(addon_from_json(&members("kind", Some(rg_text("Unknown")))).is_none());
    assert!(addon_from_json(&members("id", Some(rg_text("1")))).is_none());
    assert!(addon_from_json(&members("id", Some(rg_number("-1")))).is_none());
    assert!(addon_from_json(&members("id", Some(rg_number("1.5")))).is_none());
    assert!(addon_from_json(&members("id", Some(rg_number("4294967296")))).is_none());
    assert!(addon_from_json(&members("id", Some(Json::Null))).is_none());
    assert!(addon_from_json(&members("dirs", Some(rg_text("R")))).is_none());
    assert!(addon_from_json(&members("dirs", Some(Json::Array(vec![rg_number("1")])))).is_none());
    assert!(addon_from_json(&members("dirs", Some(Json::Array(vec![rg_text("a"), Json::Null]))))
        .is_none());
}
