use lycan::addon::{Addon, AddonKind};
use lycan::batch::{examine, install, latest, update, Fetched, Finding};
use lycan::failure::Failure;
use lycan::json::{Json, Member};

fn bt_text(text: &str) -> Json {
    Json::Text(String::from(text))
}

fn bt_object(members: Vec<(&str, Json)>) -> Json {
    Json::Object(
        members.into_iter().map(|(key, value)| Member { key: String::from(key), value }).collect(),
    )
}

fn bt_main(version: &str) -> Json {
    bt_object(vec![
        ("name", bt_text("ElvUI")),
        ("version", bt_text(version)),
        ("url", bt_text("https://www.tukui.org/downloads/elvui.zip")),
    ])
}

fn bt_release(tag: &str) -> Json {
    bt_object(vec![
        ("tag_name", bt_text(tag)),
        ("zipball_url", bt_text("https://api.github.com/repos/o/r/zipball")),
    ])
}

fn bt_addon(project: &str, kind: AddonKind, id: u32, version: Option<&str>) -> Addon {
    let mut addon = Addon::new(String::from(project), kind);
    addon.id = id;
    addon.version = version.map(String::from);
    addon
}

fn bt_projects(addons: &Vec<Addon>) -> Vec<String> {
    addons.iter().map(|a| a.project.clone()).collect()
}

fn bt_ids(addons: &Vec<Addon>) -> Vec<u32> {
    addons.iter().map(|a| a.id).collect()
}

#[test]
fn refresh_takes_all_three() {
    let mut addon = bt_addon("elvui", AddonKind::TukuiMain, 4, Some("13.20"));
    addon.dirs = Some(vec![String::from("ElvUI")]);
    assert_eq!(addon.refresh(&bt_main("13.21")), Ok(true));
    assert_eq!(addon.version, Some(String::from("13.21")));
    assert_eq!(addon.name, Some(String::from("ElvUI")));
    assert_eq!(
        addon.download_url,
        Some(String::from("https://www.tukui.org/downloads/elvui.zip"))
    );
    assert_eq!(addon.id, 4);
    assert_eq!(addon.dirs, Some(vec![String::from("ElvUI")]));
    assert_eq!(addon.refresh(&bt_main("13.21")), Ok(false));
}

#[test]
fn refresh_takes_none_where_one_is_missing() {
    let mut addon = bt_addon("elvui", AddonKind::TukuiMain, 4, Some("13.20"));
    let document = bt_object(vec![("name", bt_text("ElvUI")), ("version", bt_text("13.21"))]);
    assert_eq!(addon.refresh(&document), Err(Failure::UnexpectedMetadataShape));
    assert_eq!(addon.version, Some(String::from("13.20")));
    assert_eq!(addon.name, None);
    assert_eq!(addon.download_url, None);
}

#[test]
fn latest_keeps_what_has_metadata() {
    let fetched = vec![
        Fetched {
            addon: bt_addon("o/r", AddonKind::GithubRelease, 0, None),
            document: Some(bt_release("v1")),
        },
        Fetched { addon: bt_addon("o/unreachable", AddonKind::GithubRelease, 0, None), document: None },
        Fetched {
            addon: bt_addon("o/odd", AddonKind::GithubRelease, 0, None),
            document: Some(bt_object(vec![("message", bt_text("Not Found"))])),
        },
        Fetched {
            addon: bt_addon("elvui", AddonKind::TukuiMain, 2, Some("13.21")),
            document: Some(bt_main("13.21")),
        },
    ];
    let addons = latest(&fetched);
    assert_eq!(bt_projects(&addons), vec!["o/r", "elvui"]);
    assert_eq!(addons[0].version, Some(String::from("v1")));
    assert_eq!(addons[0].name, Some(String::from("r")));
    assert_eq!(
        addons[0].download_url,
        Some(String::from("https://api.github.com/repos/o/r/zipball"))
    );
    assert_eq!(addons[1].version, Some(String::from("13.21")));
    assert_eq!(addons[1].id, 2);
    assert!(latest(&Vec::new()).is_empty());
}

#[test]
fn update_keeps_what_has_a_new_version() {
    let fetched = vec![
        Fetched {
            addon: bt_addon("o/same", AddonKind::GithubRelease, 1, Some("v1")),
            document: Some(bt_release("v1")),
        },
        Fetched {
            addon: bt_addon("o/newer", AddonKind::GithubRelease, 2, Some("v1")),
            document: Some(bt_release("v2")),
        },
        Fetched {
            addon: bt_addon("o/unversioned", AddonKind::GithubRelease, 3, None),
            document: Some(bt_release("v1")),
        },
        Fetched { addon: bt_addon("o/unreachable", AddonKind::GithubRelease, 4, Some("v1")), document: None },
        Fetched {
            addon: bt_addon("o/odd", AddonKind::GithubRelease, 5, Some("v1")),
            document: Some(Json::Null),
        },
    ];
    let addons = update(&fetched);
    assert_eq!(bt_projects(&addons), vec!["o/newer", "o/unversioned"]);
    assert_eq!(bt_ids(&addons), vec![2, 3]);
    assert_eq!(addons[0].version, Some(String::from("v2")));
    assert_eq!(addons[1].version, Some(String::from("v1")));
}

#[test]
fn update_without_new_versions_keeps_the_registry() {
    let registry = vec![
        bt_addon("o/a", AddonKind::GithubRelease, 1, Some("v1")),
        bt_addon("elvui", AddonKind::TukuiMain, 2, Some("13.21")),
        bt_addon("o/c", AddonKind::GithubRelease, 3, Some("v7")),
    ];
    let fetched = vec![
        Fetched { addon: registry[0].clone(), document: Some(bt_release("v1")) },
        Fetched { addon: registry[1].clone(), document: Some(bt_main("13.21")) },
        Fetched { addon: registry[2].clone(), document: None },
    ];
    let changed = update(&fetched);
    assert!(changed.is_empty());
    let merged = install(changed, &Vec::new(), registry.clone());
    assert_eq!(merged.len(), 3);
    for (new, old) in merged.iter().zip(registry.iter()) {
        assert_eq!(new.project, old.project);
        assert_eq!(new.version, old.version);
        assert_eq!(new.name, old.name);
        assert_eq!(new.kind, old.kind);
        assert_eq!(new.id, old.id);
        assert_eq!(new.dirs, old.dirs);
    }
}

#[test]
fn new_addon_fills_the_gap_in_the_numbers() {
    let registry = vec![
        bt_addon("o/one", AddonKind::GithubRelease, 1, Some("v1")),
        bt_addon("o/three", AddonKind::GithubRelease, 3, Some("v1")),
    ];
    let batch = vec![bt_addon("o/new", AddonKind::GithubRelease, 0, Some("v1"))];
    let merged = install(batch, &Vec::new(), registry);
    assert_eq!(bt_projects(&merged), vec!["o/new", "o/one", "o/three"]);
    assert_eq!(bt_ids(&merged), vec![2, 1, 3]);
}

#[test]
fn new_addons_of_a_batch_get_numbers_of_their_own() {
    let registry = vec![
        bt_addon("o/two", AddonKind::GithubRelease, 2, Some("v1")),
        bt_addon("o/five", AddonKind::GithubRelease, 5, Some("v1")),
    ];
    let batch = vec![
        bt_addon("o/a", AddonKind::GithubRelease, 0, Some("v1")),
        bt_addon("o/five", AddonKind::GithubRelease, 5, Some("v2")),
        bt_addon("o/b", AddonKind::GithubRelease, 0, Some("v1")),
        bt_addon("o/c", AddonKind::GithubRelease, 0, Some("v1")),
    ];
    let merged = install(batch, &Vec::new(), registry);
    assert_eq!(bt_projects(&merged), vec!["o/a", "o/five", "o/b", "o/c", "o/two"]);
    assert_eq!(bt_ids(&merged), vec![1, 5, 3, 4, 2]);
    assert_eq!(merged[1].version, Some(String::from("v2")));
}

#[test]
fn replaced_entry_is_not_carried_over() {
    let mut old = bt_addon("o/r", AddonKind::GithubRelease, 7, Some("v1"));
    old.dirs = Some(vec![String::from("Old")]);
    let mut new = bt_addon("o/r", AddonKind::GithubRelease, 7, Some("v2"));
    new.dirs = Some(vec![String::from("New")]);
    let merged = install(vec![new], &Vec::new(), vec![old]);
    assert_eq!(merged.len(), 1);
    assert_eq!(merged[0].id, 7);
    assert_eq!(merged[0].version, Some(String::from("v2")));
    assert_eq!(merged[0].dirs, Some(vec![String::from("New")]));
}

#[test]
fn failed_addon_leaves_the_registry() {
    let registry = vec![
        bt_addon("o/kept", AddonKind::GithubRelease, 1, Some("v1")),
        bt_addon("o/broken", AddonKind::GithubRelease, 2, Some("v1")),
    ];
    let failed = vec![
        bt_addon("o/broken", AddonKind::GithubRelease, 2, Some("v2")),
        bt_addon("o/never", AddonKind::GithubRelease, 0, Some("v1")),
    ];
    let merged = install(Vec::new(), &failed, registry);
    assert_eq!(bt_projects(&merged), vec!["o/kept"]);
    assert_eq!(bt_ids(&merged), vec![1]);
}

#[test]
fn first_installation_starts_the_registry() {
    let batch = vec![
        bt_addon("o/a", AddonKind::GithubRelease, 0, Some("v1")),
        bt_addon("o/b", AddonKind::GithubRelease, 0, Some("v1")),
    ];
    let merged = install(batch, &Vec::new(), Vec::new());
    assert_eq!(bt_projects(&merged), vec!["o/a", "o/b"]);
    assert_eq!(bt_ids(&merged), vec![1, 2]);
    assert!(install(Vec::new(), &Vec::new(), Vec::new()).is_empty());
}

#[test]
fn is_in_goes_by_the_project() {
    let batch = vec![
        bt_addon("o/a", AddonKind::GithubRelease, 0, None),
        bt_addon("o/b", AddonKind::Gitlab, 0, None),
    ];
    assert!(bt_addon("o/b", AddonKind::GithubRelease, 9, Some("v1")).is_in(&batch));
    assert!(!bt_addon("o/c", AddonKind::GithubRelease, 0, None).is_in(&batch));
    assert!(!bt_addon("o/a", AddonKind::GithubRelease, 0, None).is_in(&Vec::new()));
}

#[test]
fn finding_tells_unchanged_from_failed() {
    let same = Fetched {
        addon: bt_addon("o/same", AddonKind::GithubRelease, 1, Some("v1")),
        document: Some(bt_release("v1")),
    };
    assert_eq!(examine(&same, true), Finding::Unchanged);
    assert_eq!(examine(&same, false), Finding::Kept);
    let newer = Fetched {
        addon: bt_addon("o/newer", AddonKind::GithubRelease, 2, Some("v1")),
        document: Some(bt_release("v2")),
    };
    assert_eq!(examine(&newer, true), Finding::Kept);
    assert_eq!(examine(&newer, false), Finding::Kept);
    let unreachable = Fetched {
        addon: bt_addon("o/unreachable", AddonKind::GithubRelease, 3, Some("v1")),
        document: None,
    };
    assert_eq!(examine(&unreachable, true), Finding::Failed(Failure::UnreachableOrMalformedResponse));
    assert_eq!(examine(&unreachable, false), Finding::Failed(Failure::UnreachableOrMalformedResponse));
    let odd = Fetched {
        addon: bt_addon("o/odd", AddonKind::GithubRelease, 4, Some("v1")),
        document: Some(bt_object(vec![("message", bt_text("Not Found"))])),
    };
    assert_eq!(examine(&odd, true), Finding::Failed(Failure::UnexpectedMetadataShape));
    assert_eq!(examine(&odd, false), Finding::Failed(Failure::UnexpectedMetadataShape));
}
