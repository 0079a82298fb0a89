use lycan::addon::{Addon, AddonKind};
use lycan::config::Config;
use lycan::discover::Discovery;
use lycan::failure::Failure;
use lycan::install::Step;

fn in_names(names: Vec<&str>) -> Vec<String> {
    names.into_iter().map(String::from).collect()
}

fn in_config() -> Config {
    Config {
        addon_dir: String::from("/games/wow/Interface/AddOns"),
        addon_json: String::from("/home/user/.config/addons.json"),
    }
}

fn in_found() -> Discovery {
    Discovery {
        parent: in_names(vec!["Addon-2.0"]),
        found: String::from("Addon-classic"),
        renamed: String::from("Addon"),
        dirs: in_names(vec!["Addon", "Addon_Options"]),
    }
}

#[test]
fn replacing_keeps_the_number_and_removes_before_it_moves() {
    let mut old = Addon::new(String::from("o/r"), AddonKind::GithubRelease);
    old.id = 7;
    old.version = Some(String::from("1.0"));
    old.dirs = Some(in_names(vec!["Addon", "Addon_Old"]));
    let mut other = Addon::new(String::from("o/other"), AddonKind::GithubRelease);
    other.id = 1;
    other.dirs = Some(in_names(vec!["Other"]));
    let registry = vec![other, old];
    let mut new = Addon::new(String::from("o/r"), AddonKind::GithubRelease);
    new.version = Some(String::from("2.0"));
    let root = String::from("/games/wow/Interface/AddOns");
    let steps = new.install(&in_config(), &registry, &in_found());
    assert_eq!(new.id, 7);
    assert_eq!(new.dirs, Some(in_names(vec!["Addon", "Addon_Options"])));
    assert_eq!(new.version, Some(String::from("2.0")));
    assert_eq!(
        steps,
        vec![
            Step::Remove { root: root.clone(), dir: String::from("Addon") },
            Step::Remove { root: root.clone(), dir: String::from("Addon_Old") },
            Step::Rename {
                parent: in_names(vec!["Addon-2.0"]),
                from: String::from("Addon-classic"),
                to: String::from("Addon"),
            },
            Step::Move {
                parent: in_names(vec!["Addon-2.0"]),
                dir: String::from("Addon"),
                root: root.clone(),
            },
            Step::Move {
                parent: in_names(vec!["Addon-2.0"]),
                dir: String::from("Addon_Options"),
                root: root.clone(),
            },
        ]
    );
    let last_removal = steps.iter().rposition(|s| matches!(s, Step::Remove { .. })).unwrap();
    let first_move = steps.iter().position(|s| matches!(s, Step::Move { .. })).unwrap();
    assert!(last_removal < first_move);
}

#[test]
fn first_installation_removes_nothing() {
    let mut other = Addon::new(String::from("o/other"), AddonKind::GithubRelease);
    other.id = 1;
    other.dirs = Some(in_names(vec!["Other"]));
    let mut new = Addon::new(String::from("o/r"), AddonKind::GithubRelease);
    let found = Discovery {
        parent: Vec::new(),
        found: String::from("Addon-2.0"),
        renamed: String::from("Addon"),
        dirs: in_names(vec!["Addon"]),
    };
    let steps = new.install(&in_config(), &vec![other], &found);
    assert_eq!(new.id, 0);
    assert_eq!(new.dirs, Some(in_names(vec!["Addon"])));
    assert_eq!(
        steps,
        vec![
            Step::Rename {
                parent: Vec::new(),
                from: String::from("Addon-2.0"),
                to: String::from("Addon"),
            },
            Step::Move {
                parent: Vec::new(),
                dir: String::from("Addon"),
                root: String::from("/games/wow/Interface/AddOns"),
            },
        ]
    );
}

#[test]
fn entry_without_directories_has_nothing_to_remove() {
    let mut old = Addon::new(String::from("o/r"), AddonKind::GithubRelease);
    old.id = 3;
    let mut new = Addon::new(String::from("o/r"), AddonKind::GithubRelease);
    let steps = new.install(&in_config(), &vec![old], &in_found());
    assert_eq!(new.id, 3);
    assert_eq!(steps.len(), 3);
    assert!(matches!(steps[0], Step::Rename { .. }));
    assert!(matches!(steps[1], Step::Move { .. }));
    assert!(matches!(steps[2], Step::Move { .. }));
}

#[test]
fn filename_comes_from_the_header() {
    let mut addon = Addon::new(String::from("o/r"), AddonKind::GithubRelease);
    addon.download_url = Some(String::from("https://example.com/files/from-url.zip"));
    assert_eq!(addon.set_filename(Some("attachment; filename=\"Addon-1.2.zip\"")), Ok(()));
    assert_eq!(addon.filename, Some(String::from("Addon-1.2.zip")));
    assert_eq!(addon.set_filename(Some("attachment; filename=Addon-1.3.zip")), Ok(()));
    assert_eq!(addon.filename, Some(String::from("Addon-1.3.zip")));
    assert_eq!(addon.set_filename(Some("attachment; filename='Addon-1.4.zip'")), Ok(()));
    assert_eq!(addon.filename, Some(String::from("Addon-1.4.zip")));
    assert_eq!(addon.set_filename(Some("inline")), Ok(()));
    assert_eq!(addon.filename, Some(String::from("inline")));
    assert_eq!(addon.set_filename(Some("attachment; filename=")), Ok(()));
    assert_eq!(addon.filename, Some(String::new()));
    assert_eq!(addon.set_filename(Some("a=b; filename=\"'x'\"\"")), Ok(()));
    assert_eq!(addon.filename, Some(String::from("x")));
}

#[test]
fn filename_comes_from_the_address_without_a_header() {
    let mut addon = Addon::new(String::from("o/r"), AddonKind::GithubRelease);
    addon.download_url = Some(String::from("https://example.com/files/Addon-1.2.zip"));
    assert_eq!(addon.set_filename(None), Ok(()));
    assert_eq!(addon.filename, Some(String::from("Addon-1.2.zip")));
    addon.download_url = Some(String::from("https://api.github.com/repos/o/r/zipball/v1.2"));
    assert_eq!(addon.set_filename(None), Ok(()));
    assert_eq!(addon.filename, Some(String::from("v1.2")));
    addon.download_url = Some(String::from("https://example.com/files/"));
    assert_eq!(addon.set_filename(None), Ok(()));
    assert_eq!(addon.filename, Some(String::new()));
}

#[test]
fn filename_without_header_and_address_is_refused() {
    let mut addon = Addon::new(String::from("o/r"), AddonKind::GithubRelease);
    addon.filename = Some(String::from("kept.zip"));
    assert_eq!(addon.set_filename(None), Err(Failure::UnexpectedMetadataShape));
    assert_eq!(addon.filename, Some(String::from("kept.zip")));
    assert_eq!(addon.set_filename(Some("attachment; filename=new.zip")), Ok(()));
    assert_eq!(addon.filename, Some(String::from("new.zip")));
}

#[test]
fn archive_is_unpacked_under_its_stem() {
    let mut addon = Addon::new(String::from("o/r"), AddonKind::GithubRelease);
    assert_eq!(addon.unpacked_name(), None);
    addon.filename = Some(String::from("Addon-1.2.zip"));
    assert_eq!(addon.unpacked_name(), Some(String::from("Addon-1.2")));
    addon.filename = Some(String::from("Addon.zip"));
    assert_eq!(addon.unpacked_name(), Some(String::from("Addon")));
    addon.filename = Some(String::from("master"));
    assert_eq!(addon.unpacked_name(), Some(String::from("master")));
}
