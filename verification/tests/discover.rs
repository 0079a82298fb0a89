use lycan::discover::{
    choose_dirs, get_addon_dirs, get_subdirs, head_or_stem, manifest, process_tocs, Directory,
    Discovery,
};
use lycan::failure::Failure;

fn ds_dir(name: &str, files: Vec<&str>, subdirs: Vec<Directory>) -> Directory {
    Directory {
        name: String::from(name),
        files: files.into_iter().map(String::from).collect(),
        subdirs,
    }
}

fn ds_names(names: Vec<&str>) -> Vec<String> {
    names.into_iter().map(String::from).collect()
}

#[test]
fn manifest_at_the_top_gives_the_root_alone() {
    let root = ds_dir(
        "Addon-1.2.3",
        vec!["Addon.lua", "Addon.toc", "README.md"],
        vec![ds_dir("Libs", vec!["Lib.lua"], Vec::new())],
    );
    let found = get_addon_dirs(&root).unwrap();
    assert_eq!(
        found,
        Discovery {
            parent: Vec::new(),
            found: String::from("Addon-1.2.3"),
            renamed: String::from("Addon"),
            dirs: ds_names(vec!["Addon"]),
        }
    );
    assert_eq!(found.dirs.len(), 1);
}

#[test]
fn manifest_one_level_down_gives_the_directories_of_the_root() {
    let root = ds_dir(
        "Addon-1.2.3",
        vec!["README.md"],
        vec![
            ds_dir("Addon", vec!["Addon-Wrath.toc", "Addon.lua"], Vec::new()),
            ds_dir("Addon_Options", vec!["Addon_Options.toc"], Vec::new()),
        ],
    );
    assert_eq!(
        get_addon_dirs(&root),
        Ok(Discovery {
            parent: ds_names(vec!["Addon-1.2.3"]),
            found: String::from("Addon"),
            renamed: String::from("Addon"),
            dirs: ds_names(vec!["Addon", "Addon_Options"]),
        })
    );
}

#[test]
fn manifest_two_levels_down_gives_all_siblings() {
    let root = ds_dir(
        "download",
        Vec::new(),
        vec![
            ds_dir(
                "owner-repo-0a1b2c3",
                vec!["LICENSE"],
                vec![
                    ds_dir("Main-classic", vec!["Main_Classic.toc", "main.lua"], Vec::new()),
                    ds_dir("Main_Config", vec!["Main_Config.toc"], Vec::new()),
                    ds_dir("Main_Data", Vec::new(), Vec::new()),
                ],
            ),
            ds_dir("other", vec!["Other.toc"], Vec::new()),
        ],
    );
    assert_eq!(
        get_addon_dirs(&root),
        Ok(Discovery {
            parent: ds_names(vec!["download", "owner-repo-0a1b2c3"]),
            found: String::from("Main-classic"),
            renamed: String::from("Main"),
            dirs: ds_names(vec!["Main", "Main_Config", "Main_Data"]),
        })
    );
}

#[test]
fn search_goes_down_the_first_subdirectory_only() {
    let root = ds_dir(
        "download",
        Vec::new(),
        vec![
            ds_dir("empty", vec!["notes.txt"], Vec::new()),
            ds_dir("Addon", vec!["Addon.toc"], Vec::new()),
        ],
    );
    assert_eq!(get_addon_dirs(&root), Err(Failure::NoManifestFound));
}

#[test]
fn archive_without_manifest_is_refused() {
    assert_eq!(get_addon_dirs(&ds_dir("empty", Vec::new(), Vec::new())), Err(Failure::NoManifestFound));
    let deep = ds_dir(
        "a",
        vec!["a.txt"],
        vec![ds_dir("b", vec!["b.lua"], vec![ds_dir("c", vec!["toc", "c.TOC", ".toc"], Vec::new())])],
    );
    assert_eq!(get_addon_dirs(&deep), Err(Failure::NoManifestFound));
}

#[test]
fn first_manifest_of_a_directory_decides() {
    let dir = ds_dir("x", vec!["notes.txt", "Second-tbc.toc", "First.toc"], Vec::new());
    assert_eq!(process_tocs(&dir), Some(String::from("Second")));
    assert_eq!(process_tocs(&ds_dir("x", vec!["a.lua", "b.xml"], Vec::new())), None);
    assert_eq!(process_tocs(&ds_dir("x", Vec::new(), Vec::new())), None);
}

#[test]
fn mark_of_the_game_version_is_taken_off() {
    for (file, head) in [
        ("Addon.toc", "Addon"),
        ("Addon-wotlk.toc", "Addon"),
        ("Addon-WOTLKC.toc", "Addon"),
        ("Addon_classic.toc", "Addon"),
        ("Addon-bcc.toc", "Addon"),
        ("Addon-BCC.toc", "Addon"),
        ("Addon_TBC.toc", "Addon"),
        ("Addon-Mainline.toc", "Addon"),
        ("Addon_Vanilla.toc", "Addon"),
        ("Addon-Wrath.toc", "Addon"),
        ("Addon-classic-extra.toc", "Addon"),
        ("DBM-Core.toc", "DBM-Core"),
        ("Addon_Options.toc", "Addon_Options"),
        ("Addon.classic.toc", "Addon.classic"),
        ("Addonclassic.toc", "Addonclassic"),
        ("-tbc.toc", "-tbc"),
        ("A.toc", "A"),
    ] {
        let dir = ds_dir("x", vec![file], Vec::new());
        assert_eq!(process_tocs(&dir), Some(String::from(head)), "{}", file);
    }
}

#[test]
fn manifest_is_known_by_its_extension() {
    for file in ["Addon.toc", "a.b.toc", "..toc", "Addon-classic.toc"] {
        assert!(manifest(file), "{}", file);
    }
    for file in ["Addon.TOC", "Addon.toc.bak", "toc", ".toc", "Addon.tocx", "Addon.lua", "", "Addon.toc/"] {
        assert!(!manifest(file), "{}", file);
    }
}

#[test]
fn head_is_the_stem_where_none_is_found() {
    assert_eq!(head_or_stem(Some(String::from("Head")), "File-wotlk.toc"), "Head");
    assert_eq!(head_or_stem(None, "File-wotlk.toc"), "File-wotlk");
    assert_eq!(process_tocs(&ds_dir("x", vec!["\n.toc"], Vec::new())), Some(String::from("\n")));
}

#[test]
fn chosen_directories_are_the_root_or_the_siblings() {
    let head = String::from("Head");
    assert_eq!(choose_dirs(&head, None), ds_names(vec!["Head"]));
    assert_eq!(
        choose_dirs(&head, Some(ds_names(vec!["Head-classic", "Extra", "More"]))),
        ds_names(vec!["Head", "Extra", "More"])
    );
    assert_eq!(choose_dirs(&head, Some(ds_names(vec!["Only"]))), ds_names(vec!["Head"]));
    assert_eq!(choose_dirs(&head, Some(Vec::new())), Vec::<String>::new());
}

#[test]
fn subdirectories_are_named_in_their_order() {
    let dir = ds_dir(
        "x",
        vec!["file"],
        vec![
            ds_dir("b", Vec::new(), vec![ds_dir("inner", Vec::new(), Vec::new())]),
            ds_dir("a", Vec::new(), Vec::new()),
        ],
    );
    assert_eq!(get_subdirs(&dir), ds_names(vec!["b", "a"]));
    assert!(get_subdirs(&ds_dir("x", vec!["file"], Vec::new())).is_empty());
}
