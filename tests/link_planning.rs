use dotfox::error::DotfoxError;
use dotfox::paths::{join, path_lt};
use dotfox::plan::{
    is_config_dir_name, plan, ChildEntry, DirEntryInfo, FolderListing, LinkMap, VerifyMap,
};

fn s(x: &str) -> String {
    x.to_string()
}

fn file(folder: &str, name: &str) -> ChildEntry {
    ChildEntry { name: s(name), path: format!("{folder}/{name}"), nested: vec![] }
}

fn config_dir(folder: &str, names: &[&str]) -> ChildEntry {
    ChildEntry {
        name: s(".config"),
        path: format!("{folder}/.config"),
        nested: names
            .iter()
            .map(|n| DirEntryInfo { name: s(n), path: format!("{folder}/.config/{n}") })
            .collect(),
    }
}

fn pairs(v: &[LinkMap]) -> Vec<(String, String)> {
    v.iter().map(|m| (m.source.clone(), m.target.clone())).collect()
}

#[test]
fn plans_sorted_by_target_with_config_relocation() {
    let folders = vec![
        FolderListing {
            children: vec![file("/r/zsh", ".zshrc"), config_dir("/r/zsh", &["zsh", "alacritty"])],
        },
        FolderListing { children: vec![file("/r/vim", ".vimrc")] },
    ];
    let r = plan(&folders, &s("/home/u"), &s("/home/u/.config")).unwrap();
    assert_eq!(
        pairs(&r),
        vec![
            (s("/r/zsh/.config/alacritty"), s("/home/u/.config/alacritty")),
            (s("/r/zsh/.config/zsh"), s("/home/u/.config/zsh")),
            (s("/r/vim/.vimrc"), s("/home/u/.vimrc")),
            (s("/r/zsh/.zshrc"), s("/home/u/.zshrc")),
        ]
    );
}

#[test]
fn planning_twice_gives_the_same_links() {
    let folders = vec![FolderListing {
        children: vec![file("/r/a", "b"), file("/r/a", "a"), config_dir("/r/a", &["c"])],
    }];
    let first = plan(&folders, &s("/h"), &s("/c/")).unwrap();
    let second = plan(&folders, &s("/h"), &s("/c/")).unwrap();
    assert_eq!(pairs(&first), pairs(&second));
    assert_eq!(
        pairs(&first),
        vec![(s("/r/a/.config/c"), s("/c/c")), (s("/r/a/a"), s("/h/a")), (s("/r/a/b"), s("/h/b"))]
    );
}

#[test]
fn two_sources_for_one_target_conflict() {
    let folders = vec![
        FolderListing { children: vec![file("/r/one", ".bashrc")] },
        FolderListing { children: vec![file("/r/two", ".bashrc"), file("/r/two", ".inputrc")] },
    ];
    let r = plan(&folders, &s("/home/u"), &s("/home/u/.config"));
    assert!(matches!(r, Err(DotfoxError::Conflict)));
}

#[test]
fn config_child_conflicting_with_home_child() {
    let folders = vec![FolderListing {
        children: vec![file("/r/x", "app"), config_dir("/r/x", &["app"])],
    }];
    let r = plan(&folders, &s("/h"), &s("/h"));
    assert!(matches!(r, Err(DotfoxError::Conflict)));
}

#[test]
fn nothing_to_link() {
    let none: Vec<FolderListing> = vec![];
    assert!(matches!(plan(&none, &s("/h"), &s("/c")), Err(DotfoxError::NoFiles)));
    let empty = vec![FolderListing { children: vec![] }, FolderListing { children: vec![config_dir("/r", &[])] }];
    assert!(matches!(plan(&empty, &s("/h"), &s("/c")), Err(DotfoxError::NoFiles)));
}

#[test]
fn join_and_order_of_paths() {
    assert_eq!(join(&s("/home/u"), &s(".vimrc")), "/home/u/.vimrc");
    assert_eq!(join(&s("/home/u/"), &s(".vimrc")), "/home/u/.vimrc");
    assert_eq!(join(&s(""), &s("a")), "a");
    assert!(path_lt(&s("/a"), &s("/b")));
    assert!(path_lt(&s("/a"), &s("/a/b")));
    assert!(!path_lt(&s("/a/b"), &s("/a")));
    assert!(!path_lt(&s("/a"), &s("/a")));
    assert!(is_config_dir_name(&s(".config")));
    assert!(!is_config_dir_name(&s("config")));
}

#[test]
fn link_map_and_verify_map() {
    let m = LinkMap::new("/r/a", "/h/a");
    assert_eq!((m.source.as_str(), m.target.as_str()), ("/r/a", "/h/a"));
    let mut v = VerifyMap::new("/r/a", "/h/a");
    assert!(!v.tainted);
    v.taint();
    assert!(v.tainted);
    assert_eq!(v.target, "/h/a");
}
