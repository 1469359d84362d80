use dotfox::config::{current_os_tag, Config, Hostname, Programs};

fn s(x: &str) -> String {
    x.to_string()
}

fn entry(os: Option<&str>, hostname: Option<Hostname>, folder: &str) -> Programs {
    Programs::new(os.map(s), hostname, s(folder))
}

#[test]
fn unfiltered_entry_applies_on_any_host() {
    let config = Config { config: vec![entry(None, None, "common")] };
    for host in ["alpha", "beta", ""] {
        let r = config.resolve_folders(&s("linux-x86_64"), &s(host));
        assert_eq!(r, vec![s("common")]);
    }
    let r = config.resolve_folders(&s("macos-aarch64"), &s("gamma"));
    assert_eq!(r, vec![s("common")]);
}

#[test]
fn both_filters_must_match() {
    let config = Config {
        config: vec![entry(Some("linux-x86_64"), Some(Hostname::Single(s("alpha"))), "work")],
    };
    assert_eq!(config.resolve_folders(&s("linux-x86_64"), &s("alpha")), vec![s("work")]);
    assert!(config.resolve_folders(&s("linux-x86_64"), &s("beta")).is_empty());
    assert!(config.resolve_folders(&s("macos-aarch64"), &s("alpha")).is_empty());
    assert!(config.resolve_folders(&s("macos-aarch64"), &s("beta")).is_empty());
}

#[test]
fn single_filters_and_host_lists() {
    let config = Config {
        config: vec![
            entry(Some("linux-x86_64"), None, "linux"),
            entry(None, Some(Hostname::Multiple(vec![s("alpha"), s("beta")])), "pair"),
            entry(None, Some(Hostname::Single(s("gamma"))), "gamma"),
        ],
    };
    assert_eq!(
        config.resolve_folders(&s("linux-x86_64"), &s("beta")),
        vec![s("linux"), s("pair")]
    );
    assert_eq!(config.resolve_folders(&s("windows-x86"), &s("gamma")), vec![s("gamma")]);
    assert!(config.resolve_folders(&s("windows-x86"), &s("delta")).is_empty());
}

#[test]
fn duplicates_keep_first_occurrence() {
    let config = Config {
        config: vec![
            entry(None, None, "b"),
            entry(None, None, "a"),
            entry(None, Some(Hostname::Single(s("alpha"))), "b"),
            entry(None, None, "a"),
            entry(None, None, "c"),
        ],
    };
    let first = config.resolve_folders(&s("linux-x86_64"), &s("alpha"));
    assert_eq!(first, vec![s("b"), s("a"), s("c")]);
    let second = config.resolve_folders(&s("linux-x86_64"), &s("alpha"));
    assert_eq!(first, second);
}

#[test]
fn os_tag_joins_with_a_dash() {
    assert_eq!(current_os_tag("linux", "x86_64").as_str(), "linux-x86_64");
    assert_eq!(current_os_tag("", "").as_str(), "-");
}

#[test]
fn folders_on_this_machine() {
    let config = Config {
        config: vec![
            entry(None, None, "common"),
            entry(None, Some(Hostname::Single(s("\u{0}no such host\u{0}"))), "elsewhere"),
            entry(Some("linux-x86_64"), None, "tagged"),
        ],
    };
    let r = config.folders("linux", "x86_64").expect("the host name is known here");
    assert_eq!(r, vec![s("common"), s("tagged")]);
}
