use nex::configuration::{find_config, name_in_use, remove_config, Configuration};
use nex::settings::{first_launch_settings, normalize, setting_kind, SettingKind, Settings};
use nex::text::{
    chars_of, is_blank_str, str_contains, str_ends_with, str_eq, str_eq_ignore_ascii_case, trim,
};

fn named(name: &str) -> Configuration {
    let mut c = Configuration::new();
    c.name = name.to_string();
    c
}

fn some(s: &str) -> Option<String> {
    Some(s.to_string())
}

#[test]
fn trim_matches_std() {
    for s in ["", "  ", " a b ", "\t\nx\u{3000}", "abc", "\u{85}y\u{a0}", " \u{2003}z"] {
        assert_eq!(trim(s), s.trim());
    }
}

#[test]
fn blank_and_chars() {
    assert!(is_blank_str(" \t\r\n"));
    assert!(is_blank_str(""));
    assert!(!is_blank_str(" x "));
    assert_eq!(chars_of("héé"), vec!['h', 'é', 'é']);
}

#[test]
fn comparisons() {
    assert!(str_eq("abc", "abc"));
    assert!(!str_eq("abc", "abd"));
    assert!(!str_eq("abc", "ab"));
    assert!(str_eq_ignore_ascii_case("MyConfig", "myCONFIG"));
    assert!(!str_eq_ignore_ascii_case("é", "É"));
    assert!(!str_eq_ignore_ascii_case("ab", "abc"));
    assert!(str_contains("xx(Completed)yy", "(Completed)"));
    assert!(str_contains("abc", ""));
    assert!(!str_contains("ab", "abc"));
    assert!(!str_contains("abd", "abc"));
    assert!(str_ends_with("http://127.0.0.1:3551", "127.0.0.1:3551"));
    assert!(!str_ends_with("127.0.0.1:3552", "127.0.0.1:3551"));
}

#[test]
fn normalize_drops_blank_values() {
    assert_eq!(normalize(Some("  ".to_string())), None);
    assert_eq!(normalize(None), None);
    assert_eq!(normalize(some(" Nexa ")), some(" Nexa "));
}

#[test]
fn normalize_idempotent() {
    for v in [None, some(""), some(" "), some("x"), some(" x ")] {
        let once = normalize(v);
        assert_eq!(normalize(once.clone()), once);
    }
}

#[test]
fn setting_names() {
    assert!(matches!(setting_kind("backend"), Some(SettingKind::Backend)));
    assert!(matches!(setting_kind("redirect"), Some(SettingKind::Redirect)));
    assert!(matches!(setting_kind("gameserver"), Some(SettingKind::Gameserver)));
    assert!(matches!(setting_kind("clientdll"), Some(SettingKind::ClientDll)));
    assert!(setting_kind("Backend").is_none());
}

#[test]
fn saved_setting_reads_back() {
    let s = Settings::default().apply_setting("Neonite".to_string(), "backend");
    let loaded = s.normalized();
    assert_eq!(loaded.backend, some("Neonite"));
    assert_eq!(loaded.redirect, None);
    let s = loaded.apply_setting("   ".to_string(), "backend");
    assert_eq!(s.normalized().backend, None);
    let s = Settings::default().apply_setting(" C:\\x.dll".to_string(), "gameserver");
    assert_eq!(s.gameserver, some(" C:\\x.dll"));
}

#[test]
fn unknown_setting_ignored() {
    let s = Settings::default().apply_setting("Erbium".to_string(), "client");
    assert!(s.is_unconfigured());
}

#[test]
fn normalized_loads_blank_fields_as_none() {
    let s = Settings { redirect: some(" "), backend: some("Nexa"), gameserver: some(""), clientdll: None };
    let n = s.normalized();
    assert_eq!(n.redirect, None);
    assert_eq!(n.backend, some("Nexa"));
    assert_eq!(n.gameserver, None);
    assert!(!n.is_unconfigured());
}

#[test]
fn first_launch_defaults() {
    let s = first_launch_settings(Settings::default()).unwrap();
    assert_eq!(s.backend, some("LawinServer"));
    assert_eq!(s.gameserver, some("Erbium"));
    assert_eq!(s.redirect, some("Tellerium"));
    assert_eq!(s.clientdll, some("Erbium"));
    let configured = Settings { backend: some("Nexa"), ..Settings::default() };
    assert!(first_launch_settings(configured).is_none());
}

#[test]
fn configurations_found_ignoring_case() {
    let configs = vec![named("Alpha"), named("beta"), named("BETA")];
    assert_eq!(find_config(&configs, "BeTa"), Some(1));
    assert_eq!(find_config(&configs, "alpha"), Some(0));
    assert_eq!(find_config(&configs, "gamma"), None);
    assert!(name_in_use(&configs, "ALPHA"));
    assert!(!name_in_use(&configs, "Alph"));
}

#[test]
fn added_configuration_found() {
    let mut configs = vec![named("Alpha")];
    assert!(!name_in_use(&configs, "Season 8"));
    configs.push(named("Season 8"));
    assert_eq!(find_config(&configs, "season 8"), Some(1));
}

#[test]
fn remove_configuration() {
    let mut configs = vec![named("a"), named("B"), named("c")];
    assert!(remove_config(&mut configs, "b"));
    let names: Vec<String> = configs.iter().map(|c| c.name.clone()).collect();
    assert_eq!(names, vec!["a".to_string(), "c".to_string()]);
    assert!(!name_in_use(&configs, "b"));
    assert!(!remove_config(&mut configs, "zzz"));
    assert_eq!(configs.len(), 2);
}

#[test]
fn new_configuration_is_empty() {
    let c = Configuration::new();
    assert!(c.name.is_empty() && c.email.is_empty() && c.password.is_empty());
    assert!(c.gs_email.is_empty() && c.gs_password.is_empty() && c.path.is_empty());
}
