use pde::config::Config;
use pde::config::defaults::Defaults;
use pde::config::general_config::GeneralConfig;
use pde::config::parse_utils::ParseUtils;
use pde::config::profiles::profiles_config::ProfilesConfig;
use pde::text::{i64_to_string, join_path, join_with, parse_i32, replace_var_exec, split, strip_suffix, u64_to_string};
use pde::utils::path_extensions::PathExtensions;

#[test]
fn split_keeps_empty_fields() {
    let parts = split("a  b", ' ');
    assert_eq!(parts, vec!["a".to_owned(), "".to_owned(), "b".to_owned()]);
    assert_eq!(split("", ' '), vec!["".to_owned()]);
    assert_eq!(split("x", '/'), vec!["x".to_owned()]);
    assert_eq!(
        split("https://example.com/p.zip", '/'),
        vec![
            "https:".to_owned(),
            "".to_owned(),
            "example.com".to_owned(),
            "p.zip".to_owned(),
        ]
    );
}

#[test]
fn strip_suffix_removes_one_trailing_occurrence() {
    assert_eq!(strip_suffix("pkg-1.0.zip", ".zip"), "pkg-1.0");
    assert_eq!(strip_suffix("a.zip.zip", ".zip"), "a.zip");
    assert_eq!(strip_suffix("plain", ".zip"), "plain");
    assert_eq!(strip_suffix(".zip", ".zip"), "");
}

#[test]
fn join_path_inserts_exactly_one_separator() {
    assert_eq!(join_path("/opt/x", "pkg"), "/opt/x/pkg");
    assert_eq!(join_path("/opt/x/", "pkg"), "/opt/x/pkg");
    assert_eq!(join_path("", "pkg"), "pkg");
}

#[test]
fn join_with_separates_adjacent_parts() {
    assert_eq!(join_with(&vec!["a".to_owned(), "b".to_owned()], "; "), "a; b");
    assert_eq!(join_with(&vec!["a".to_owned()], "; "), "a");
    assert_eq!(join_with(&vec![], "; "), "");
}

#[test]
fn numbers_render_in_decimal() {
    assert_eq!(u64_to_string(0), "0");
    assert_eq!(u64_to_string(42), "42");
    assert_eq!(u64_to_string(1000), "1000");
    assert_eq!(i64_to_string(-42), "-42");
    assert_eq!(i64_to_string(7), "7");
    assert_eq!(i64_to_string(0), "0");
}

#[test]
fn tilde_expands_to_home() {
    assert_eq!(ParseUtils::parse_path("~/wallpapers", "/home/u"), "/home/u/wallpapers");
    assert_eq!(ParseUtils::parse_path("~", "/home/u"), "/home/u");
    assert_eq!(ParseUtils::parse_path("/absolute", "/home/u"), "/absolute");
    assert_eq!(ParseUtils::parse_path("~weird", "/home/u"), "~weird");
    assert_eq!(
        ParseUtils::parse_optional_path(&Some("~/a".to_owned()), "/h"),
        Some("/h/a".to_owned())
    );
    assert_eq!(ParseUtils::parse_optional_path(&None, "/h"), None);
    assert_eq!(
        ParseUtils::parse_paths(&vec!["~/a".to_owned(), "/b".to_owned()], "/h"),
        vec!["/h/a".to_owned(), "/b".to_owned()]
    );
}

#[test]
fn variable_references_are_replaced() {
    assert_eq!(
        replace_var_exec("swww img {{ wallpaper }}", "wallpaper", "/x.png"),
        "swww img /x.png"
    );
    assert_eq!(replace_var_exec("a {{k}} b {{ k }} c", "k", "V"), "a V b V c");
    assert_eq!(replace_var_exec("{{\tk }}", "k", "V"), "V");
    assert_eq!(replace_var_exec("no reference", "k", "V"), "no reference");
    assert_eq!(replace_var_exec("{{ other }}", "k", "V"), "{{ other }}");
    assert_eq!(replace_var_exec("{{ k", "k", "V"), "{{ k");
}

#[test]
fn config_path_precedence_is_argument_environment_default() {
    assert_eq!(
        Config::resolve_path(Some("/explicit".to_owned()), Some("/env".to_owned()), "/home/u"),
        "/explicit"
    );
    assert_eq!(Config::resolve_path(None, Some("/env".to_owned()), "/home/u"), "/env");
    assert_eq!(
        Config::resolve_path(None, None, "/home/u"),
        "/home/u/.config/pde/config.toml"
    );
    assert_eq!(
        ProfilesConfig::resolve_path(&None, None, "/home/u"),
        "/home/u/.config/pde/install/profiles.toml"
    );
    assert_eq!(
        ProfilesConfig::resolve_path(&Some("/p.toml".to_owned()), None, "/home/u"),
        "/p.toml"
    );
}

#[test]
fn defaults_match_their_documentation() {
    assert_eq!(Defaults::resource_root_dir(), "~/.desk-env/");
    assert_eq!(Defaults::audio_sink(), "@DEFAULT_AUDIO_SINK@");
    assert_eq!(Defaults::notification_timeout_ms(), 3000);
    assert_eq!(Defaults::control_step(), 2);
}

#[test]
fn icons_dir_falls_back_under_the_resource_root() {
    let general = GeneralConfig {
        resource_root_dir: "/res".to_owned(),
        icons_dir: None,
        notification_timeout_ms: 3000,
    };
    assert_eq!(general.icons_dir(), "/res/theme/wallust/icons");
    let explicit = GeneralConfig { icons_dir: Some("/icons".to_owned()), ..general };
    assert_eq!(explicit.icons_dir(), "/icons");
}

#[test]
fn integers_parse_back_from_reports() {
    assert_eq!(parse_i32("42"), Some(42));
    assert_eq!(parse_i32("  42\n"), Some(42));
    assert_eq!(parse_i32("-17"), Some(-17));
    assert_eq!(parse_i32("0"), Some(0));
    assert_eq!(parse_i32("007"), Some(7));
    assert_eq!(parse_i32("2147483647"), Some(i32::MAX));
    assert_eq!(parse_i32("-2147483648"), Some(i32::MIN));
    assert_eq!(parse_i32("2147483648"), None);
    assert_eq!(parse_i32("-2147483649"), None);
    assert_eq!(parse_i32("99999999999999999999"), None);
    assert_eq!(parse_i32(""), None);
    assert_eq!(parse_i32("-"), None);
    assert_eq!(parse_i32("4 2"), None);
    assert_eq!(parse_i32("x42"), None);
}

#[test]
fn strings_resolve_as_paths() {
    let path = "~/pictures".to_owned();
    assert_eq!(path.pde_resolve("/home/u"), "/home/u/pictures");
}
