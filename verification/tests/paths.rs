use std::collections::HashMap;

use ufbt::paths::{
    default_ufbt_home, parse_env_file, EnvVars, Paths, Platform, ENV_FILE_NAME, STATE_FILE_NAME,
    TOOLCHAIN_SUBDIR,
};

const NO_TOOLCHAIN: Option<&str> = None;
const CWD: &str = "/work/project";
const WINDOWS_CWD: &str = "D:\\work\\project";

fn env_of(pairs: &[(&str, &str)]) -> EnvVars {
    let mut env = EnvVars::new();
    for (key, value) in pairs {
        env.set(key, value);
    }
    env
}

fn as_map(env: &EnvVars) -> HashMap<String, String> {
    let mut map = HashMap::new();
    for index in 0..env.len() {
        let (key, value) = env.entry(index);
        map.insert(key.to_owned(), value.to_owned());
    }
    map
}

fn map_of(pairs: &[(&str, &str)]) -> HashMap<String, String> {
    pairs
        .iter()
        .map(|(key, value)| ((*key).to_owned(), (*value).to_owned()))
        .collect()
}

/// The variables of an environment file with the given contents; a missing file reads as
/// an empty one.
fn load_env_file(contents: Option<&str>) -> EnvVars {
    parse_env_file(contents.unwrap_or_default())
}

fn unix(home: &str, toolchain: Option<&str>) -> Paths {
    Paths::new(home, toolchain, CWD, Platform::Unix)
}

fn windows(home: &str, toolchain: Option<&str>) -> Paths {
    Paths::new(home, toolchain, WINDOWS_CWD, Platform::Windows)
}

#[test]
fn constants_match_ufbt() {
    assert_eq!(STATE_FILE_NAME, "ufbt_state.json");
    assert_eq!(TOOLCHAIN_SUBDIR, "toolchain");
    assert_eq!(ENV_FILE_NAME, ".env");
}

#[test]
fn getters_derive_from_state_dir() {
    let home = "/ufbt-home";
    let paths = unix(home, NO_TOOLCHAIN);

    assert_eq!(paths.state_dir(), home);
    assert_eq!(paths.download_dir(), "/ufbt-home/download");
    assert_eq!(paths.current_sdk_dir(), "/ufbt-home/current");
    assert_eq!(paths.toolchain_dir(), "/ufbt-home/toolchain");
    assert_eq!(paths.state_file(), "/ufbt-home/current/ufbt_state.json");
    assert_eq!(paths.sdk_scripts_dir(), "/ufbt-home/current/scripts");
    assert_eq!(
        paths.fbtenv_script(),
        "/ufbt-home/current/scripts/toolchain/fbtenv.sh"
    );
    assert_eq!(
        paths.fbtenv_cmd(),
        "/ufbt-home/current/scripts/toolchain/fbtenv.cmd"
    );
    assert_eq!(
        paths.toolchain_arch_dir("darwin-arm64"),
        "/ufbt-home/toolchain/darwin-arm64"
    );
    assert_eq!(
        paths.toolchain_current_link(),
        "/ufbt-home/toolchain/current"
    );

    let paths = windows("C:\\ufbt-home", NO_TOOLCHAIN);
    assert_eq!(paths.state_dir(), "C:\\ufbt-home");
    assert_eq!(paths.download_dir(), "C:\\ufbt-home\\download");
    assert_eq!(
        paths.state_file(),
        "C:\\ufbt-home\\current\\ufbt_state.json"
    );
    assert_eq!(
        paths.fbtenv_cmd(),
        "C:\\ufbt-home\\current\\scripts\\toolchain\\fbtenv.cmd"
    );
}

#[test]
fn separate_toolchain_path_moves_only_the_toolchain() {
    let paths = unix("/ufbt-home", Some("/elsewhere"));

    assert_eq!(paths.state_dir(), "/ufbt-home");
    assert_eq!(paths.download_dir(), "/ufbt-home/download");
    assert_eq!(paths.toolchain_dir(), "/elsewhere/toolchain");
    assert_eq!(
        paths.toolchain_current_link(),
        "/elsewhere/toolchain/current"
    );
}

#[test]
fn relative_home_is_resolved_against_the_current_directory() {
    let paths = unix("relative-home", NO_TOOLCHAIN);

    assert_eq!(paths.state_dir(), "/work/project/relative-home");
}

#[test]
fn trailing_separator_is_dropped() {
    assert_eq!(unix("/ufbt-home/", NO_TOOLCHAIN).state_dir(), "/ufbt-home");
    assert_eq!(
        windows("C:\\ufbt-home\\", NO_TOOLCHAIN).state_dir(),
        "C:\\ufbt-home"
    );
}

#[test]
fn only_one_trailing_separator_is_dropped() {
    assert_eq!(unix("/ufbt-home//", NO_TOOLCHAIN).state_dir(), "/ufbt-home/");
}

#[test]
fn dot_segments_are_kept() {
    assert_eq!(
        unix("/ufbt-home/a/../b", NO_TOOLCHAIN).state_dir(),
        "/ufbt-home/a/../b"
    );
}

#[test]
fn root_is_left_alone() {
    assert_eq!(unix("/", NO_TOOLCHAIN).state_dir(), "/");
    assert_eq!(unix("/", NO_TOOLCHAIN).download_dir(), "//download");
}

#[test]
fn drive_root_loses_its_separator() {
    assert_eq!(windows("C:\\", NO_TOOLCHAIN).state_dir(), "C:");
    assert_eq!(windows("C:/", NO_TOOLCHAIN).state_dir(), "C:");
    assert_eq!(windows("C:\\", NO_TOOLCHAIN).download_dir(), "C:\\download");
}

#[test]
fn a_path_without_a_drive_takes_the_drive_of_the_current_directory() {
    assert_eq!(
        windows("\\ufbt-home", NO_TOOLCHAIN).state_dir(),
        "D:\\ufbt-home"
    );
}

#[test]
fn a_forward_slash_path_stays_relative_on_windows() {
    assert_eq!(
        windows("/ufbt-home", NO_TOOLCHAIN).state_dir(),
        "D:\\work\\project\\/ufbt-home"
    );
}

#[test]
fn a_unc_path_is_absolute() {
    assert_eq!(
        windows("\\\\server\\share", NO_TOOLCHAIN).state_dir(),
        "\\\\server\\share"
    );
    assert_eq!(
        windows("\\\\server\\share\\", NO_TOOLCHAIN).state_dir(),
        "\\\\server\\share"
    );
}

#[test]
fn default_ufbt_home_prefers_home() {
    assert_eq!(
        default_ufbt_home(&env_of(&[("HOME", "/h"), ("USERPROFILE", "/u")]), Platform::Unix),
        "/h/.ufbt"
    );
}

#[test]
fn default_ufbt_home_falls_back_to_userprofile() {
    assert_eq!(
        default_ufbt_home(&env_of(&[("USERPROFILE", "/u")]), Platform::Unix),
        "/u/.ufbt"
    );
    assert_eq!(
        default_ufbt_home(&env_of(&[("USERPROFILE", "C:\\Users\\u")]), Platform::Windows),
        "C:\\Users\\u\\.ufbt"
    );
}

#[test]
fn default_ufbt_home_without_either_variable() {
    assert_eq!(default_ufbt_home(&EnvVars::new(), Platform::Unix), "/.ufbt");
    assert_eq!(default_ufbt_home(&EnvVars::new(), Platform::Windows), "\\.ufbt");
}

#[test]
fn default_ufbt_home_treats_an_empty_home_as_set() {
    assert_eq!(
        default_ufbt_home(&env_of(&[("HOME", ""), ("USERPROFILE", "/u")]), Platform::Unix),
        "/.ufbt"
    );
}

#[test]
fn missing_env_file_yields_no_variables() {
    let file = None;

    assert_eq!(load_env_file(file).len(), 0);
}

#[test]
fn env_file_skips_blank_lines_and_comments() {
    let file = Some("\n   \n# comment\n  # indented comment\nA=1\n\nB=2\n");

    assert_eq!(as_map(&load_env_file(file)), map_of(&[("A", "1"), ("B", "2")]));
}

#[test]
fn env_file_skips_lines_without_a_separator() {
    let file = Some("NO_SEPARATOR\nA=1\n");

    assert_eq!(as_map(&load_env_file(file)), map_of(&[("A", "1")]));
}

#[test]
fn env_file_keeps_spaces_around_key_and_value() {
    let file = Some("   A B = 1 2   \n");

    assert_eq!(as_map(&load_env_file(file)), map_of(&[("A B ", " 1 2")]));
}

#[test]
fn env_file_keeps_quotes() {
    let file = Some("A=\"quoted\"\nB='single'\n");

    assert_eq!(
        as_map(&load_env_file(file)),
        map_of(&[("A", "\"quoted\""), ("B", "'single'")])
    );
}

#[test]
fn env_file_does_not_understand_export() {
    let file = Some("export A=1\n");

    assert_eq!(as_map(&load_env_file(file)), map_of(&[("export A", "1")]));
}

#[test]
fn env_file_splits_on_the_first_separator() {
    let file = Some("A=1=2=3\n");

    assert_eq!(as_map(&load_env_file(file)), map_of(&[("A", "1=2=3")]));
}

#[test]
fn env_file_accepts_an_empty_value_and_an_empty_key() {
    let file = Some("A=\n=value\n");

    assert_eq!(
        as_map(&load_env_file(file)),
        map_of(&[("A", ""), ("", "value")])
    );
}

#[test]
fn env_file_accepts_every_line_ending() {
    let file = Some("A=1\r\nB=2\rC=3\nD=4");

    assert_eq!(
        as_map(&load_env_file(file)),
        map_of(&[("A", "1"), ("B", "2"), ("C", "3"), ("D", "4")])
    );
}

#[test]
fn later_lines_win_over_earlier_ones() {
    let file = Some("A=first\nA=second\n");

    let env = load_env_file(file);
    assert_eq!(as_map(&env), map_of(&[("A", "second")]));
    assert_eq!(env.get("A"), Some("second"));
}

#[test]
fn resolve_reads_ufbt_home_from_the_environment() {
    let file = None;
    let env = env_of(&[("UFBT_HOME", "/ufbt-home")]);
    let paths = Paths::resolve(&env, &load_env_file(file), CWD, Platform::Unix);

    assert_eq!(paths.state_dir(), "/ufbt-home");
    assert_eq!(paths.toolchain_dir(), "/ufbt-home/toolchain");
}

#[test]
fn resolve_reads_the_toolchain_path_from_the_environment() {
    let file = None;
    let env = env_of(&[("UFBT_HOME", "/ufbt-home"), ("FBT_TOOLCHAIN_PATH", "/elsewhere")]);
    let paths = Paths::resolve(&env, &load_env_file(file), CWD, Platform::Unix);

    assert_eq!(paths.state_dir(), "/ufbt-home");
    assert_eq!(paths.toolchain_dir(), "/elsewhere/toolchain");
}

#[test]
fn resolve_falls_back_to_the_default_home() {
    let file = None;
    let env = env_of(&[("HOME", "/ufbt-home")]);
    let paths = Paths::resolve(&env, &load_env_file(file), CWD, Platform::Unix);

    assert_eq!(paths.state_dir(), "/ufbt-home/.ufbt");
}

#[test]
fn resolve_lets_the_env_file_override_the_environment() {
    let file = Some("UFBT_HOME=/ufbt-home/from-file\n");
    let env = env_of(&[("UFBT_HOME", "/ufbt-home")]);
    let paths = Paths::resolve(&env, &load_env_file(file), CWD, Platform::Unix);

    assert_eq!(paths.state_dir(), "/ufbt-home/from-file");
}

#[test]
fn resolve_lets_the_env_file_supply_the_home_directory() {
    let file = Some("HOME=/ufbt-home\n");
    let paths = Paths::resolve(&EnvVars::new(), &load_env_file(file), CWD, Platform::Unix);

    assert_eq!(paths.state_dir(), "/ufbt-home/.ufbt");
}

#[test]
fn resolve_without_an_env_file_uses_the_environment_alone() {
    let env = env_of(&[("UFBT_HOME", "/ufbt-home")]);

    assert_eq!(
        Paths::resolve(&env, &EnvVars::new(), CWD, Platform::Unix).state_dir(),
        "/ufbt-home"
    );
}

#[test]
fn env_file_values_are_trimmed_of_unicode_white_space() {
    let env = parse_env_file("\u{3000}UFBT_HOME=/opt/ufbt\u{a0}\t\n\u{2003}NAME=x\u{200b}\n");
    assert_eq!(env.get("UFBT_HOME"), Some("/opt/ufbt"));
    assert_eq!(env.get("NAME"), Some("x\u{200b}"));
}

#[test]
fn a_name_set_twice_is_one_variable_with_the_last_value() {
    let env = parse_env_file("A=first\nB=other\nA=second\n");
    assert_eq!(env.len(), 2);
    assert_eq!(env.entry(0), ("A", "second"));
    assert_eq!(env.entry(1), ("B", "other"));
    assert_eq!(env.get("A"), Some("second"));

    let mut merged = env_of(&[("A", "1"), ("C", "3")]);
    merged.extend(&env);
    assert_eq!(merged.len(), 3);
    assert_eq!(merged.get("A"), Some("second"));
    assert_eq!(merged.get("C"), Some("3"));
}
