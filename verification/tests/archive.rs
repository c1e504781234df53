use ufbt::archive::safe_entry_path;
use ufbt::paths::Platform;

#[test]
fn an_entry_is_joined_to_the_target_directory_part_by_part() {
    assert_eq!(
        safe_entry_path("/sdk", "scripts/fbt.py", Platform::Unix),
        Some("/sdk/scripts/fbt.py".to_owned())
    );
    assert_eq!(
        safe_entry_path("C:\\sdk", "scripts/fbt.py", Platform::Windows),
        Some("C:\\sdk\\scripts\\fbt.py".to_owned())
    );
    assert_eq!(
        safe_entry_path("/sdk", "scripts\\toolchain\\fbtenv.sh", Platform::Unix),
        Some("/sdk/scripts/toolchain/fbtenv.sh".to_owned())
    );
}

#[test]
fn empty_parts_are_dropped() {
    assert_eq!(
        safe_entry_path("/sdk", "/scripts//fbt.py", Platform::Unix),
        Some("/sdk/scripts/fbt.py".to_owned())
    );
    assert_eq!(
        safe_entry_path("/sdk", "scripts/", Platform::Unix),
        Some("/sdk/scripts".to_owned())
    );
}

#[test]
fn an_entry_that_climbs_out_or_names_nothing_is_refused() {
    assert_eq!(safe_entry_path("/sdk", "../evil.sh", Platform::Unix), None);
    assert_eq!(safe_entry_path("/sdk", "a/../../evil.sh", Platform::Unix), None);
    assert_eq!(safe_entry_path("/sdk", "a\\..\\b", Platform::Unix), None);
    assert_eq!(safe_entry_path("/sdk", "./a", Platform::Unix), None);
    assert_eq!(safe_entry_path("/sdk", "", Platform::Unix), None);
    assert_eq!(safe_entry_path("/sdk", "//", Platform::Unix), None);
}

#[test]
fn dots_inside_a_name_are_fine() {
    assert_eq!(
        safe_entry_path("/sdk", "a/..b/.c/...", Platform::Unix),
        Some("/sdk/a/..b/.c/...".to_owned())
    );
}
