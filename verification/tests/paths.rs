use cmakr::cmd::normalize_path;
use cmakr::cmd::preset_file_path;

#[test]
fn normalize_strips_extended_prefix() {
    assert_eq!(normalize_path(r"\\?\C:\work\out"), r"C:\work\out");
}

#[test]
fn normalize_keeps_plain_paths() {
    assert_eq!(normalize_path("/home/user/out"), "/home/user/out");
    assert_eq!(normalize_path(r"C:\work\out"), r"C:\work\out");
}

#[test]
fn normalize_keeps_short_paths() {
    assert_eq!(normalize_path(""), "");
    assert_eq!(normalize_path(r"\\?"), r"\\?");
}

#[test]
fn normalize_of_bare_prefix_is_empty() {
    assert_eq!(normalize_path(r"\\?\"), "");
}

#[test]
fn preset_file_is_joined_under_a_directory() {
    assert_eq!(preset_file_path("proj"), "proj/CMakePresets.json");
    assert_eq!(preset_file_path("./test/"), "./test/CMakePresets.json");
    assert_eq!(preset_file_path(""), "CMakePresets.json");
}

#[test]
fn preset_file_path_is_kept_as_is() {
    assert_eq!(preset_file_path("CMakePresets.json"), "CMakePresets.json");
    assert_eq!(preset_file_path("proj/CMakePresets.json"), "proj/CMakePresets.json");
}

#[test]
fn trailing_separators_do_not_hide_the_file_name() {
    assert_eq!(preset_file_path("CMakePresets.json/"), "CMakePresets.json/");
    assert_eq!(preset_file_path("proj/CMakePresets.json/"), "proj/CMakePresets.json/");
    assert_eq!(preset_file_path("proj/CMakePresets.json//"), "proj/CMakePresets.json//");
}

#[test]
fn preset_file_name_must_be_a_whole_component() {
    assert_eq!(
        preset_file_path("myCMakePresets.json"),
        "myCMakePresets.json/CMakePresets.json"
    );
}
