use ufofmt::utils::{get_ufo_outpath, rfind_char, str_eq};

#[test]
fn test_get_ufo_outpath_default() {
    let op = get_ufo_outpath("one/two/three.ufo", &None, &None);
    assert_eq!(op.unwrap(), "one/two/three.ufo");
}

#[test]
fn test_get_ufo_path_unique_filename() {
    let op = get_ufo_outpath("one/two/three.ufo", &Some("-new".to_string()), &None);
    assert_eq!(op.unwrap(), "one/two/three-new.ufo");
}

#[test]
fn test_get_ufo_path_unique_extension_two_extensions_withperiod() {
    let op = get_ufo_outpath("one/two/three.ufo", &None, &Some(".fmt.ufo".to_string()));
    assert_eq!(op.unwrap(), "one/two/three.fmt.ufo");
}

#[test]
fn test_get_ufo_path_unique_extension_two_extensions_without_period() {
    let op = get_ufo_outpath("one/two/three.ufo", &None, &Some("fmt.ufo".to_string()));
    assert_eq!(op.unwrap(), "one/two/three.fmt.ufo");
}

#[test]
fn test_get_ufo_path_unique_extension_single_extension_with_period() {
    let op = get_ufo_outpath("one/two/three.ufo", &None, &Some(".fmt".to_string()));
    assert_eq!(op.unwrap(), "one/two/three.fmt");
}

#[test]
fn test_get_ufo_path_unique_extension_single_extension_without_period() {
    let op = get_ufo_outpath("one/two/three.ufo", &None, &Some("fmt".to_string()));
    assert_eq!(op.unwrap(), "one/two/three.fmt");
}

#[test]
fn test_get_ufo_path_unique_extension_empty_extension() {
    let op = get_ufo_outpath("one/two/three.ufo", &None, &Some("".to_string()));
    assert_eq!(op.unwrap(), "one/two/three");
}

#[test]
fn test_get_ufo_path_unique_extension_unique_dirname() {
    let op = get_ufo_outpath(
        "one/two/three.ufo",
        &Some("-new".to_string()),
        &Some("fmt".to_string()),
    );
    assert_eq!(op.unwrap(), "one/two/three-new.fmt");
}

#[test]
fn test_get_ufo_outpath_bare_filename() {
    let op = get_ufo_outpath("three.ufo", &Some("-new".to_string()), &None);
    assert_eq!(op.unwrap(), "three-new.ufo");
}

#[test]
fn test_get_ufo_outpath_trailing_separators_ignored() {
    // a trailing slash or `.` component does not hide the last real component
    let op = get_ufo_outpath("one/two/", &Some("-new".to_string()), &None);
    assert_eq!(op.unwrap(), "one/two-new");
    let op = get_ufo_outpath("one/two/.", &None, &Some("fmt".to_string()));
    assert_eq!(op.unwrap(), "one/two.fmt");
    let op = get_ufo_outpath("one/two/three.ufo/", &None, &None);
    assert_eq!(op.unwrap(), "one/two/three.ufo");
}

#[test]
fn test_get_ufo_outpath_no_stem_rejected() {
    assert!(get_ufo_outpath("one/two/..", &Some("-new".to_string()), &None).is_none());
    assert!(get_ufo_outpath("..", &None, &Some("fmt".to_string())).is_none());
    assert!(get_ufo_outpath(".", &Some("-new".to_string()), &None).is_none());
    assert!(get_ufo_outpath("/", &Some("-new".to_string()), &None).is_none());
    assert!(get_ufo_outpath("", &None, &None).is_none());
}

#[test]
fn test_get_ufo_outpath_hidden_name_keeps_dot() {
    let op = get_ufo_outpath("one/.config", &None, &Some("ufo".to_string()));
    assert_eq!(op.unwrap(), "one/.config.ufo");
}

#[test]
fn test_rfind_char_positions() {
    assert_eq!(rfind_char("one/two/three.ufo", '/'), Some(7));
    assert_eq!(rfind_char("one/two/three.ufo", '.'), Some(13));
    assert_eq!(rfind_char("three", '/'), None);
}

#[test]
fn test_str_eq_exact() {
    assert!(str_eq("plist", "plist"));
    assert!(!str_eq("aplist", "plist"));
    assert!(!str_eq("plist", "plis"));
    assert!(str_eq("", ""));
}
