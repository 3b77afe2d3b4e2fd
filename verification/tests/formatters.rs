use ufofmt::errors::UfoFmtError;
use ufofmt::formatters::{format_ufo, get_indent_str};

// Writes a minimal, loadable UFO v3 bundle at `root`: a metainfo.plist and
// an empty default glyph layer.
fn write_minimal_ufo(root: &std::path::Path) {
    let glyphs = root.join("glyphs");
    fs_extra::dir::create_all(&glyphs, false).unwrap();
    let metainfo = "<?xml version=\"1.0\" encoding=\"UTF-8\"?>\n<!DOCTYPE plist PUBLIC \"-//Apple//DTD PLIST 1.0//EN\" \"http://www.apple.com/DTDs/PropertyList-1.0.dtd\">\n<plist version=\"1.0\">\n<dict>\n\t<key>creator</key>\n\t<string>org.linebender.norad</string>\n\t<key>formatVersion</key>\n\t<integer>3</integer>\n</dict>\n</plist>\n";
    fs_extra::file::write_all(root.join("metainfo.plist"), metainfo).unwrap();
    let layercontents = "<?xml version=\"1.0\" encoding=\"UTF-8\"?>\n<!DOCTYPE plist PUBLIC \"-//Apple//DTD PLIST 1.0//EN\" \"http://www.apple.com/DTDs/PropertyList-1.0.dtd\">\n<plist version=\"1.0\">\n<array>\n\t<array>\n\t\t<string>public.default</string>\n\t\t<string>glyphs</string>\n\t</array>\n</array>\n</plist>\n";
    fs_extra::file::write_all(root.join("layercontents.plist"), layercontents).unwrap();
    let contents = "<?xml version=\"1.0\" encoding=\"UTF-8\"?>\n<!DOCTYPE plist PUBLIC \"-//Apple//DTD PLIST 1.0//EN\" \"http://www.apple.com/DTDs/PropertyList-1.0.dtd\">\n<plist version=\"1.0\">\n<dict>\n</dict>\n</plist>\n";
    fs_extra::file::write_all(glyphs.join("contents.plist"), contents).unwrap();
}

// ~~~~~~~~~~~~~~~
// Path validation
// ~~~~~~~~~~~~~~~

#[test]
fn test_format_ufo_invalid_dir_path_default() {
    let invalid_path = "totally/bogus/path/test.ufo";
    let res = format_ufo(invalid_path, &None, &None, false, false, 1);
    match res {
        Ok(x) => panic!("failed with unexpected test result: {:?}", x),
        Err(err) => {
            assert!(matches!(err, UfoFmtError::InvalidPath(_)));
        }
    }
    assert!(!std::path::Path::new(invalid_path).exists());
}

// ~~~~~~~~~~~~
// Custom paths
// ~~~~~~~~~~~~

#[test]
fn test_format_ufo_invalid_dir_path_with_custom_names() {
    let invalid_path = "totally/bogus/path/test.ufo";
    let res = format_ufo(
        invalid_path,
        &Some("_new".to_string()),
        &Some(".test".to_string()),
        false,
        false,
        1,
    );
    match res {
        Ok(x) => panic!("failed with unexpected test result: {:?}", x),
        Err(err) => {
            assert!(matches!(err, UfoFmtError::InvalidPath(_)));
        }
    }
    let new_path = std::path::Path::new("totally/bogus/path/test_new.test");
    assert!(!new_path.exists());
}

#[test]
fn test_format_ufo_valid_dir_path_default() {
    // setup: the source tree is built in a scratch directory
    let scratch_dir = tempdir::TempDir::new("test").unwrap();
    let tmp_dir = tempdir::TempDir::new("test").unwrap();
    let src_ufo_path = scratch_dir.path().join("testdata/ufo/MutatorSansBoldCondensed.ufo");
    write_minimal_ufo(&src_ufo_path);
    assert!(&src_ufo_path.exists());
    assert!(&tmp_dir.path().exists());
    let options = fs_extra::dir::CopyOptions::new();
    let res_ufo_copy = fs_extra::dir::copy(&src_ufo_path, tmp_dir.path(), &options);
    assert!(res_ufo_copy.is_ok());
    let test_ufo_path = tmp_dir.path().join("MutatorSansBoldCondensed.ufo");

    // test run of formatter across valid UFO sources
    let res_ufo_format = format_ufo(test_ufo_path.to_str().unwrap(), &None, &None, false, false, 1);
    assert!(res_ufo_format.is_ok());
    assert_eq!(res_ufo_format.unwrap(), test_ufo_path.to_str().unwrap());
    assert!(&test_ufo_path.exists());
}

#[test]
fn test_format_ufo_valid_dir_path_with_custom_names() {
    // setup: the source tree is built in a scratch directory
    let scratch_dir = tempdir::TempDir::new("test").unwrap();
    let tmp_dir = tempdir::TempDir::new("test").unwrap();
    let src_ufo_path = scratch_dir.path().join("testdata/ufo/MutatorSansBoldCondensed.ufo");
    write_minimal_ufo(&src_ufo_path);
    assert!(&src_ufo_path.exists());
    assert!(&tmp_dir.path().exists());
    let options = fs_extra::dir::CopyOptions::new();
    let res_ufo_copy = fs_extra::dir::copy(&src_ufo_path, tmp_dir.path(), &options);
    assert!(res_ufo_copy.is_ok());
    let test_ufo_path = tmp_dir.path().join("MutatorSansBoldCondensed.ufo");

    // test run of formatter across valid UFO sources
    let res_ufo_format = format_ufo(
        test_ufo_path.to_str().unwrap(),
        &Some("_new".to_string()),
        &Some("test".to_string()),
        false,
        false,
        1,
    );
    assert!(res_ufo_format.is_ok());
    let expected_path = tmp_dir.path().join("MutatorSansBoldCondensed_new.test");
    assert_eq!(res_ufo_format.unwrap(), expected_path.to_str().unwrap());
    assert!(expected_path.exists() && expected_path.is_dir());
}

// Indentation spacing format tests

#[test]
fn test_get_indent_str() {
    let onetab = get_indent_str(false, 1);
    let twotabs = get_indent_str(false, 2);
    let threetabs = get_indent_str(false, 3);
    let fourtabs = get_indent_str(false, 4);
    let onespace = get_indent_str(true, 1);
    let twospaces = get_indent_str(true, 2);
    let threespaces = get_indent_str(true, 3);
    let fourspaces = get_indent_str(true, 4);

    assert_eq!(onetab, "\t");
    assert_eq!(twotabs, "\t\t");
    assert_eq!(threetabs, "\t\t\t");
    assert_eq!(fourtabs, "\t\t\t\t");
    assert_eq!(onespace, " ");
    assert_eq!(twospaces, "  ");
    assert_eq!(threespaces, "   ");
    assert_eq!(fourspaces, "    ");
}

#[test]
fn test_format_indent_onetab_metainfo_plist() {
    let tmp_dir = tempdir::TempDir::new("test").unwrap();
    let ufo = tmp_dir.path().join("Minimal.ufo");
    write_minimal_ufo(&ufo);
    let res = format_ufo(ufo.to_str().unwrap(), &None, &None, false, false, 1);
    assert!(res.is_ok());
    let metainfo = fs_extra::file::read_to_string(ufo.join("metainfo.plist")).unwrap();
    assert!(metainfo.contains("\n\t<key>"));
    assert!(!metainfo.contains("\n\t\t<key>"));
    assert!(!metainfo.contains("\n <key>"));
}

#[test]
fn test_format_indent_fourspace_metainfo_plist() {
    let tmp_dir = tempdir::TempDir::new("test").unwrap();
    let ufo = tmp_dir.path().join("Minimal.ufo");
    write_minimal_ufo(&ufo);
    let res = format_ufo(ufo.to_str().unwrap(), &None, &None, false, true, 4);
    assert!(res.is_ok());
    let metainfo = fs_extra::file::read_to_string(ufo.join("metainfo.plist")).unwrap();
    assert!(metainfo.contains("\n    <key>"));
    assert!(!metainfo.contains("\n\t<key>"));
}

// Quote style format tests

#[test]
fn test_format_singlequote_metainfo_plist() {
    let tmp_dir = tempdir::TempDir::new("test").unwrap();
    let ufo = tmp_dir.path().join("Minimal.ufo");
    write_minimal_ufo(&ufo);
    let res = format_ufo(ufo.to_str().unwrap(), &None, &None, true, false, 2);
    assert!(res.is_ok());
    let metainfo = fs_extra::file::read_to_string(ufo.join("metainfo.plist")).unwrap();
    assert!(metainfo.starts_with("<?xml version='1.0' encoding='UTF-8'?>"));
}

#[test]
fn test_format_doublequote_metainfo_plist() {
    let tmp_dir = tempdir::TempDir::new("test").unwrap();
    let ufo = tmp_dir.path().join("Minimal.ufo");
    write_minimal_ufo(&ufo);
    let res = format_ufo(ufo.to_str().unwrap(), &None, &None, false, false, 2);
    assert!(res.is_ok());
    let metainfo = fs_extra::file::read_to_string(ufo.join("metainfo.plist")).unwrap();
    assert!(metainfo.starts_with("<?xml version=\"1.0\" encoding=\"UTF-8\"?>"));
}

// Round-trip stability

#[test]
fn test_format_twice_is_byte_identical() {
    let tmp_dir = tempdir::TempDir::new("test").unwrap();
    let ufo = tmp_dir.path().join("Minimal.ufo");
    write_minimal_ufo(&ufo);
    let res = format_ufo(ufo.to_str().unwrap(), &None, &None, true, true, 3);
    assert!(res.is_ok());
    let metainfo_once = fs_extra::file::read_to_string(ufo.join("metainfo.plist")).unwrap();
    let layers_once = fs_extra::file::read_to_string(ufo.join("layercontents.plist")).unwrap();
    let contents_once =
        fs_extra::file::read_to_string(ufo.join("glyphs").join("contents.plist")).unwrap();

    let res2 = format_ufo(ufo.to_str().unwrap(), &None, &None, true, true, 3);
    assert!(res2.is_ok());
    let metainfo_twice = fs_extra::file::read_to_string(ufo.join("metainfo.plist")).unwrap();
    let layers_twice = fs_extra::file::read_to_string(ufo.join("layercontents.plist")).unwrap();
    let contents_twice =
        fs_extra::file::read_to_string(ufo.join("glyphs").join("contents.plist")).unwrap();

    assert_eq!(metainfo_once, metainfo_twice);
    assert_eq!(layers_once, layers_twice);
    assert_eq!(contents_once, contents_twice);
}

// Error variants from the codec

#[test]
fn test_format_ufo_read_error_not_a_ufo() {
    let tmp_dir = tempdir::TempDir::new("test").unwrap();
    let not_ufo = tmp_dir.path().join("Empty.ufo");
    fs_extra::dir::create_all(&not_ufo, false).unwrap();
    let res = format_ufo(not_ufo.to_str().unwrap(), &None, &None, false, false, 2);
    match res {
        Ok(x) => panic!("failed with unexpected test result: {:?}", x),
        Err(err) => {
            assert!(matches!(&err, UfoFmtError::Read(_, _, _)));
            assert!(err.message().starts_with("norad read error: "));
        }
    }
}

#[test]
fn test_format_ufo_write_error_missing_out_parent() {
    let tmp_dir = tempdir::TempDir::new("test").unwrap();
    let ufo = tmp_dir.path().join("Minimal.ufo");
    write_minimal_ufo(&ufo);
    // the resolved output path lies under a directory that does not exist
    let res = format_ufo(
        ufo.to_str().unwrap(),
        &Some("_new/Deeper".to_string()),
        &None,
        false,
        false,
        2,
    );
    match res {
        Ok(x) => panic!("failed with unexpected test result: {:?}", x),
        Err(err) => {
            assert!(matches!(&err, UfoFmtError::Write(_, _, _)));
            assert!(err.message().starts_with("norad write error: "));
        }
    }
}

#[test]
fn test_format_ufo_stemless_path_with_custom_names() {
    // the path exists but has no file stem to build an output name on
    let res = format_ufo("..", &Some("_new".to_string()), &None, false, false, 2);
    assert!(matches!(res, Err(UfoFmtError::InvalidPath(_))));
}

#[test]
fn test_format_ufo_trailing_slash_with_custom_names() {
    let tmp_dir = tempdir::TempDir::new("test").unwrap();
    let ufo = tmp_dir.path().join("Minimal.ufo");
    write_minimal_ufo(&ufo);
    let with_slash = format!("{}/", ufo.to_str().unwrap());
    let res = format_ufo(
        with_slash.as_str(),
        &Some("_new".to_string()),
        &Some("test".to_string()),
        false,
        false,
        2,
    );
    assert!(res.is_ok());
    let expected_path = tmp_dir.path().join("Minimal_new.test");
    assert_eq!(res.unwrap(), expected_path.to_str().unwrap());
    assert!(expected_path.exists() && expected_path.is_dir());
}
