use driver_test_cli_v2::paths::{file_name, join_path};

#[test]
fn file_names() {
    for (path, name) in [
        (r"C:\DriverLogs\a.etl", "a.etl"),
        (r"C:\DriverLogs/a.etl", "a.etl"),
        (r"C:a.etl", "a.etl"),
        (r"a.etl", "a.etl"),
        (r"C:\DriverLogs\", "DriverLogs"),
        (r"C:\DriverLogs\.\", "DriverLogs"),
        (r"C:\DriverLogs\.hidden", ".hidden"),
        (r"C:\x\D:y", "D:y"),
        (r"1:\a", "a"),
        (r"1:a", "1:a"),
    ] {
        assert_eq!(file_name(path), name, "{path}");
    }
}

#[test]
fn file_names_behind_a_share_or_device() {
    for (path, name) in [
        (r"\\server\share\a.etl", "a.etl"),
        (r"\\server\share\dir\a.etl", "a.etl"),
        (r"//server/share/a.etl", "a.etl"),
        (r"\\.\COM42\a", "a"),
        (r"//?/C:/a", "a"),
        (r"\\server", "server"),
        (r"\\server\", "server"),
        (r"\\\share", "share"),
    ] {
        assert_eq!(file_name(path), name, "{path}");
    }
}

#[test]
fn file_names_in_verbatim_paths() {
    for (path, name) in [
        (r"\\?\C:\DriverLogs\a.etl", "a.etl"),
        (r"\\?\C:\DriverLogs\", "DriverLogs"),
        (r"\\?\C:\DriverLogs\b/a.etl", "b/a.etl"),
        (r"\\?\C:/a", "a"),
        (r"\\?\UNC\server\share\a.etl", "a.etl"),
        (r"\\?\UNC\server\\a", "a"),
        (r"\\?\volume\a.etl", "a.etl"),
        (r"\\?\C:x\a", "a"),
    ] {
        assert_eq!(file_name(path), name, "{path}");
    }
}

#[test]
fn paths_without_a_file_name() {
    for path in [
        "",
        ".",
        "..",
        r"C:",
        r"C:\",
        r"\",
        r"C:\a\..",
        r".\.",
        "//",
        r"\\server\share",
        r"\\server\share\",
        r"\\.\COM42",
        r"\\?\C:",
        r"\\?\C:\",
        r"\\?\C:\a\.",
        r"\\?\C:\a\..",
        r"\\?\volume",
        r"\\?\C:x",
        r"\\?\UNC\server",
        r"\\?\UNC\server\share",
        r"\\?\UNC/server\share",
    ] {
        assert_eq!(file_name(path), "", "{path}");
    }
}

#[test]
fn names_in_a_directory() {
    for (dir, path) in [
        (r"C:\out", r"C:\out\a"),
        (r"C:\out\", r"C:\out\a"),
        (r"out/", "out/a"),
        (r"C:", "C:a"),
        (r"1:", r"1:\a"),
        (r"", "a"),
        (r"/tmp/out", r"/tmp/out\a"),
        (r"\\server\share", r"\\server\share\a"),
    ] {
        assert_eq!(join_path(dir, "a"), path, "{dir}");
    }
    assert_eq!(join_path(r"C:\out", ""), r"C:\out\");
}

#[test]
fn paths_that_replace_the_directory() {
    for path in [r"D:x", r"D:\x", r"\\server\share", r"\\?\D:\x", r"\\.\COM42"] {
        for dir in ["", r"C:\out", r"\\?\C:\out", r"\\server\share"] {
            assert_eq!(join_path(dir, path), path, "{dir}");
        }
    }
}

#[test]
fn roots_keep_the_prefix_of_the_directory() {
    assert_eq!(join_path(r"C:\out", r"\x"), r"C:\x");
    assert_eq!(join_path(r"C:\out", r"/x"), r"C:/x");
    assert_eq!(join_path(r"out", r"\x"), r"\x");
    assert_eq!(join_path(r"\\server\share\out", r"\x"), r"\\server\share\x");
    assert_eq!(join_path(r"\\?\C:\out", r"/x/y"), r"\\?\C:\x\y");
}

#[test]
fn paths_in_a_verbatim_directory() {
    for (dir, path, whole) in [
        (r"\\?\C:\out", "a", r"\\?\C:\out\a"),
        (r"\\?\C:\out\", "a", r"\\?\C:\out\a"),
        (r"\\?\C:/out", "a", r"\\?\C:\out\a"),
        (r"\\?\C:", "a", r"\\?\C:\a"),
        (r"\\?\UNC\server\share\out", "a", r"\\?\UNC\server\share\out\a"),
        (r"\\?\C:\out\.", "a", r"\\?\C:\out\.\a"),
        (r"\\?\C:\out", "a/b", r"\\?\C:\out\a\b"),
        (r"\\?\C:\out", "./a", r"\\?\C:\out\a"),
        (r"\\?\C:\out", "../a", r"\\?\C:\a"),
        (r"\\?\C:\out", "../../a", r"\\?\C:\a"),
        (r"\\?\C:\out\..", "../a", r"\\?\C:\out\..\a"),
        (r"\\?\C:\out", "..", r"\\?\C:\"),
        (r"\\?\C:", "..", r"\\?\C:"),
        (r"\\?\C:\out", "", r"\\?\C:\out\"),
    ] {
        assert_eq!(join_path(dir, path), whole, "{dir} {path}");
    }
}

#[test]
fn file_in_a_directory_keeps_its_name() {
    for dir in ["", "a", "C:", r"C:\x", r"x\..", r"\\server\share", r"\\?\C:", r"\\?\C:\x"] {
        assert_eq!(file_name(&format!(r"{dir}\log.txt")), "log.txt");
    }
}
