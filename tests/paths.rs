use trash::path::{file_name, join_path};
use trash::trash::{
    data_home_from, data_home_var, default_data_home, files_path, home_var, info_file_path,
    plan_placement, trash_dir, trash_info, trash_path_from, VarError,
};

#[test]
fn file_name_is_the_last_component() {
    assert_eq!(file_name("/path/to/foo"), Some(String::from("foo")));
    assert_eq!(file_name("foo"), Some(String::from("foo")));
    assert_eq!(file_name("foo/"), Some(String::from("foo")));
    assert_eq!(file_name("/a/b//"), Some(String::from("b")));
    assert_eq!(file_name("a/."), Some(String::from("a")));
    assert_eq!(file_name("a/./"), Some(String::from("a")));
    assert_eq!(file_name("./a"), Some(String::from("a")));
    assert_eq!(file_name("../a"), Some(String::from("a")));
    assert_eq!(file_name("dir/.hidden"), Some(String::from(".hidden")));
    assert_eq!(file_name("dir/..."), Some(String::from("...")));
    assert_eq!(file_name("/tmp/résumé.txt"), Some(String::from("résumé.txt")));
}

#[test]
fn some_paths_have_no_file_name() {
    assert_eq!(file_name(""), None);
    assert_eq!(file_name("/"), None);
    assert_eq!(file_name("//"), None);
    assert_eq!(file_name("."), None);
    assert_eq!(file_name("./"), None);
    assert_eq!(file_name("/."), None);
    assert_eq!(file_name(".."), None);
    assert_eq!(file_name("a/.."), None);
    assert_eq!(file_name("a/../"), None);
}

#[test]
fn joining_puts_one_separator_between() {
    assert_eq!(join_path("/a", "b"), "/a/b");
    assert_eq!(join_path("/a/", "b"), "/a/b");
    assert_eq!(join_path("", "b"), "b");
    assert_eq!(join_path("/", "b"), "/b");
}

#[test]
fn trash_directories() {
    assert_eq!(trash_dir("/xdg-data-dir"), "/xdg-data-dir/Trash");
    assert_eq!(default_data_home("/home/alice"), "/home/alice/.local/share");
    let xdg = || Ok(String::from("/xdg-data-dir"));
    let home = || Ok(String::from("/home/alice"));
    assert_eq!(trash_path_from(xdg(), None), Ok(String::from("/xdg-data-dir/Trash")));
    assert_eq!(trash_path_from(xdg(), Some(home())), Ok(String::from("/xdg-data-dir/Trash")));
    assert_eq!(
        trash_path_from(Err(VarError::NotPresent), Some(home())),
        Ok(String::from("/home/alice/.local/share/Trash"))
    );
    assert_eq!(
        trash_path_from(Err(VarError::NotPresent), Some(Err(VarError::NotUnicode))),
        Err(VarError::NotUnicode)
    );
    assert_eq!(
        trash_path_from(Err(VarError::NotUnicode), None),
        Err(VarError::NotUnicode)
    );
}

#[test]
fn variables_and_data_directory() {
    assert_eq!(data_home_var(), "XDG_DATA_HOME");
    assert_eq!(home_var(), "HOME");
    assert_eq!(
        data_home_from(Ok(String::from("/home/alice"))),
        Ok(String::from("/home/alice/.local/share"))
    );
    assert_eq!(data_home_from(Err(VarError::NotPresent)), Err(VarError::NotPresent));
}

#[test]
fn record_and_destination_paths() {
    assert_eq!(
        info_file_path("/xdg-data-dir/Trash", "foo"),
        "/xdg-data-dir/Trash/info/foo.trashinfo"
    );
    assert_eq!(
        info_file_path("/xdg-data-dir/Trash", "foo.tar.gz"),
        "/xdg-data-dir/Trash/info/foo.tar.gz.trashinfo"
    );
    assert_eq!(files_path("/xdg-data-dir/Trash", "foo"), "/xdg-data-dir/Trash/files/foo");
}

#[test]
fn record_text_has_three_lines_and_no_final_newline() {
    assert_eq!(
        trash_info("/path/to/foo", "2004-08-31T22:32:08.000000+00:00"),
        "[Trash Info]\nPath=/path/to/foo\nDeletionDate=2004-08-31T22:32:08.000000+00:00"
    );
    assert_eq!(
        trash_info("./relative path", "D"),
        "[Trash Info]\nPath=./relative path\nDeletionDate=D"
    );
}

#[test]
fn plan_placement_needs_a_file_name() {
    let placement = plan_placement("/path/to/foo", "/t", "D").unwrap();
    assert_eq!(placement.info_path, "/t/info/foo.trashinfo");
    assert_eq!(placement.files_path, "/t/files/foo");
    assert_eq!(placement.info_contents, "[Trash Info]\nPath=/path/to/foo\nDeletionDate=D");
    assert!(plan_placement("/", "/t", "D").is_none());
}

