use fwcloud_agent::errors::FwcError;
use fwcloud_agent::utils::files_list::FilesList;
use rand::Rng;
use uuid::Uuid;

fn names_factory(n: usize) -> Vec<String> {
    let mut names: Vec<String> = vec![];
    for _ in 0..n {
        names.push(Uuid::new_v4().to_string());
    }
    names
}

fn files_list_factory(n: usize) -> FilesList {
    // Directory with a random name.
    let dir = format!("./tests/playground/tmp/{}", Uuid::new_v4());
    FilesList::new(&dir, names_factory(n))
}

#[test]
fn head_remove_empty_result_if_file_not_exists() {
    let _fl = files_list_factory(5);
    let empty: Vec<String> = vec![];
    let head = FilesList::head_remove(None, 100);
    assert_eq!(head.data, empty);
    assert_eq!(head.rest, None);
}

#[test]
fn len_for_zero_files() {
    let fl = files_list_factory(0);
    assert_eq!(fl.len(), 0);
}

#[test]
fn len_for_some_files() {
    let n = rand::rng().random_range(1..6);
    let fl = files_list_factory(n);
    assert_eq!(fl.len(), n);
}

#[test]
fn right_file_name() {
    let names = names_factory(5);
    let fl = FilesList::new("./tests/playground/tmp/x", names.clone());
    let inx = rand::rng().random_range(0..5);
    assert_eq!(fl.name(inx), names[inx]);
}

#[test]
fn directory_not_exists() {
    let fl = files_list_factory(0);
    assert!(!fl.dir_exists());
}

#[test]
fn directory_of_the_machine_exists() {
    let fl = FilesList::new("/", vec![]);
    assert!(fl.dir_exists());
}

#[test]
fn get_directory() {
    let dir = format!("./tests/playground/tmp/{}", Uuid::new_v4());
    let fl = FilesList::new(&dir, vec![]);
    assert_eq!(fl.dir(), dir);
}

#[test]
fn rename_file() {
    let mut fl = files_list_factory(5);
    let inx = rand::rng().random_range(0..5);
    let new_file_name = "new_file_name";

    fl.rename(inx, new_file_name);
    assert_eq!(fl.name(inx), new_file_name);
}

#[test]
fn rename_leaves_the_other_files() {
    let names = names_factory(3);
    let mut fl = FilesList::new("/d", names.clone());
    fl.rename(1, "other");
    assert_eq!(fl.name(0), names[0]);
    assert_eq!(fl.name(1), "other");
    assert_eq!(fl.name(2), names[2]);
    assert_eq!(fl.len(), 3);
}

#[test]
fn change_directory() {
    let mut fl = files_list_factory(0);
    let new_directory_name = "./new_directory_name";

    fl.chdir(new_directory_name);
    assert_eq!(fl.dir(), new_directory_name);
}

#[test]
fn path_joins_directory_and_name() {
    let fl = FilesList::new("/etc/openvpn", vec![String::from("a.conf"), String::from("b.conf")]);
    assert_eq!(fl.path(0), "/etc/openvpn/a.conf");
    assert_eq!(fl.path(1), "/etc/openvpn/b.conf");
}

#[test]
fn remove_returns_error_if_dir_not_exists() {
    let fl = files_list_factory(0);

    match fl.remove() {
        Err(e) => match e {
            FwcError::DirNotFound => assert!(true),
            _ => return assert!(false),
        },
        Ok(_) => panic!("Error expected"),
    }
}

#[test]
fn remove_gives_the_paths_of_all_files() {
    let fl = FilesList::new("/d", vec![String::from("a"), String::from("b")]);
    assert_eq!(
        fl.remove_in(true).unwrap(),
        vec![String::from("/d/a"), String::from("/d/b")]
    );
    assert!(matches!(fl.remove_in(false), Err(FwcError::DirNotFound)));
}

#[test]
fn get_files_in_dir_returns_error_if_dir_not_exists() {
    let mut fl = files_list_factory(0);

    match fl.get_files_in_dir(vec![]) {
        Err(e) => match e {
            FwcError::DirNotFound => assert!(true),
            _ => return assert!(false),
        },
        Ok(_) => panic!("Error expected"),
    }
}

#[test]
fn add_files_puts_names_behind_those_of_the_list() {
    let mut fl = FilesList::new("/d", vec![String::from("a")]);
    fl.add_files(true, vec![String::from("b"), String::from("c")])
        .unwrap();
    assert_eq!(fl.len(), 3);
    assert_eq!(fl.name(0), "a");
    assert_eq!(fl.name(1), "b");
    assert_eq!(fl.name(2), "c");
    assert!(matches!(
        fl.add_files(false, vec![String::from("d")]),
        Err(FwcError::DirNotFound)
    ));
    assert_eq!(fl.len(), 3);
}

#[test]
fn sha256_gives_empty_result_if_dir_not_exists() {
    let fl = files_list_factory(0);
    assert_eq!(
        fl.sha256(false, &vec![]).unwrap(),
        String::from("file,sha256\n")
    );
}

#[test]
fn sha256_of_known_contents() {
    let fl = FilesList::new(
        "/d",
        vec![String::from("empty"), String::from("gone"), String::from("abc")],
    );
    let contents = vec![Some(vec![]), None, Some(b"abc".to_vec())];
    assert_eq!(
        fl.sha256(false, &contents).unwrap(),
        "file,sha256\n\
         empty,e3b0c44298fc1c149afbf4c8996fb92427ae41e4649b934ca495991b7852b855\n\
         abc,ba7816bf8f01cfea414140de5dae2223b00361a396177a9cb410ff61f20015ad\n"
    );
}

#[test]
fn sha256_without_comments_is_that_of_the_other_lines() {
    let fl = FilesList::new("/d", vec![String::from("f")]);
    let with_comments = vec![Some(b"# First comment line!\nabc\n# Second comment line!\n".to_vec())];
    let without = vec![Some(b"abc\n".to_vec())];
    assert_eq!(
        fl.sha256(true, &with_comments).unwrap(),
        fl.sha256(false, &without).unwrap()
    );
    assert_ne!(
        fl.sha256(false, &with_comments).unwrap(),
        fl.sha256(false, &without).unwrap()
    );
    // No comments in the file, then the result must be the same.
    assert_eq!(
        fl.sha256(true, &without).unwrap(),
        fl.sha256(false, &without).unwrap()
    );
}

#[test]
fn sha256_without_comments_needs_text() {
    let fl = FilesList::new("/d", vec![String::from("f")]);
    let contents = vec![Some(vec![0xff, 0xfe])];
    match fl.sha256(true, &contents) {
        Err(FwcError::IOError(text)) => assert_eq!(text, "stream did not contain valid UTF-8"),
        _ => panic!("Error expected"),
    }
    assert!(fl.sha256(false, &contents).is_ok());
}

#[test]
fn strip_comments_keeps_the_other_lines() {
    assert_eq!(FilesList::strip_comments("#a\nb\r\n\n#c\nd"), "b\n\nd\n");
    assert_eq!(FilesList::strip_comments(""), "");
}

#[test]
fn dump_gives_the_lines() {
    assert_eq!(
        FilesList::dump("one\ntwo\r\nthree"),
        vec![String::from("one"), String::from("two"), String::from("three")]
    );
    assert_eq!(FilesList::dump("one\n"), vec![String::from("one")]);
    assert_eq!(FilesList::dump(""), Vec::<String>::new());
}

#[test]
fn head_remove_takes_the_whole_file() {
    let head = FilesList::head_remove(Some("a\nb\nc\n"), 100);
    assert_eq!(head.data.join("\n"), "a\nb\nc");
    assert_eq!(head.rest, Some(String::new()));
}

#[test]
fn head_remove_takes_line_by_line() {
    let mut content = String::from("a\nb\nc\n");
    let lines = ["a", "b", "c"];
    for i in 0..3 {
        let head = FilesList::head_remove(Some(&content), 1);
        assert_eq!(head.data[0], lines[i]);
        content = head.rest.unwrap();
        assert_eq!(FilesList::dump(&content).len(), 3 - (i + 1));
    }
}

#[test]
fn head_remove_takes_two_lines_at_most() {
    let head = FilesList::head_remove(Some("a\nb\nc\n"), 2);
    assert_eq!(head.data, vec![String::from("a"), String::from("b")]);
    assert_eq!(head.rest, Some(String::from("c\n")));
    let head = FilesList::head_remove(Some("a\nb\nc"), 0);
    assert_eq!(head.data.len(), 0);
    assert_eq!(head.rest, Some(String::from("a\nb\nc\n")));
}
