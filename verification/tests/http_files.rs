use fwcloud_agent::errors::FwcError;
use fwcloud_agent::utils::cmd::{CmdRun, StreamEnd};
use fwcloud_agent::utils::http_files::{FieldStep, FileData, HttpFiles, Part};
use fwcloud_agent::utils::ws::WsData;

#[test]
fn unix_permissions_to_u32() {
    let mut item = HttpFiles::new("", false);

    item.perms = String::from("777");
    item.perms_to_u32();
    assert_eq!(item.perms_u32, 511);

    item.perms = String::from("644");
    item.perms_to_u32();
    assert_eq!(item.perms_u32, 420);

    item.perms = String::from("650");
    item.perms_to_u32();
    assert_eq!(item.perms_u32, 424);
}

#[test]
fn new_request_has_the_defaults() {
    let item = HttpFiles::new("./tmp", true);
    assert_eq!(item.tmp_dir, "./tmp");
    assert!(item.create_dst_dir);
    assert_eq!(item.dst_dir, "");
    assert_eq!(item.perms, "640");
    assert_eq!(item.perms_u32, 420);
    assert_eq!(item.max_files, 1000);
    assert_eq!(item.max_file_size, 10_485_760);
    assert_eq!(item.expected_files, 0);
    assert_eq!(item.n_files, 0);
    assert_eq!(item.ws_id, 0);
    assert_eq!(item.files.len(), 0);
}

#[test]
fn file_before_directory_is_refused() {
    let mut item = HttpFiles::new("./tmp", false);
    assert!(matches!(
        item.accept_part(String::from("a.conf"), 1),
        Err(FwcError::DstDirFirst)
    ));
    assert_eq!(item.n_files, 0);
    assert!(!matches!(
        item.extract_multipart_data("a.conf"),
        Ok(Part::File(_))
    ));
}

#[test]
fn part_without_file_name_is_a_parameter() {
    let mut item = HttpFiles::new("./tmp", false);
    assert!(matches!(
        item.accept_part(String::new(), 1),
        Ok(Part::Parameter)
    ));
    assert!(matches!(item.extract_multipart_data(""), Ok(Part::Parameter)));
}

#[test]
fn file_gets_its_entry() {
    let mut item = HttpFiles::new("./tmp", false);
    item.store_field("dst_dir", &b"/etc/openvpn".to_vec()).unwrap();
    let random = 0xa1a2a3a4b1b2c1c2d1d2d3d4d5d6d7d8u128;
    match item.accept_part(String::from("server.conf"), random) {
        Ok(Part::File(file)) => {
            assert_eq!(file.src_name, "a1a2a3a4-b1b2-c1c2-d1d2-d3d4d5d6d7d8.tmp");
            assert_eq!(
                file.src_path,
                "./tmp/a1a2a3a4-b1b2-c1c2-d1d2-d3d4d5d6d7d8.tmp"
            );
            assert_eq!(file.dst_path, "/etc/openvpn/server.conf");
            assert_eq!(file.dst_name, "server.conf");
            assert_eq!(file.size, 0);
            item.end_file(file);
        }
        _ => panic!("File expected"),
    }
    assert_eq!(item.n_files, 1);
    assert_eq!(item.files.len(), 1);
}

#[test]
fn file_name_is_cleaned() {
    let mut item = HttpFiles::new("./tmp", false);
    item.store_field("dst_dir", &b"/d".to_vec()).unwrap();
    match item.extract_multipart_data("../se:rver.conf") {
        Ok(Part::File(file)) => {
            assert_eq!(file.dst_name, "..server.conf");
            assert_eq!(file.dst_path, "/d/..server.conf");
            assert!(file.src_name.ends_with(".tmp"));
            assert_eq!(file.src_path, format!("./tmp/{}", file.src_name));
        }
        _ => panic!("File expected"),
    }
}

#[test]
fn file_name_of_nothing_but_refuse_is_no_file_name() {
    let mut item = HttpFiles::new("./tmp", false);
    item.store_field("dst_dir", &b"/d".to_vec()).unwrap();
    assert!(matches!(
        item.extract_multipart_data("//::"),
        Ok(Part::Parameter)
    ));
    assert_eq!(item.n_files, 0);
    // No reason to refuse a file: the part is taken in.
    match item.extract_multipart_data("a.conf") {
        Ok(Part::File(file)) => {
            assert_eq!(file.dst_name, "a.conf");
            assert!(file.dst_name.chars().count() <= "a.conf".chars().count());
            assert_eq!(file.size, 0);
        }
        _ => panic!("File expected"),
    }
    assert_eq!(item.n_files, 1);
}

#[test]
fn one_file_too_many_is_refused() {
    let mut item = HttpFiles::new("./tmp", false);
    item.store_field("dst_dir", &b"/d".to_vec()).unwrap();
    item.max_files = 1;
    assert!(matches!(
        item.accept_part(String::from("a"), 1),
        Ok(Part::File(_))
    ));
    assert!(matches!(
        item.accept_part(String::from("b"), 2),
        Err(FwcError::TooManyFiles)
    ));
    assert_eq!(item.n_files, 2);

    let mut item = HttpFiles::new("./tmp", false);
    item.store_field("dst_dir", &b"/d".to_vec()).unwrap();
    item.expect_script();
    assert!(matches!(
        item.accept_part(String::from("a"), 1),
        Ok(Part::File(_))
    ));
    assert!(matches!(
        item.accept_part(String::from("b"), 2),
        Err(FwcError::MoreFilesThanExpected)
    ));
}

fn file_of(size: usize) -> FileData {
    FileData {
        src_path: String::new(),
        src_name: String::new(),
        dst_path: String::new(),
        dst_name: String::new(),
        size,
    }
}

#[test]
fn too_big_file_is_refused() {
    let mut item = HttpFiles::new("./tmp", false);
    item.max_file_size = 10;
    let mut file = file_of(0);
    assert!(item.add_chunk(&mut file, 6).is_ok());
    assert_eq!(file.size, 6);
    assert!(item.add_chunk(&mut file, 4).is_ok());
    assert_eq!(file.size, 10);
    assert!(matches!(
        item.add_chunk(&mut file, 1),
        Err(FwcError::TooBigFile)
    ));
    assert_eq!(file.size, 10);
    item.max_file_size = 0;
    assert!(item.add_chunk(&mut file, 1000).is_ok());
    assert_eq!(file.size, 1010);
    let mut file = file_of(usize::MAX);
    assert!(matches!(
        item.add_chunk(&mut file, 1),
        Err(FwcError::TooBigFile)
    ));
}

#[test]
fn parameters_are_stored() {
    let mut item = HttpFiles::new("./tmp", false);
    item.store_field("dst_dir", &b"/etc".to_vec()).unwrap();
    item.store_field("dst_dir", &b"/openvpn".to_vec()).unwrap();
    assert_eq!(item.dst_dir, "/etc/openvpn");
    item.store_field("perms", &b"600".to_vec()).unwrap();
    assert_eq!(item.perms, "600");
    item.store_field("ws_id", &vec![0x61, 0xe9]).unwrap();
    assert_eq!(item.ws_id_buf, "a\u{e9}");
    assert!(matches!(
        item.store_field("other", &b"x".to_vec()),
        Err(FwcError::NotAllowedParameter)
    ));
    assert!(matches!(
        item.extract_field_data("other", &b"x".to_vec()),
        Err(FwcError::NotAllowedParameter)
    ));
    assert!(matches!(
        item.extract_field_data("perms", &b"640".to_vec()),
        Ok(FieldStep::Go)
    ));
}

#[test]
fn missing_directory_is_made_or_refused() {
    let mut item = HttpFiles::new("./tmp", true);
    assert!(matches!(
        item.check_field("dst_dir", false),
        Ok(FieldStep::CreateDstDir)
    ));
    assert!(matches!(item.check_field("dst_dir", true), Ok(FieldStep::Go)));
    let mut item = HttpFiles::new("./tmp", false);
    assert!(matches!(
        item.check_field("dst_dir", false),
        Err(FwcError::DirNotFound)
    ));
    assert!(matches!(
        item.extract_field_data("dst_dir", &b"/no/such/directory/anywhere".to_vec()),
        Err(FwcError::DirNotFound)
    ));
    assert!(matches!(
        item.extract_field_data("dst_dir", &vec![]),
        Err(FwcError::DirNotFound)
    ));
}

#[test]
fn parameters_are_taken_in() {
    let mut item = HttpFiles::new("./tmp", true);
    assert!(matches!(
        item.extract_field_data("dst_dir", &b"/no/such/directory".to_vec()),
        Ok(FieldStep::CreateDstDir)
    ));
    assert_eq!(item.dst_dir, "/no/such/directory");
    let mut item = HttpFiles::new("./tmp", false);
    assert!(matches!(
        item.extract_field_data("dst_dir", &b"/".to_vec()),
        Ok(FieldStep::Go)
    ));
    assert_eq!(item.dst_dir, "/");
    assert!(matches!(
        item.extract_field_data("ws_id", &b"a1a2a3a4-b1b2-c1c2-".to_vec()),
        Err(FwcError::WebSocketIdBad)
    ));
    assert_eq!(item.ws_id, 0);
    assert!(matches!(
        item.extract_field_data("ws_id", &b"d1d2-d3d4d5d6d7d8".to_vec()),
        Ok(FieldStep::Go)
    ));
    assert_eq!(item.ws_id, 0xa1a2a3a4b1b2c1c2d1d2d3d4d5d6d7d8u128);
    assert_eq!(item.ws_id_buf, "a1a2a3a4-b1b2-c1c2-d1d2-d3d4d5d6d7d8");
}

#[test]
fn session_identifier_is_read() {
    let mut item = HttpFiles::new("./tmp", false);
    item.store_field("ws_id", &b"a1a2a3a4-b1b2-c1c2-d1d2-d3d4d5d6d7d8".to_vec())
        .unwrap();
    assert!(matches!(item.check_field("ws_id", false), Ok(FieldStep::Go)));
    assert_eq!(item.ws_id, 0xa1a2a3a4b1b2c1c2d1d2d3d4d5d6d7d8u128);

    let mut item = HttpFiles::new("./tmp", false);
    assert!(matches!(
        item.extract_field_data("ws_id", &b"no identifier".to_vec()),
        Err(FwcError::WebSocketIdBad)
    ));
    assert_eq!(item.ws_id, 0);
}

#[test]
fn check_data_says_what_is_missing() {
    let mut item = HttpFiles::new("./tmp", false);
    item.perms = String::from("64");
    match item.check_data() {
        Err(FwcError::Validation(text)) => assert_eq!(text, "perms: Invalid file permissions"),
        _ => panic!("Error expected"),
    }
    item.perms = String::from("648");
    assert!(matches!(item.check_data(), Err(FwcError::Validation(_))));
    item.perms = String::from("600");
    match item.check_data() {
        Err(FwcError::Internal(text)) => assert_eq!(
            text,
            "Destination directory parameter not found in multipart/form-data stream"
        ),
        _ => panic!("Error expected"),
    }
    item.dst_dir = String::from("/d");
    assert!(matches!(item.check_data(), Err(FwcError::AtLeastOneFile)));
    item.end_file(file_of(1));
    item.expected_files = 2;
    item.n_files = 1;
    assert!(matches!(
        item.check_data(),
        Err(FwcError::LessFilesThanExpected)
    ));
    assert_eq!(item.perms_u32, 420);
    item.expected_files = 1;
    assert!(item.check_data().is_ok());
    assert_eq!(item.perms_u32, 384);
}

fn script_request(name: &str, ws_id: u128) -> HttpFiles {
    let mut item = HttpFiles::new("./tmp", false);
    item.expect_script();
    item.dst_dir = String::from("/opt/fwcloud");
    item.ws_id = ws_id;
    let mut file = file_of(10);
    file.dst_name = String::from(name);
    file.dst_path = format!("/opt/fwcloud/{}", name);
    item.end_file(file);
    item
}

#[test]
fn script_is_installed_and_policy_loaded() {
    let paths = vec![
        String::from("/etc/fwcloud/fwcloud.sh"),
        String::from("/config/scripts/post-config.d/fwcloud.sh"),
    ];
    let item = script_request("fwcloud.sh", 0);
    let plan = item.fwcloud_script(&paths, &vec![false, true]).unwrap();
    assert_eq!(
        plan.install,
        vec![String::from("/opt/fwcloud/fwcloud.sh"), String::from("install")]
    );
    assert_eq!(
        plan.start,
        Some(vec![
            String::from("/config/scripts/post-config.d/fwcloud.sh"),
            String::from("start")
        ])
    );
    assert_eq!(plan.ws_id, None);

    let plan = item.fwcloud_script(&paths, &vec![true, true]).unwrap();
    assert_eq!(
        plan.start,
        Some(vec![String::from("/etc/fwcloud/fwcloud.sh"), String::from("start")])
    );

    assert!(!plan.install_ends_session);
    assert!(plan.start_ends_session);

    let item = script_request("fwcloud.sh", 7);
    let plan = item.fwcloud_script(&paths, &vec![false, false]).unwrap();
    assert_eq!(plan.start, None);
    assert_eq!(plan.ws_id, Some(7));
    assert!(!plan.install_ends_session);
    assert!(!plan.start_ends_session);
}

fn run_of(output: &str, exit_success: bool) -> CmdRun {
    CmdRun {
        output: output.as_bytes().to_vec(),
        end: StreamEnd::Eof,
        exit_success,
    }
}

#[test]
fn session_is_over_when_the_policy_is_loaded() {
    let paths = vec![String::from("/etc/fwcloud/fwcloud.sh")];
    let item = script_request("fwcloud.sh", 7);
    let plan = item.fwcloud_script(&paths, &vec![true]).unwrap();

    // The install alone leaves the session open.
    let mut ws_data = WsData::new(0);
    let res = plan.stream(&run_of("installing\r\ndone\n", true), None, &mut ws_data);
    assert!(res.is_ok());
    assert_eq!(ws_data.lines, vec!["installing", "done"]);
    assert!(!ws_data.finished);

    // The lines of the install come first, and loading the policy ends the session.
    let mut ws_data = WsData::new(0);
    let res = plan.stream(
        &run_of("installing\ndone\n", true),
        Some(&run_of("loading\nloaded", true)),
        &mut ws_data,
    );
    assert!(res.is_ok());
    assert_eq!(ws_data.lines, vec!["installing", "done", "loading", "loaded"]);
    assert!(ws_data.finished);

    // After an install that failed the policy is not loaded.
    let mut ws_data = WsData::new(0);
    let res = plan.stream(
        &run_of("oops\n", false),
        Some(&run_of("loading\n", true)),
        &mut ws_data,
    );
    assert!(matches!(res, Err(FwcError::CmdExitStatusNotZero)));
    assert_eq!(ws_data.lines, vec!["oops"]);
    assert!(!ws_data.finished);

    // Loading the policy may fail too; its output is delivered all the same.
    let mut ws_data = WsData::new(0);
    let res = plan.stream(
        &run_of("done\n", true),
        Some(&run_of("bad\n", false)),
        &mut ws_data,
    );
    assert!(matches!(res, Err(FwcError::CmdExitStatusNotZero)));
    assert_eq!(ws_data.lines, vec!["done", "bad"]);
    assert!(ws_data.finished);

    // Without a script that loads the policy the session stays open.
    let plan = item.fwcloud_script(&paths, &vec![false]).unwrap();
    let mut ws_data = WsData::new(0);
    let res = plan.stream(
        &run_of("done\n", true),
        Some(&run_of("never run\n", true)),
        &mut ws_data,
    );
    assert!(res.is_ok());
    assert_eq!(ws_data.lines, vec!["done"]);
    assert!(!ws_data.finished);
}

#[test]
fn script_of_another_name_is_refused() {
    let item = script_request("other.sh", 0);
    assert!(matches!(
        item.fwcloud_script(&vec![], &vec![]),
        Err(FwcError::NotExpectedFileName)
    ));
}
