use termix_local::base64_text::can_encode;
use termix_local::error::ApiError;
use termix_local::files::{
    decode_upload_content, done_reply, download_json, entry_json, file_create, file_delete, file_download, file_download_reply,
    file_list, file_list_reply, file_mkdir, file_move, file_read, file_read_reply, file_rename, list_entry, rename_action,
    file_type_from_perm, file_upload, file_write, has_executable_name, is_executable_permissions,
    mode_to_permissions, read_json, remote_failure, uploaded_bytes, CreateFolderRequest, DeleteItemRequest, DoneAction,
    DownloadRequest, FileContentRequest, MoveItemRequest, RemoteAction, RemoteEntry, RemoteStep,
    RenameItemRequest, SessionPathQuery,
};
use termix_local::json_text::print_json;
use termix_local::remote_path::join_remote_path;

fn expect(text: &str) -> serde_json::Value {
    serde_json::from_str(text).unwrap()
}

fn content(path: &str, text: &str, file_name: Option<&str>) -> FileContentRequest {
    FileContentRequest {
        session_id: "s".to_string(),
        path: path.to_string(),
        content: text.to_string(),
        file_name: file_name.map(|name| name.to_string()),
    }
}

fn query(path: Option<&str>) -> SessionPathQuery {
    SessionPathQuery { session_id: "s".to_string(), path: path.map(|text| text.to_string()) }
}

fn shown(action: RemoteAction) -> String {
    format!("{:?}", action)
}

fn refusal(error: ApiError) -> (u16, String) {
    (error.status, error.message)
}

#[test]
fn paths_are_joined() {
    assert_eq!(join_remote_path("/", "a"), "/a");
    assert_eq!(join_remote_path("/home", "a"), "/home/a");
    assert_eq!(join_remote_path("/home/", "a"), "/home/a");
    assert_eq!(join_remote_path("", "a"), "/a");
    assert_eq!(join_remote_path("/x", ""), "/x/");
}

fn entry(path: &str) -> RemoteEntry {
    RemoteEntry { path: path.to_string(), perm: None, size: None, mtime: None, uid: None, gid: None }
}

fn listed_names(path: &str) -> Vec<String> {
    let body = file_list_reply("/d", &vec![entry(path)]).to_value();
    body["files"].as_array().unwrap().iter().map(|file| file["name"].as_str().unwrap().to_string()).collect()
}

#[test]
fn names_are_the_same_on_every_machine() {
    for (path, name) in [
        ("", None),
        ("/", None),
        ("/.", None),
        ("..", None),
        ("../", None),
        ("a/..", None),
        ("a", Some("a")),
        ("a/", Some("a")),
        ("a//", Some("a")),
        ("a/.", Some("a")),
        ("a/.//", Some("a")),
        ("/a", Some("a")),
        ("/a/b", Some("b")),
        ("/a/b/", Some("b")),
        ("/a/./b", Some("b")),
        ("./a", Some("a")),
        ("/a//b", Some("b")),
        ("a./", Some("a.")),
        ("/a/.b/.", Some(".b")),
        ("..a", Some("..a")),
        ("a/...", Some("...")),
        ("/d/a:b", Some("a:b")),
        ("/d:e/f", Some("f")),
        ("/:", Some(":")),
        ("/d/12:30:00.log/", Some("12:30:00.log")),
        ("ab:c", Some("ab:c")),
    ] {
        let expected: Vec<String> = name.map(|name| name.to_string()).into_iter().collect();
        assert_eq!(listed_names(path), expected, "name of {}", path);
        let body = file_download_reply(path, b"").to_value();
        assert_eq!(body["fileName"].as_str().unwrap(), name.unwrap_or("download"), "name of {}", path);
    }
}

#[test]
fn joined_paths_end_in_their_names() {
    for parent in ["/", "/a", "/a/", "", "a/."] {
        assert_eq!(listed_names(&join_remote_path(parent, "n.txt")), ["n.txt"]);
    }
}

#[test]
fn entries_are_listed_under_the_names_that_are_given() {
    for name in [None, Some("."), Some("..")] {
        assert!(list_entry("/d", name.map(|name| name.to_string()), &entry("/d/x")).is_none());
    }
    let shown = list_entry("/d", Some("y\\z".to_string()), &entry("/d/x")).unwrap().to_value();
    assert_eq!(shown["name"], expect("\"y\\\\z\""));
    assert_eq!(shown["path"], expect("\"/d/y\\\\z\""));
}

#[test]
fn modes_are_shown() {
    assert_eq!(mode_to_permissions(0o100644), "-rw-r--r--");
    assert_eq!(mode_to_permissions(0o040755), "drwxr-xr-x");
    assert_eq!(mode_to_permissions(0o120777), "lrwxrwxrwx");
    assert_eq!(mode_to_permissions(0), "----------");
    assert_eq!(file_type_from_perm(0o040000), "directory");
    assert_eq!(file_type_from_perm(0o120000), "link");
    assert_eq!(file_type_from_perm(0o100000), "file");
    assert_eq!(file_type_from_perm(0o140000), "file");
}

#[test]
fn executables_are_told() {
    assert!(is_executable_permissions("-rwxr-xr-x", "run.sh"));
    assert!(is_executable_permissions("-rw-r--r-x", "RUN.SH"));
    assert!(is_executable_permissions("-rw-r-xr--", "tool"));
    assert!(!is_executable_permissions("-rwxr-xr-x", "notes.txt"));
    assert!(!is_executable_permissions("-rw-r--r--", "run.sh"));
    assert!(!is_executable_permissions("xxx", "run.sh"));
    assert!(!is_executable_permissions("", "run.sh"));
    for extension in ["sh", "py", "pl", "rb", "js", "php", "bash", "zsh", "fish", "bin", "exe", "out"] {
        assert!(is_executable_permissions("---x------", &format!("a.{}", extension)));
    }
    for mode in [0o001, 0o010, 0o100, 0o644, 0o755, 0o000] {
        assert_eq!(is_executable_permissions(&mode_to_permissions(mode), "tool"), mode & 0o111 != 0);
    }
}

#[test]
fn lists_are_asked_for() {
    assert_eq!(shown(file_list(&query(None))), "List { path: \"/\" }");
    assert_eq!(shown(file_list(&query(Some("/x")))), "List { path: \"/x\" }");
}

#[test]
fn directories_are_shown() {
    let entries = vec![
        RemoteEntry { path: "/x/sub".to_string(), perm: Some(0o040755), size: Some(4096), mtime: Some(5), uid: Some(0), gid: Some(10) },
        RemoteEntry { path: "/x/run.SH".to_string(), perm: Some(0o100755), size: Some(7), mtime: None, uid: None, gid: None },
        RemoteEntry { path: "/x/..".to_string(), perm: None, size: None, mtime: None, uid: None, gid: None },
        RemoteEntry { path: "/x/odd".to_string(), perm: None, size: None, mtime: None, uid: None, gid: None },
    ];
    assert_eq!(
        file_list_reply("/x", &entries).to_value(),
        expect("{\"path\":\"/x\",\"files\":[{\"name\":\"sub\",\"type\":\"directory\",\"size\":null,\"modified\":\"5\",\"permissions\":\"drwxr-xr-x\",\"owner\":\"0\",\"group\":\"10\",\"path\":\"/x/sub\",\"executable\":false},{\"name\":\"run.SH\",\"type\":\"file\",\"size\":7,\"modified\":\"0\",\"permissions\":\"-rwxr-xr-x\",\"owner\":\"\",\"group\":\"\",\"path\":\"/x/run.SH\",\"executable\":true},{\"name\":\"odd\",\"type\":\"file\",\"size\":0,\"modified\":\"0\",\"permissions\":\"----------\",\"owner\":\"\",\"group\":\"\",\"path\":\"/x/odd\",\"executable\":false}]}")
    );
    assert_eq!(file_list_reply("/", &vec![]).to_value(), expect("{\"files\":[],\"path\":\"/\"}"));
}

#[test]
fn entries_and_contents_are_shown_as_given() {
    let entry = RemoteEntry { path: "ignored".to_string(), perm: Some(0o120777), size: Some(3), mtime: Some(4), uid: None, gid: None };
    assert_eq!(
        entry_json("/d", "n", true, &entry).to_value(),
        expect("{\"name\":\"n\",\"type\":\"link\",\"size\":3,\"modified\":\"4\",\"permissions\":\"lrwxrwxrwx\",\"owner\":\"\",\"group\":\"\",\"path\":\"/d/n\",\"executable\":false}")
    );
    assert!(has_executable_name("A.SH", "a.sh"));
    assert!(!has_executable_name("A.SH", "A.SH"));
    assert!(has_executable_name("noext", "anything"));
    assert_eq!(
        print_json(&read_json("/p", "c".to_string(), "utf8")),
        "{\"content\":\"c\",\"encoding\":\"utf8\",\"path\":\"/p\"}"
    );
    assert_eq!(
        print_json(&download_json("/p/q", "YQ==".to_string(), Some("n".to_string()))),
        "{\"content\":\"YQ==\",\"encoding\":\"base64\",\"fileName\":\"n\",\"mimeType\":\"application/octet-stream\",\"path\":\"/p/q\"}"
    );
    assert_eq!(
        print_json(&download_json("/p/q", "".to_string(), None)),
        "{\"content\":\"\",\"encoding\":\"base64\",\"fileName\":\"download\",\"mimeType\":\"application/octet-stream\",\"path\":\"/p/q\"}"
    );
}

#[test]
fn files_are_read() {
    assert_eq!(shown(file_read(&query(Some("/a"))).unwrap()), "Read { path: \"/a\" }");
    assert_eq!(refusal(file_read(&query(None)).unwrap_err()), (400, "path is required".to_string()));
    assert_eq!(
        print_json(&file_read_reply("/a", "h\u{e9}".as_bytes().to_vec())),
        "{\"content\":\"h\u{e9}\",\"encoding\":\"utf8\",\"path\":\"/a\"}"
    );
    assert!(can_encode(3));
    assert_eq!(
        print_json(&file_read_reply("/a", vec![0, 255, 128])),
        "{\"content\":\"AP+A\",\"encoding\":\"base64\",\"path\":\"/a\"}"
    );
}

#[test]
fn too_much_cannot_be_encoded() {
    assert!(can_encode(0));
    assert!(can_encode(1));
    assert!(!can_encode(usize::MAX));
    assert!(!can_encode(isize::MAX as usize));
    let most = (isize::MAX as usize) / 4 * 3;
    assert!(can_encode(most));
    assert!(!can_encode(most + 1));
}

#[test]
fn files_are_written() {
    assert_eq!(shown(file_write(&content("/a", "h\u{e9}", None))), "Write { path: \"/a\", bytes: [104, 195, 169] }");
    assert_eq!(
        shown(file_create(&content("/d", "x", Some("n"))).unwrap()),
        "Write { path: \"/d/n\", bytes: [120] }"
    );
    assert_eq!(
        refusal(file_create(&content("/d", "x", None)).unwrap_err()),
        (400, "fileName is required".to_string())
    );
}

#[test]
fn files_are_uploaded() {
    assert_eq!(
        shown(file_upload(&content("/d/", "data:text/plain;base64,aGk=", Some("n"))).unwrap()),
        "Write { path: \"/d/n\", bytes: [104, 105] }"
    );
    assert_eq!(
        refusal(file_upload(&content("/d/", "?", None)).unwrap_err()),
        (400, "fileName is required".to_string())
    );
    assert_eq!(decode_upload_content("aGVsbG8sIHdvcmxk").unwrap(), b"hello, world".to_vec());
    assert_eq!(decode_upload_content(",").unwrap(), Vec::<u8>::new());
    assert_eq!(
        refusal(decode_upload_content("a,b,c").unwrap_err()),
        (400, "Invalid upload content: Invalid symbol 44, offset 1.".to_string())
    );
    assert_eq!(uploaded_bytes(Ok(vec![1])).unwrap(), vec![1]);
    assert_eq!(
        refusal(uploaded_bytes(Err("e".to_string())).unwrap_err()),
        (400, "Invalid upload content: e".to_string())
    );
}

#[test]
fn downloads_can_be_uploaded_again() {
    let bytes: Vec<u8> = (0..=255).collect();
    let request = DownloadRequest { session_id: "s".to_string(), path: "/d/a.bin".to_string() };
    assert_eq!(shown(file_download(&request)), "Read { path: \"/d/a.bin\" }");
    assert!(can_encode(bytes.len()));
    let body = file_download_reply("/d/a.bin", &bytes).to_value();
    assert_eq!(body["fileName"], expect("\"a.bin\""));
    assert_eq!(body["encoding"], expect("\"base64\""));
    assert_eq!(body["mimeType"], expect("\"application/octet-stream\""));
    assert_eq!(body["path"], expect("\"/d/a.bin\""));
    let text = body["content"].as_str().unwrap();
    assert_eq!(decode_upload_content(text).unwrap(), bytes);
    assert_eq!(decode_upload_content(&format!("data:;base64,{}", text)).unwrap(), bytes);
    assert_eq!(file_download_reply("/", b"").to_value()["fileName"], expect("\"download\""));
}

#[test]
fn folders_are_made() {
    let request = CreateFolderRequest { session_id: "s".to_string(), path: "/d".to_string(), folder_name: "f".to_string() };
    assert_eq!(shown(file_mkdir(&request)), "MakeDir { path: \"/d/f\", mode: 493 }");
}

#[test]
fn items_are_deleted() {
    for (is_directory, expected) in [
        (None, "RemoveFile { path: \"/a\" }"),
        (Some(false), "RemoveFile { path: \"/a\" }"),
        (Some(true), "RemoveDir { path: \"/a\" }"),
    ] {
        let request = DeleteItemRequest { session_id: "s".to_string(), path: "/a".to_string(), is_directory };
        assert_eq!(shown(file_delete(&request)), expected);
    }
}

#[test]
fn items_are_renamed_in_place_and_moved() {
    for (old_path, to) in [("/d/a", "/d/b"), ("/a", "/b"), ("/d/e/", "/d/b"), ("a", "/b"), ("/", "/b"), ("d/a", "d/b"), ("/d/a:1", "/d/b"), ("/d:e/f", "/d:e/b"), ("/:", "/b")] {
        let request = RenameItemRequest { session_id: "s".to_string(), old_path: old_path.to_string(), new_name: "b".to_string() };
        assert_eq!(shown(file_rename(&request)), format!("Rename {{ from: {:?}, to: {:?} }}", old_path, to));
    }
    let request = RenameItemRequest { session_id: "s".to_string(), old_path: "C:\\d\\a".to_string(), new_name: "b".to_string() };
    for (parent, to) in [(Some("C:\\d"), "C:\\d/b"), (Some(""), "/b"), (None, "/b")] {
        assert_eq!(
            shown(rename_action(&request, parent.map(|parent| parent.to_string()))),
            format!("Rename {{ from: {:?}, to: {:?} }}", "C:\\d\\a", to)
        );
    }
    let request = MoveItemRequest { session_id: "s".to_string(), old_path: "/a".to_string(), new_path: "/b".to_string() };
    assert_eq!(shown(file_move(&request)), "Rename { from: \"/a\", to: \"/b\" }");
}

#[test]
fn what_is_done_is_told() {
    for (done, message) in [
        (DoneAction::Written, "File written successfully"),
        (DoneAction::Uploaded, "File uploaded successfully"),
        (DoneAction::FileCreated, "File created successfully"),
        (DoneAction::FolderCreated, "Folder created successfully"),
        (DoneAction::Deleted, "Item deleted successfully"),
        (DoneAction::Renamed, "Item renamed successfully"),
        (DoneAction::Moved, "Item moved successfully"),
    ] {
        assert_eq!(print_json(&done_reply(done)), format!("{{\"message\":\"{}\",\"success\":true}}", message));
    }
}

#[test]
fn what_fails_is_told() {
    for (step, status, message) in [
        (RemoteStep::OpenSftp, 500, "Failed to open SFTP: e"),
        (RemoteStep::List, 400, "Failed to list /p: e"),
        (RemoteStep::Open, 404, "Failed to open /p: e"),
        (RemoteStep::Read, 500, "Failed to read /p: e"),
        (RemoteStep::Create, 400, "Failed to open remote file: e"),
        (RemoteStep::Write, 500, "Failed to write remote file: e"),
        (RemoteStep::MakeDir, 400, "Failed to create folder: e"),
        (RemoteStep::Remove, 400, "Failed to delete item: e"),
        (RemoteStep::Rename, 400, "Failed to rename item: e"),
    ] {
        assert_eq!(refusal(remote_failure(step, "/p", "e")), (status, message.to_string()));
    }
}
