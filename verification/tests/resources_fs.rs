use bioma_tool::client_id::ClientId;
use bioma_tool::resources::filesystem::{DirEntry, FileData, FileSystem, ReadOutcome, UriTarget};
use bioma_tool::resources::{NotificationPlan, ResourceError, ResourceManager};

type Fs = FileSystem<u8>;

#[test]
fn test_path_to_uri() {
    let dir = "/tmp/some dir/base";
    let uri = Fs::path_to_uri(dir);
    assert!(uri.starts_with("file://"));
    assert!(uri.ends_with(dir));
    assert_eq!(uri, "file:///tmp/some dir/base");
}

#[test]
fn test_uri_to_path_root() {
    let fs = Fs::new("/tmp/base");
    assert_eq!(fs.uri_target("file:///").unwrap(), UriTarget::BaseDir("/tmp/base".to_string()));
    assert_eq!(fs.uri_target("file://").unwrap(), UriTarget::BaseDir("/tmp/base".to_string()));
}

#[test]
fn uri_targets_and_errors() {
    let fs = Fs::new("/tmp/base");
    assert_eq!(fs.uri_target("file:///tmp/base/a.txt").unwrap(), UriTarget::Path("/tmp/base/a.txt".to_string()));
    assert_eq!(
        fs.uri_target("http://example.com/x").unwrap_err(),
        ResourceError::Custom("Unsupported URI scheme: http".to_string())
    );
    match fs.uri_target("not a uri") {
        Err(ResourceError::Custom(m)) => assert!(m.starts_with("Invalid URI: ")),
        other => panic!("unexpected {:?}", other),
    }
    assert!(Fs::check_inside("/tmp/base/a", "/tmp/base", "/tmp/base/a").is_ok());
    assert!(Fs::check_inside("/tmp/base", "/tmp/base", "/tmp/base").is_ok());
    assert_eq!(
        Fs::check_inside("/tmp/basement", "/tmp/base", "/tmp/basement").unwrap_err(),
        ResourceError::Custom("Access denied: /tmp/basement is outside the base directory".to_string())
    );
    assert_eq!(Fs::not_found("/x").to_string(), "Resource not found: File not found: /x");
}

#[test]
fn mime_types_and_binary_files() {
    assert_eq!(Fs::guess_mime_type("/a/b.txt").as_deref(), Some("text/plain"));
    assert_eq!(Fs::guess_mime_type("/a/b.jpeg").as_deref(), Some("image/jpeg"));
    assert_eq!(Fs::guess_mime_type("/a/b.svg").as_deref(), Some("image/svg+xml"));
    assert_eq!(Fs::guess_mime_type("/a/.txt"), None);
    assert_eq!(Fs::guess_mime_type("/a/b"), None);
    assert!(Fs::is_binary("image/png"));
    assert!(!Fs::is_binary("text/plain"));
    assert!(!Fs::is_binary("application/json"));
    assert!(!Fs::is_binary("application/javascript"));
    assert!(!Fs::is_binary("image/svg+xml"));
    assert!(Fs::reads_as_binary("x.pdf"));
    assert!(!Fs::reads_as_binary("x.md"));
    assert!(!Fs::reads_as_binary("x.unknown"));
}

#[test]
fn directory_entries_and_file_contents() {
    let d = Fs::dir_entry("/base/subdir", "subdir", true);
    assert_eq!(d.text.as_deref(), Some("subdir/"));
    assert_eq!(d.mime_type.as_deref(), Some("inode/directory"));
    assert_eq!(d.uri, "file:///base/subdir");
    let f = Fs::dir_entry("/base/test1.txt", "test1.txt", false);
    assert_eq!(f.text.as_deref(), Some("test1.txt"));
    assert_eq!(f.mime_type.as_deref(), Some("text/plain"));
    let r = Fs::file_result("file:///base/a.png".to_string(), "/base/a.png", FileData::Bytes(b"Man".to_vec()));
    assert_eq!(r.contents[0].blob.as_deref(), Some("TWFu"));
    assert_eq!(r.contents[0].text, None);
    let r = Fs::file_result("file:///base/a.png".to_string(), "/base/a.png", FileData::Bytes(b"Ma".to_vec()));
    assert_eq!(r.contents[0].blob.as_deref(), Some("TWE="));
    let r = Fs::file_result("file:///t.txt".to_string(), "/t.txt", FileData::Text("Hello, world!".to_string()));
    assert_eq!(r.contents[0].text.as_deref(), Some("Hello, world!"));
    assert_eq!(r.contents[0].mime_type.as_deref(), Some("text/plain"));
}

#[test]
fn change_detection_and_watching() {
    let mut fs = Fs::new("/base");
    let uri = "file:///base/test.txt";
    assert!(!fs.record_metadata(uri, "/base/test.txt", true, 100));
    assert!(!fs.record_metadata(uri, "/base/test.txt", true, 100));
    assert!(fs.record_metadata(uri, "/base/test.txt", true, 200));
    assert!(fs.subscribe(uri, ClientId(1), false, "/base/test.txt", false, 0).is_err());
    assert!(!fs.file_watching());
    fs.subscribe(uri, ClientId(1), true, "/base/test.txt", true, 200).unwrap();
    assert!(fs.file_watching());
    fs.set_notification_callback(7);
    let plan = fs.notify_resource_updated(uri).unwrap();
    assert_eq!(plan.clients, vec![ClientId(1)]);
    fs.unsubscribe(uri, ClientId(1)).unwrap();
    assert!(!fs.file_watching());
    assert!(fs.subscribed_uris().is_empty());
}

#[test]
fn resource_manager_subscriptions() {
    let mut m: ResourceManager<u8> = ResourceManager::new();
    let a = ClientId(1);
    let b = ClientId(2);
    assert!(!m.has_subscribers("r"));
    assert_eq!(m.notify_resource_updated("r").unwrap().clients, vec![]);
    m.add_subscriber("r", a);
    m.add_subscriber("r", a);
    m.add_subscriber("r", b);
    assert_eq!(m.get_subscribers("r"), vec![a, b]);
    match m.notify_resource_updated("r") {
        Err(ResourceError::Custom(msg)) => assert_eq!(msg, "No notification callback registered"),
        other => panic!("unexpected {:?}", other),
    }
    m.set_notification_callback(0);
    assert_eq!(m.notify_resource_updated("r").unwrap().clients, vec![a, b]);
    m.remove_subscriber("r", a);
    assert_eq!(m.get_subscribers("r"), vec![b]);
    m.remove_subscriber("r", b);
    assert!(!m.has_subscribers("r"));
    assert!(m.subscribed_uris().is_empty());
}

#[test]
fn test_subscription_and_notification() {
    let mut fs = Fs::new("/tmp/dir");
    let uri = "file:///tmp/dir/test.txt";
    fs.set_notification_callback(1);
    fs.subscribe(uri, ClientId::new(), true, "/tmp/dir/test.txt", true, 1000).unwrap();
    assert_eq!(fs.subscribed_uris(), vec![uri.to_string()]);
    // The file is rewritten a second later: the change is seen.
    assert!(fs.record_metadata(uri, "/tmp/dir/test.txt", true, 2000));
    assert_eq!(fs.notify_resource_updated(uri).unwrap().clients.len(), 1);
    fs.unsubscribe(uri, ClientId::new()).unwrap();
    assert!(fs.subscribed_uris().is_empty());
}

#[test]
fn client_ids_are_version_4() {
    let id = ClientId::new().to_string();
    assert_eq!(&id[14..15], "4");
    assert!(matches!(&id[19..20], "8" | "9" | "a" | "b"));
}

#[test]
fn reads_follow_what_the_disk_gave() {
    let mut fs = Fs::new("/base");
    let missing = fs.read_result("file:///x".to_string(), "/base/x", None, ReadOutcome::Missing);
    assert_eq!(missing, Err(ResourceError::NotFound("File not found: /base/x".to_string())));
    let outside = fs.read_result(
        "file:///etc".to_string(),
        "/base/../etc",
        Some(Ok(("/etc".to_string(), "/base".to_string()))),
        ReadOutcome::Directory(vec![]),
    );
    assert_eq!(
        outside,
        Err(ResourceError::Custom("Access denied: /base/../etc is outside the base directory".to_string()))
    );
    let unresolved = fs.read_result(
        "file:///y".to_string(),
        "/base/y",
        Some(Err(ResourceError::Custom("Failed to canonicalize path: gone".to_string()))),
        ReadOutcome::Failed(ResourceError::Reading("never".to_string())),
    );
    assert_eq!(unresolved, Err(ResourceError::Custom("Failed to canonicalize path: gone".to_string())));
    let listed = fs
        .read_result(
            "file:///".to_string(),
            "/base",
            None,
            ReadOutcome::Directory(vec![
                DirEntry { path: "/base/sub".to_string(), name: "sub".to_string(), is_dir: true },
                DirEntry { path: "/base/a.txt".to_string(), name: "a.txt".to_string(), is_dir: false },
            ]),
        )
        .unwrap();
    assert_eq!(listed.contents.len(), 2);
    assert_eq!(listed.contents[0].uri, "file:///base/sub");
    assert_eq!(listed.contents[0].mime_type.as_deref(), Some("inode/directory"));
    assert_eq!(listed.contents[0].text.as_deref(), Some("sub/"));
    assert_eq!(listed.contents[1].mime_type.as_deref(), Some("text/plain"));
    assert_eq!(listed.contents[1].text.as_deref(), Some("a.txt"));
    let inside = Some(Ok(("/base/a.txt".to_string(), "/base".to_string())));
    let file = fs
        .read_result(
            "file:///base/a.txt".to_string(),
            "/base/a.txt",
            inside.clone(),
            ReadOutcome::File { last_modified: 5, data: Ok(FileData::Text("hello".to_string())) },
        )
        .unwrap();
    assert_eq!(file.contents[0].uri, "file:///base/a.txt");
    assert_eq!(file.contents[0].text.as_deref(), Some("hello"));
    // The read recorded the file's time, so a later one is a change.
    assert!(fs.record_metadata("file:///base/a.txt", "/base/a.txt", true, 6));
    let failed = fs.read_result(
        "file:///base/a.txt".to_string(),
        "/base/a.txt",
        inside,
        ReadOutcome::File { last_modified: 7, data: Err(ResourceError::Reading("Failed to open file: x".to_string())) },
    );
    assert_eq!(failed, Err(ResourceError::Reading("Failed to open file: x".to_string())));
}

#[test]
fn notifications_stop_at_the_first_error() {
    assert_eq!(NotificationPlan::outcome(vec![]), Ok(()));
    assert_eq!(NotificationPlan::outcome(vec![Ok(()), Ok(())]), Ok(()));
    assert_eq!(
        NotificationPlan::outcome(vec![
            Ok(()),
            Err(ResourceError::Custom("first".to_string())),
            Err(ResourceError::Custom("second".to_string())),
        ]),
        Err(ResourceError::Custom("first".to_string()))
    );
}

#[test]
fn notification_needs_a_callback() {
    let mut fs = Fs::new("/tmp/dir");
    let uri = "file:///tmp/dir/a.txt";
    let a = ClientId(1);
    let b = ClientId(2);
    fs.subscribe(uri, a, true, "/tmp/dir/a.txt", true, 1).unwrap();
    fs.subscribe(uri, b, true, "/tmp/dir/a.txt", true, 1).unwrap();
    assert_eq!(
        fs.notify_resource_updated(uri).unwrap_err(),
        ResourceError::Custom("No notification callback registered".to_string())
    );
    fs.set_notification_callback(7);
    assert_eq!(fs.get_resource_manager().notification_callback(), Some(&7));
    let plan = fs.notify_resource_updated(uri).unwrap();
    assert_eq!(plan.uri, uri);
    assert_eq!(plan.clients, vec![a, b]);
    assert!(fs.notify_resource_updated("file:///tmp/dir/other").unwrap().clients.is_empty());
}

#[test]
fn subscribing_then_unsubscribing_restores_the_manager() {
    let mut rm: ResourceManager<u8> = ResourceManager::new();
    let a = ClientId(1);
    let b = ClientId(2);
    rm.add_subscriber("u", a);
    rm.add_subscriber("u", a);
    assert_eq!(rm.get_subscribers("u"), vec![a]);
    rm.add_subscriber("u", b);
    rm.remove_subscriber("u", b);
    assert_eq!(rm.get_subscribers("u"), vec![a]);
    rm.remove_subscriber("u", a);
    assert!(!rm.has_subscribers("u"));
    assert!(rm.get_subscribers("u").is_empty());
}

#[test]
fn uri_paths_resolve_inside_the_base() {
    let base = Fs::resolved_path(UriTarget::BaseDir("/b".to_string()), false, Err(ResourceError::Custom("x".to_string())));
    assert_eq!(base, Ok("/b".to_string()));
    let missing = Fs::resolved_path(UriTarget::Path("/b/x".to_string()), false, Ok(("/b/x".to_string(), "/b".to_string())));
    assert_eq!(missing, Err(ResourceError::NotFound("File not found: /b/x".to_string())));
    let inside = Fs::resolved_path(UriTarget::Path("/b/./y".to_string()), true, Ok(("/b/y".to_string(), "/b".to_string())));
    assert_eq!(inside, Ok("/b/y".to_string()));
    let outside = Fs::resolved_path(UriTarget::Path("/b/../etc".to_string()), true, Ok(("/etc".to_string(), "/b".to_string())));
    assert_eq!(outside, Err(ResourceError::Custom("Access denied: /b/../etc is outside the base directory".to_string())));
}
