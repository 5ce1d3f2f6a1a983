use surrealist::config::{
    backup_config, finish_config, load_config, restore_config_backup, save_config, write_config,
};
use surrealist::open::{
    classify_resource, file_resource, opened_resource, read_query_file, resource_arguments, resource_request,
    store_resources, write_query_file, write_report, LinkResource, OpenedResource, ResourceRequest,
    UrlParts, WriteStep,
    MAX_FILE_SIZE,
};
use surrealist::paths::{
    get_config_backup_path, get_config_path, get_data_directory, get_file_whitelist_path,
    get_logs_directory, get_ssh_known_hosts_path,
};
use surrealist::whitelist::{
    append_allowed_file, is_allowed, parse_allowed_files, prune_allowed_files,
    render_allowed_files,
};

fn words(list: &[&str]) -> Vec<String> {
    list.iter().map(|w| w.to_string()).collect()
}

#[test]
fn data_directory_depends_on_the_build() {
    assert_eq!(get_data_directory(false), words(&["SurrealDB", "Surrealist"]));
    assert_eq!(get_data_directory(true), words(&["SurrealDB", "SurrealistPreview"]));
}

#[test]
fn paths_lie_under_the_data_directory() {
    assert_eq!(get_config_path(false), words(&["SurrealDB", "Surrealist", "config.json"]));
    assert_eq!(
        get_config_backup_path(false, 2),
        words(&["SurrealDB", "Surrealist", "backups", "config-version-2.json"])
    );
    assert_eq!(
        get_config_backup_path(true, u32::MAX),
        words(&["SurrealDB", "SurrealistPreview", "backups", "config-version-4294967295.json"])
    );
    assert_eq!(get_file_whitelist_path(false), words(&["SurrealDB", "Surrealist", "allowed_files"]));
    assert_eq!(get_logs_directory(true), words(&["SurrealDB", "SurrealistPreview", "logs"]));
    assert_eq!(
        get_ssh_known_hosts_path(false),
        words(&["SurrealDB", "Surrealist", "ssh", "known_hosts.json"])
    );
}

#[test]
fn whitelist_is_read_line_by_line() {
    for text in ["", "a", "a\n", "a\nb", "a\r\nb\r\n", "\n", "\n\n", "a\n\nb", "a\r", "a\r\r\n", "\r\n", "a\rb\n"] {
        let expected: Vec<String> = text.lines().map(String::from).collect();
        assert_eq!(parse_allowed_files(text), expected, "{:?}", text);
    }
    assert_eq!(parse_allowed_files("/a/b.surql\r\n/c d.surql\n"), words(&["/a/b.surql", "/c d.surql"]));
}

#[test]
fn whitelist_is_written_with_line_feeds() {
    assert_eq!(render_allowed_files(&words(&["/a", "/b", "/c"])), "/a\n/b\n/c");
    assert_eq!(render_allowed_files(&Vec::new()), "");
}

#[test]
fn allowed_file_is_appended_once() {
    let list = append_allowed_file(words(&["/a"]), "/b");
    assert_eq!(list, words(&["/a", "/b"]));
    let list = append_allowed_file(list, "/a");
    assert_eq!(list, words(&["/a", "/b"]));
    assert_eq!(append_allowed_file(Vec::new(), "/x"), words(&["/x"]));
}

#[test]
fn prune_keeps_what_is_still_named() {
    let whitelist = words(&["/a", "/b", "/c", "/b"]);
    assert_eq!(prune_allowed_files(&whitelist, &words(&["/b", "/c", "/z"])), words(&["/b", "/c", "/b"]));
    assert_eq!(prune_allowed_files(&whitelist, &Vec::new()), Vec::<String>::new());
    assert_eq!(prune_allowed_files(&Vec::new(), &words(&["/a"])), Vec::<String>::new());
}

#[test]
fn only_listed_files_are_allowed() {
    assert!(is_allowed(&words(&["/a"]), "/a"));
    assert!(!is_allowed(&words(&["/a"]), "/a/"));
}

#[test]
fn url_schemes_decide_the_request() {
    assert!(matches!(resource_request("file:///home/me/q.surql"), ResourceRequest::File));
    match resource_request("surrealist://open?id=7&x=y") {
        ResourceRequest::Link(link) => {
            assert_eq!(link.host, "open");
            assert_eq!(link.params, "id=7&x=y");
        }
        _ => panic!("expected a link"),
    }
    match resource_request("surrealist:///") {
        ResourceRequest::Link(link) => {
            assert_eq!(link.host, "");
            assert_eq!(link.params, "");
        }
        _ => panic!("expected a link"),
    }
    assert!(matches!(resource_request("https://surrealdb.com"), ResourceRequest::Unknown));
    assert!(matches!(resource_request("not a url"), ResourceRequest::Unknown));
}

#[test]
fn parts_decide_the_request() {
    let parts = Ok(UrlParts { scheme: "surrealist".to_string(), host: None, query: Some("a".to_string()) });
    match classify_resource(&parts) {
        ResourceRequest::Link(link) => {
            assert_eq!(link.host, "");
            assert_eq!(link.params, "a");
        }
        _ => panic!("expected a link"),
    }
    assert!(matches!(classify_resource(&Err("bad".to_string())), ResourceRequest::Unknown));
}

#[test]
fn files_below_the_limit_can_be_opened() {
    assert_eq!(MAX_FILE_SIZE, 5 * 1024 * 1024);
    let small = file_resource(MAX_FILE_SIZE - 1, "q".to_string(), "/q.surql".to_string());
    assert!(small.success);
    assert_eq!(small.name, "q");
    assert_eq!(small.path, "/q.surql");
    assert!(!file_resource(MAX_FILE_SIZE, "q".to_string(), "/q.surql".to_string()).success);
    assert!(file_resource(0, "".to_string(), "".to_string()).success);
}

#[test]
fn resources_come_after_the_program() {
    assert_eq!(resource_arguments(&words(&["app", "a", "b"])), words(&["a", "b"]));
    assert_eq!(resource_arguments(&words(&["app"])), Vec::<String>::new());
    assert_eq!(resource_arguments(&Vec::new()), Vec::<String>::new());
}

#[test]
fn empty_request_keeps_the_stored_resources() {
    let mut kept = words(&["file:///a"]);
    store_resources(&mut kept, Vec::new());
    assert_eq!(kept, words(&["file:///a"]));
    store_resources(&mut kept, words(&["file:///b", "file:///c"]));
    assert_eq!(kept, words(&["file:///b", "file:///c"]));
}

#[test]
fn query_file_is_read_only_from_the_whitelist() {
    let whitelist = words(&["/a"]);
    assert_eq!(read_query_file(&whitelist, "/a", Some("SELECT 1".to_string())), Ok("SELECT 1".to_string()));
    assert_eq!(read_query_file(&whitelist, "/b", Some("x".to_string())), Err("File is not allowed".to_string()));
    assert_eq!(read_query_file(&whitelist, "/a", None), Err("Failed to read file".to_string()));
    assert_eq!(read_query_file(&whitelist, "/b", None), Err("Failed to read file".to_string()));
}

#[test]
fn query_file_is_written_only_to_the_whitelist() {
    let whitelist = words(&["/a"]);
    assert_eq!(write_query_file(&whitelist, "/a"), WriteStep::Write);
    assert_eq!(write_query_file(&whitelist, "/b"), WriteStep::Refuse);
    assert_eq!(write_report(WriteStep::Write, true), Ok(()));
    assert_eq!(write_report(WriteStep::Write, false), Err("Failed to write file".to_string()));
    assert_eq!(write_report(WriteStep::Refuse, false), Err("File is not allowed".to_string()));
    assert_eq!(write_report(WriteStep::Refuse, true), Err("File is not allowed".to_string()));
}

#[test]
fn config_is_written_indented_with_a_final_line_feed() {
    assert_eq!(write_config("{\"a\":[1,2]}"), Some("{\n  \"a\": [\n    1,\n    2\n  ]\n}\n".to_string()));
    assert_eq!(write_config("{}"), Some("{}\n".to_string()));
    assert_eq!(write_config("{"), None);
    assert_eq!(write_config(""), None);
}

#[test]
fn finish_config_adds_the_line_feed() {
    assert_eq!(finish_config(Some("{}".to_string())), Some("{}\n".to_string()));
    assert_eq!(finish_config(None), None);
}

#[test]
fn config_is_saved_to_the_config_path() {
    let write = save_config("{\"theme\":\"dark\"}", false).unwrap();
    assert_eq!(write.path, words(&["SurrealDB", "Surrealist", "config.json"]));
    assert_eq!(write.content, "{\n  \"theme\": \"dark\"\n}\n");
    assert!(save_config("not json", false).is_none());
}

#[test]
fn config_is_backed_up_by_version() {
    let write = backup_config("[]", 3, true).unwrap();
    assert_eq!(write.path, words(&["SurrealDB", "SurrealistPreview", "backups", "config-version-3.json"]));
    assert_eq!(write.content, "[]\n");
    assert!(backup_config("", 3, true).is_none());
}

#[test]
fn missing_config_loads_the_default() {
    let loaded = load_config(None);
    assert_eq!(loaded.content, "{}");
    assert!(loaded.write_default);
    let loaded = load_config(Some("{\"a\":1}".to_string()));
    assert_eq!(loaded.content, "{\"a\":1}");
    assert!(!loaded.write_default);
}

#[test]
fn backup_is_restored_where_it_is_there() {
    assert_eq!(restore_config_backup(true, true), Ok(()));
    assert_eq!(restore_config_backup(false, true), Err("Backup does not exist".to_string()));
    assert_eq!(restore_config_backup(false, false), Err("Backup does not exist".to_string()));
    assert_eq!(restore_config_backup(true, false), Err("Failed to restore config backup".to_string()));
}

#[test]
fn requests_are_reported_as_resources() {
    let file = file_resource(1, "q".to_string(), "/q".to_string());
    match opened_resource(ResourceRequest::File, Some(file)) {
        OpenedResource::File(f) => {
            assert!(f.success);
            assert_eq!(f.name, "q");
            assert_eq!(f.path, "/q");
        }
        _ => panic!("expected a file"),
    }
    assert!(matches!(opened_resource(ResourceRequest::File, None), OpenedResource::Unknown));
    let link = LinkResource { host: "h".to_string(), params: "p".to_string() };
    match opened_resource(ResourceRequest::Link(link), None) {
        OpenedResource::Link(l) => {
            assert_eq!(l.host, "h");
            assert_eq!(l.params, "p");
        }
        _ => panic!("expected a link"),
    }
    assert!(matches!(opened_resource(ResourceRequest::Unknown, None), OpenedResource::Unknown));
}
