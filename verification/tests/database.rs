use surrealist::database::{
    build_kill_command, build_start_command, classify_exit, exit_events, start_arguments,
    start_database, start_report, stop_database, DatabaseEvent, ExitReport, Platform,
    ServeOptions, StartDecision,
};

fn words(list: &[&str]) -> Vec<String> {
    list.iter().map(|w| w.to_string()).collect()
}

fn options(driver: &str) -> ServeOptions {
    ServeOptions {
        username: "root".to_string(),
        password: "pw".to_string(),
        port: 8000,
        driver: driver.to_string(),
        storage: "/data/db".to_string(),
        executable: "".to_string(),
        log_level: "debug".to_string(),
        legacy_compat: false,
    }
}

#[test]
fn start_command_runs_through_the_shell() {
    let args = words(&["surreal", "start", "--bind", "0.0.0.0:8000"]);
    assert_eq!(
        build_start_command(Platform::Linux, &args),
        words(&["bash", "-l", "-c", "surreal start --bind 0.0.0.0:8000"])
    );
    assert_eq!(
        build_start_command(Platform::MacOs, &args),
        words(&["zsh", "-l", "-c", "surreal start --bind 0.0.0.0:8000"])
    );
    assert_eq!(
        build_start_command(Platform::Windows, &args),
        words(&["cmd", "/c", "surreal start --bind 0.0.0.0:8000"])
    );
}

#[test]
fn start_command_of_no_arguments_has_an_empty_line() {
    assert_eq!(build_start_command(Platform::Linux, &Vec::new()), words(&["bash", "-l", "-c", ""]));
}

#[test]
fn kill_command_names_the_process() {
    assert_eq!(build_kill_command(Platform::Linux, &4242), words(&["kill", "-9", "4242"]));
    assert_eq!(build_kill_command(Platform::MacOs, &0), words(&["kill", "-9", "0"]));
    assert_eq!(
        build_kill_command(Platform::Windows, &u32::MAX),
        words(&["taskkill", "/pid", "4294967295", "/f", "/t"])
    );
}

#[test]
fn start_arguments_for_each_driver() {
    let head = ["surreal", "start", "--bind", "0.0.0.0:8000", "--user", "root", "--pass", "pw", "--log", "debug"];
    for (driver, storage) in [
        ("memory", "memory"),
        ("file", "rocksdb:///data/db"),
        ("surrealkv", "surrealkv:///data/db"),
        ("tikv", "tikv:///data/db"),
    ] {
        let mut expected = words(&head);
        expected.push(storage.to_string());
        expected.push("--allow-all".to_string());
        assert_eq!(start_arguments(&options(driver)), Ok(expected));
    }
}

#[test]
fn start_arguments_with_executable_and_legacy_mode() {
    let mut custom = options("memory");
    custom.executable = "/opt/surreal".to_string();
    custom.legacy_compat = true;
    custom.port = 0;
    assert_eq!(
        start_arguments(&custom),
        Ok(words(&[
            "/opt/surreal", "start", "--bind", "0.0.0.0:0", "--user", "root", "--pass", "pw",
            "--log", "debug", "--auth", "memory", "--allow-all"
        ]))
    );
}

#[test]
fn unknown_driver_is_refused() {
    assert_eq!(start_arguments(&options("sqlite")), Err("Invalid database driver".to_string()));
    assert_eq!(start_arguments(&options("")), Err("Invalid database driver".to_string()));
}

#[test]
fn exit_is_judged_by_time_and_output() {
    assert_eq!(classify_exit(0, false), ExitReport::NeverStarted);
    assert_eq!(classify_exit(500, false), ExitReport::NeverStarted);
    assert_eq!(classify_exit(500, true), ExitReport::FailedEarly);
    assert_eq!(classify_exit(501, false), ExitReport::Stopped);
    assert_eq!(classify_exit(u64::MAX, true), ExitReport::Stopped);
}

fn shown(event: &DatabaseEvent) -> (String, Option<String>) {
    let message = match event {
        DatabaseEvent::Output(line) => Some(line.clone()),
        DatabaseEvent::Error(reason) => Some(reason.clone()),
        DatabaseEvent::Start | DatabaseEvent::Stop => None,
    };
    (event.name(), message)
}

#[test]
fn held_server_is_left_serving() {
    let decision = start_database(true, Platform::Linux, &options("bogus"));
    assert!(matches!(decision, StartDecision::AlreadyServing));
    let (event, result) = start_report(&decision);
    assert_eq!(shown(&event), ("database:start".to_string(), None));
    assert_eq!(result, Ok(()));
}

#[test]
fn server_is_launched_through_the_shell() {
    let decision = start_database(false, Platform::Linux, &options("memory"));
    match &decision {
        StartDecision::Launch(command) => assert_eq!(
            command,
            &words(&[
                "bash",
                "-l",
                "-c",
                "surreal start --bind 0.0.0.0:8000 --user root --pass pw --log debug memory --allow-all"
            ])
        ),
        _ => panic!("expected a launch"),
    }
    let (event, result) = start_report(&decision);
    assert_eq!(shown(&event), ("database:start".to_string(), None));
    assert_eq!(result, Ok(()));
}

#[test]
fn unknown_driver_fails_the_start_with_one_error_event() {
    let decision = start_database(false, Platform::Linux, &options("bogus"));
    assert!(matches!(&decision, StartDecision::Refuse(reason) if reason == "Invalid database driver"));
    let (event, result) = start_report(&decision);
    assert_eq!(
        shown(&event),
        ("database:error".to_string(), Some("Invalid database driver".to_string()))
    );
    assert_eq!(result, Err("Failed to start database".to_string()));
}

#[test]
fn end_of_the_server_is_told_by_events() {
    let failed = (
        "database:error".to_string(),
        Some("SurrealDB did not start correctly, check the console for more information".to_string()),
    );
    let hint = (
        "database:output".to_string(),
        Some("SurrealDB did not start. Are you sure the Surreal executable is available?".to_string()),
    );
    let events = |elapsed, printed| -> Vec<(String, Option<String>)> {
        exit_events(elapsed, printed).iter().map(shown).collect()
    };
    assert_eq!(events(0, false), vec![hint.clone(), failed.clone()]);
    assert_eq!(events(500, false), vec![hint, failed.clone()]);
    assert_eq!(events(500, true), vec![failed]);
    assert_eq!(events(501, false), vec![("database:stop".to_string(), None)]);
    assert_eq!(events(u64::MAX, true), vec![("database:stop".to_string(), None)]);
}

#[test]
fn stop_takes_the_process_out() {
    let mut process = Some(77);
    assert_eq!(stop_database(&mut process), (true, Some(77)));
    assert_eq!(process, None);
    assert_eq!(stop_database(&mut process), (false, None));
}
