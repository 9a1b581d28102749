use xcm_dev::config::{find_project_root, Config, ParsedArgs, DEFAULT_PORT_END, DEFAULT_PORT_START};
use xcm_dev::launch::{Launch, LaunchEvent, ServerExit, SetupOutcome, Stage, Step};
use xcm_dev::platform::{
    base_url_string, bind_address, browser_command, server_command, setup_command,
    setup_script_name, urls_to_open, Platform,
};
use xcm_dev::port_scan::find_free_port;
use xcm_dev::readiness::{ProbeAction, ProbeEvent, ProbePhase, ReadinessProbe};
use xcm_dev::relay::{prefixed_line, relay_step, LineRead, RelayAction};
use xcm_dev::text::{decimal_string, parse_port};

fn strings(v: &[&str]) -> Vec<String> {
    v.iter().map(|s| s.to_string()).collect()
}

fn launch(open_paths: Vec<String>, run_setup: bool, open_browser: bool) -> Launch {
    Launch::new(
        "127.0.0.1".to_string(),
        8080,
        8082,
        open_paths,
        run_setup,
        open_browser,
        "php".to_string(),
        10,
        300,
    )
}

#[test]
fn decimal_renders_digits() {
    assert_eq!(decimal_string(0), "0");
    assert_eq!(decimal_string(7), "7");
    assert_eq!(decimal_string(8080), "8080");
    assert_eq!(decimal_string(65535), "65535");
    assert_eq!(decimal_string(u64::MAX), u64::MAX.to_string());
}

#[test]
fn parse_port_accepts_decimal_ports() {
    assert_eq!(parse_port("8080"), Some(8080));
    assert_eq!(parse_port("+8080"), Some(8080));
    assert_eq!(parse_port("0"), Some(0));
    assert_eq!(parse_port("007"), Some(7));
    assert_eq!(parse_port("65535"), Some(65535));
}

#[test]
fn parse_port_rejects_other_text() {
    assert_eq!(parse_port(""), None);
    assert_eq!(parse_port("+"), None);
    assert_eq!(parse_port("-1"), None);
    assert_eq!(parse_port("65536"), None);
    assert_eq!(parse_port("99999999999"), None);
    assert_eq!(parse_port("80a"), None);
    assert_eq!(parse_port(" 80"), None);
}

#[test]
fn single_occupied_port_gives_none() {
    assert_eq!(find_free_port(8080, 8080, |p| p != 8080), None);
}

#[test]
fn first_free_port_after_occupied_one() {
    assert_eq!(find_free_port(8080, 8082, |p| p != 8080), Some(8081));
}

#[test]
fn free_start_port_is_taken_first() {
    assert_eq!(find_free_port(8080, 8200, |_| true), Some(8080));
}

#[test]
fn port_scan_stops_at_first_success() {
    let probed = std::cell::RefCell::new(Vec::new());
    let r = find_free_port(3000, 3010, |p| {
        probed.borrow_mut().push(p);
        p >= 3002
    });
    assert_eq!(r, Some(3002));
    assert_eq!(*probed.borrow(), vec![3000, 3001, 3002]);
}

#[test]
fn port_scan_reaches_top_of_range() {
    assert_eq!(find_free_port(65530, 65535, |p| p == 65535), Some(65535));
    assert_eq!(find_free_port(65535, 65535, |_| false), None);
}

#[test]
fn empty_port_range_gives_none() {
    assert_eq!(find_free_port(9000, 8000, |_| true), None);
}

#[test]
fn probe_ready_when_port_taken() {
    let mut probe = ReadinessProbe::new(10_000, 100);
    assert_eq!(probe.step(ProbeEvent::Clock { elapsed_ms: 0 }), ProbeAction::TryBind);
    assert_eq!(
        probe.step(ProbeEvent::BindAttempt { succeeded: true }),
        ProbeAction::Sleep { ms: 100 }
    );
    assert_eq!(probe.step(ProbeEvent::Clock { elapsed_ms: 105 }), ProbeAction::TryBind);
    assert_eq!(
        probe.step(ProbeEvent::BindAttempt { succeeded: false }),
        ProbeAction::Finished { ready: true }
    );
    assert_eq!(probe.phase, ProbePhase::Ready);
    assert_eq!(
        probe.step(ProbeEvent::Clock { elapsed_ms: 20_000 }),
        ProbeAction::Finished { ready: true }
    );
}

#[test]
fn probe_times_out() {
    let mut probe = ReadinessProbe::new(10_000, 100);
    assert_eq!(probe.step(ProbeEvent::Clock { elapsed_ms: 9_999 }), ProbeAction::TryBind);
    assert_eq!(
        probe.step(ProbeEvent::BindAttempt { succeeded: true }),
        ProbeAction::Sleep { ms: 100 }
    );
    assert_eq!(
        probe.step(ProbeEvent::Clock { elapsed_ms: 10_000 }),
        ProbeAction::Finished { ready: false }
    );
    assert_eq!(probe.phase, ProbePhase::TimedOut);
    assert_eq!(
        probe.step(ProbeEvent::BindAttempt { succeeded: false }),
        ProbeAction::Finished { ready: false }
    );
}

#[test]
fn relay_forwards_tagged_lines() {
    assert_eq!(prefixed_line("Ready"), "  [php] Ready");
    match relay_step(true, LineRead::Line("GET / 200".to_string())) {
        RelayAction::Forward(s) => assert_eq!(s, "  [php] GET / 200"),
        RelayAction::Stop => panic!("line was dropped"),
    }
}

#[test]
fn relay_stops_after_flag_cleared() {
    assert!(matches!(
        relay_step(false, LineRead::Line("late".to_string())),
        RelayAction::Stop
    ));
}

#[test]
fn relay_stops_at_end_or_error() {
    assert!(matches!(relay_step(true, LineRead::Ended), RelayAction::Stop));
    assert!(matches!(relay_step(true, LineRead::Failed), RelayAction::Stop));
}

#[test]
fn platform_setup_commands() {
    assert_eq!(setup_script_name(Platform::Windows), "setup.bat");
    assert_eq!(setup_script_name(Platform::Linux), "setup.sh");
    assert_eq!(setup_script_name(Platform::MacOs), "setup.sh");
    let w = setup_command(Platform::Windows, "C:\\p\\setup.bat");
    assert_eq!(w.program, "cmd");
    assert_eq!(w.args, strings(&["/C", "C:\\p\\setup.bat"]));
    let l = setup_command(Platform::Linux, "/p/setup.sh");
    assert_eq!(l.program, "bash");
    assert_eq!(l.args, strings(&["/p/setup.sh"]));
}

#[test]
fn platform_browser_commands() {
    let u = "http://127.0.0.1:8080/";
    let m = browser_command(Platform::MacOs, u).unwrap();
    assert_eq!((m.program.as_str(), m.args), ("open", strings(&[u])));
    let w = browser_command(Platform::Windows, u).unwrap();
    assert_eq!((w.program.as_str(), w.args), ("cmd", strings(&["/C", "start", u])));
    let l = browser_command(Platform::Linux, u).unwrap();
    assert_eq!((l.program.as_str(), l.args), ("xdg-open", strings(&[u])));
    assert!(browser_command(Platform::Other, u).is_none());
}

#[test]
fn server_command_binds_host_and_port() {
    assert_eq!(bind_address("127.0.0.1", 8081), "127.0.0.1:8081");
    assert_eq!(base_url_string("localhost", 80), "http://localhost:80");
    let c = server_command("php", "127.0.0.1", 8081, "/p/router.php");
    assert_eq!(c.program, "php");
    assert_eq!(c.args, strings(&["-S", "127.0.0.1:8081", "/p/router.php"]));
}

#[test]
fn default_urls_when_none_configured() {
    assert_eq!(
        urls_to_open("127.0.0.1", 8081, &Vec::new()),
        strings(&[
            "http://127.0.0.1:8081/dashboard",
            "http://127.0.0.1:8081/project-mgr",
            "http://127.0.0.1:8081/",
            "http://127.0.0.1:8081/?demo=1",
        ])
    );
}

#[test]
fn configured_urls_keep_order() {
    assert_eq!(
        urls_to_open("h", 1, &strings(&["/b", "/a"])),
        strings(&["http://h:1/b", "http://h:1/a"])
    );
}

#[test]
fn launch_exits_when_no_port_is_free() {
    let mut l = Launch::new(
        "127.0.0.1".to_string(),
        8080,
        8080,
        Vec::new(),
        false,
        true,
        "php".to_string(),
        10,
        300,
    );
    assert!(matches!(l.begin(), Step::FindPort { start: 8080, end: 8080 }));
    let port = find_free_port(8080, 8080, |p| p != 8080);
    let a = l.step(LaunchEvent::PortSearched(port));
    assert!(matches!(a.step, Step::Exit { code: 1 }));
    assert_eq!(a.notices.len(), 1);
    assert!(a.notices[0].error);
    assert_eq!(a.notices[0].text, "  ERROR: No free port found in range 8080-8080");
    assert_eq!(l.stage, Stage::Done);
}

#[test]
fn missing_setup_script_is_silent() {
    let mut l = launch(Vec::new(), true, true);
    assert!(matches!(l.begin(), Step::RunSetup));
    let a = l.step(LaunchEvent::SetupDone(SetupOutcome::NoScript));
    assert!(a.notices.is_empty());
    assert!(matches!(a.step, Step::FindPort { start: 8080, end: 8082 }));
}

#[test]
fn setup_failure_still_leads_to_port_and_spawn() {
    for outcome in [
        SetupOutcome::ExitedWith("exit status: 2".to_string()),
        SetupOutcome::CouldNotRun("No such file or directory".to_string()),
        SetupOutcome::Succeeded,
    ] {
        let mut l = launch(Vec::new(), true, true);
        l.begin();
        let a = l.step(LaunchEvent::SetupDone(outcome));
        assert!(matches!(a.step, Step::FindPort { start: 8080, end: 8082 }));
        let a = l.step(LaunchEvent::PortSearched(Some(8081)));
        assert!(matches!(a.step, Step::SpawnServer { port: 8081 }));
    }
}

#[test]
fn setup_notices_name_the_outcome() {
    let mut l = launch(Vec::new(), true, true);
    l.begin();
    let a = l.step(LaunchEvent::SetupDone(SetupOutcome::ExitedWith("exit status: 2".to_string())));
    assert!(a.notices[0].error);
    assert_eq!(a.notices[0].text, "  Setup exited with status: exit status: 2");
    assert_eq!(a.notices[1].text, "");
    let mut l = launch(Vec::new(), true, true);
    l.begin();
    let a = l.step(LaunchEvent::SetupDone(SetupOutcome::Succeeded));
    assert!(!a.notices[0].error);
    assert_eq!(a.notices[0].text, "  Setup complete.");
    let mut l = launch(Vec::new(), true, true);
    l.begin();
    let a = l.step(LaunchEvent::SetupDone(SetupOutcome::CouldNotRun("denied".to_string())));
    assert_eq!(a.notices[0].text, "  Setup error: denied");
}

#[test]
fn spawn_failure_names_the_binary() {
    let mut l = launch(Vec::new(), false, true);
    l.begin();
    l.step(LaunchEvent::PortSearched(Some(8080)));
    let a = l.step(LaunchEvent::SpawnFailed("not found".to_string()));
    assert!(matches!(a.step, Step::Exit { code: 1 }));
    assert_eq!(a.notices[0].text, "  ERROR: Could not start PHP server: not found");
    assert_eq!(a.notices[1].text, "  Make sure 'php' is on your PATH.");
}

#[test]
fn full_launch_opens_each_url_then_waits() {
    let mut l = launch(strings(&["/a", "/b"]), false, true);
    l.begin();
    l.step(LaunchEvent::PortSearched(Some(8081)));
    let a = l.step(LaunchEvent::Spawned);
    assert!(matches!(a.step, Step::StartRelaysAndProbe { port: 8081 }));
    let a = l.step(LaunchEvent::ProbeFinished { ready: false });
    assert_eq!(a.notices[0].text, "  WARNING: Server did not respond within 10s");
    match a.step {
        Step::OpenUrl { url, pause_ms } => {
            assert_eq!(url, "http://127.0.0.1:8081/a");
            assert_eq!(pause_ms, 300);
        }
        other => panic!("unexpected {:?}", other),
    }
    let a = l.step(LaunchEvent::UrlOpened(Some("unsupported platform".to_string())));
    assert_eq!(a.notices[0].text, "  Could not open browser: unsupported platform");
    assert!(matches!(a.step, Step::OpenUrl { ref url, .. } if url == "http://127.0.0.1:8081/b"));
    let a = l.step(LaunchEvent::UrlOpened(None));
    assert!(a.notices.is_empty());
    assert!(matches!(a.step, Step::WaitForExit));
    assert!(l.accepts(&LaunchEvent::ServerExited(ServerExit::Success)));
    assert!(!l.accepts(&LaunchEvent::Spawned));
    let a = l.step(LaunchEvent::ServerExited(ServerExit::ExitedWith("signal: 2".to_string())));
    assert!(matches!(a.step, Step::Exit { code: 0 }));
    assert_eq!(a.notices[0].text, "  PHP server exited with status: signal: 2");
}

#[test]
fn launch_without_browser_waits_after_probe() {
    let mut l = launch(Vec::new(), false, false);
    l.begin();
    l.step(LaunchEvent::PortSearched(Some(8080)));
    l.step(LaunchEvent::Spawned);
    let a = l.step(LaunchEvent::ProbeFinished { ready: true });
    assert!(a.notices.is_empty());
    assert!(matches!(a.step, Step::WaitForExit));
    let a = l.step(LaunchEvent::ServerExited(ServerExit::WaitFailed("io".to_string())));
    assert_eq!(a.notices[0].text, "  PHP server error: io");
    let mut l = launch(Vec::new(), false, false);
    l.begin();
    l.step(LaunchEvent::PortSearched(Some(8080)));
    l.step(LaunchEvent::Spawned);
    l.step(LaunchEvent::ProbeFinished { ready: true });
    let a = l.step(LaunchEvent::ServerExited(ServerExit::Success));
    assert!(a.notices.is_empty());
}

#[test]
fn args_defaults() {
    match Config::parse_args(&strings(&["xcm-dev"]), "/proj".to_string()) {
        ParsedArgs::Run(c) => {
            assert_eq!(c.root, "/proj");
            assert_eq!(c.host, "127.0.0.1");
            assert_eq!((c.port_start, c.port_end), (DEFAULT_PORT_START, DEFAULT_PORT_END));
            assert_eq!(c.router, "router.php");
            assert!(c.open_paths.is_empty());
            assert!(c.run_setup && c.open_browser);
            assert_eq!(c.php_bin, "php");
        }
        other => panic!("unexpected {:?}", other),
    }
}

#[test]
fn args_flags_override() {
    let args = strings(&[
        "xcm-dev", "--root", "/r", "--host", "0.0.0.0", "--port-start", "9000", "--port-end",
        "nope", "--router", "index.php", "--open", "/x", "--bogus", "--open", "/y", "--php",
        "php8", "--no-setup", "--no-open",
    ]);
    match Config::parse_args(&args, "/proj".to_string()) {
        ParsedArgs::Run(c) => {
            assert_eq!(c.root, "/r");
            assert_eq!(c.host, "0.0.0.0");
            assert_eq!(c.port_start, 9000);
            assert_eq!(c.port_end, DEFAULT_PORT_END);
            assert_eq!(c.router, "index.php");
            assert_eq!(c.open_paths, strings(&["/x", "/y"]));
            assert_eq!(c.php_bin, "php8");
            assert!(!c.run_setup && !c.open_browser);
        }
        other => panic!("unexpected {:?}", other),
    }
}

#[test]
fn args_help_and_missing_value() {
    assert!(matches!(
        Config::parse_args(&strings(&["x", "--no-open", "-h"]), String::new()),
        ParsedArgs::Help
    ));
    assert!(matches!(
        Config::parse_args(&strings(&["x", "--help"]), String::new()),
        ParsedArgs::Help
    ));
    match Config::parse_args(&strings(&["x", "--port-end"]), String::new()) {
        ParsedArgs::MissingValue(f) => assert_eq!(f, "--port-end"),
        other => panic!("unexpected {:?}", other),
    }
    match Config::parse_args(&strings(&["x", "--host", "--help"]), String::new()) {
        ParsedArgs::Run(c) => assert_eq!(c.host, "--help"),
        other => panic!("unexpected {:?}", other),
    }
}

#[test]
fn project_root_is_first_marked_ancestor() {
    let dirs = strings(&["/a/b/c", "/a/b", "/a", "/"]);
    let found = find_project_root(&dirs, |d: &String, m: &String| {
        (d == "/a/b" && m == "package.json") || (d == "/a" && m == "composer.json")
    });
    assert_eq!(found, Some("/a/b".to_string()));
    let found = find_project_root(&dirs, |d: &String, m: &String| d == "/" && m == "router.php");
    assert_eq!(found, Some("/".to_string()));
    assert_eq!(find_project_root(&dirs, |_: &String, _: &String| false), None);
    assert_eq!(find_project_root(&Vec::new(), |_: &String, _: &String| true), None);
}

#[test]
fn served_process_ready_then_terminated() {
    let mut l = launch(Vec::new(), false, false);
    l.begin();
    l.step(LaunchEvent::PortSearched(Some(8080)));
    let a = l.step(LaunchEvent::Spawned);
    assert!(matches!(a.step, Step::StartRelaysAndProbe { port: 8080 }));
    match relay_step(true, LineRead::Line("Ready".to_string())) {
        RelayAction::Forward(s) => assert_eq!(s, "  [php] Ready"),
        RelayAction::Stop => panic!("line was dropped"),
    }
    let mut probe = ReadinessProbe::new(10_000, 100);
    assert_eq!(probe.step(ProbeEvent::Clock { elapsed_ms: 0 }), ProbeAction::TryBind);
    assert_eq!(
        probe.step(ProbeEvent::BindAttempt { succeeded: false }),
        ProbeAction::Finished { ready: true }
    );
    let a = l.step(LaunchEvent::ProbeFinished { ready: true });
    assert!(matches!(a.step, Step::WaitForExit));
    assert_eq!(l.stage, Stage::Wait);
    let a = l.step(LaunchEvent::ServerExited(ServerExit::ExitedWith("signal: 15".to_string())));
    assert!(matches!(a.step, Step::Exit { code: 0 }));
    assert!(matches!(
        relay_step(false, LineRead::Line("after exit".to_string())),
        RelayAction::Stop
    ));
    assert!(matches!(relay_step(true, LineRead::Ended), RelayAction::Stop));
}
