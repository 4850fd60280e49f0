use std::collections::HashMap;

use nssm_exec::{
    command_line, failure_cause, nssm_exec, CommandError, Account, Action, ErrorKind, Event, FileConfig, OtherConfig, Outcome,
    Service,
};

fn wide(s: &str) -> Vec<u8> {
    let mut v = Vec::new();
    for b in s.bytes() {
        v.push(b);
        v.push(0);
    }
    v
}

fn service(name: &str) -> Service {
    Service {
        name: name.to_string(),
        path: format!("{}.exe", name.to_lowercase()),
        startup_dir: None,
        args: None,
        description: None,
        other: None,
    }
}

fn config(services: Vec<Service>) -> FileConfig {
    FileConfig {
        nssm_path: "nssm.exe".to_string(),
        pending_stop_poll_ms: None,
        pending_stop_poll_count: None,
        pending_start_poll_ms: None,
        pending_start_poll_count: None,
        global: None,
        services,
    }
}

struct Report {
    outcomes: Vec<Outcome>,
    commands: Vec<Vec<String>>,
    warnings: Vec<Vec<ErrorKind>>,
    sleeps: Vec<u64>,
}

fn run(cfg: &FileConfig, mut respond: impl FnMut(&[String]) -> Result<Vec<u8>, String>) -> Report {
    let (mut batch, mut next) = nssm_exec(cfg);
    let mut commands = Vec::new();
    let mut warnings = Vec::new();
    let mut sleeps = Vec::new();
    while let Some(action) = next {
        let event = match action {
            Action::RunTool(args) => {
                let r = respond(&args);
                commands.push(args);
                Event::ToolRan(r.map_err(|cause| vec![cause]))
            }
            Action::ResolvePath(p) => Event::PathResolved(Ok(format!("C:\\svc\\{}", p))),
            Action::Sleep(ms) => {
                sleeps.push(ms);
                Event::Slept
            }
            Action::Finish(_) => panic!("a finished service is recorded, not handed out"),
        };
        assert!(batch.phase.accepts(&event));
        let step = batch.advance(cfg, event);
        if let Some(w) = step.warning {
            warnings.push(w);
        }
        next = step.next;
    }
    assert_eq!(batch.index, cfg.services.len());
    Report { outcomes: batch.outcomes, commands, warnings, sleeps }
}

fn cmd(args: &[&str]) -> Vec<String> {
    args.iter().map(|s| s.to_string()).collect()
}

fn chain_text(o: &Outcome) -> Vec<String> {
    match o {
        Outcome::Failed(c) => c.iter().map(|k| k.message()).collect(),
        Outcome::Succeeded => Vec::new(),
    }
}

#[test]
fn absent_service_is_installed_and_configured() {
    let mut svc = service("Foo");
    svc.args = Some("--port 80".to_string());
    svc.description = Some("Foo service".to_string());
    let cfg = config(vec![svc]);
    let r = run(&cfg, |args| {
        if args[0] == "status" {
            Err("Can't open service!".to_string())
        } else {
            Ok(Vec::new())
        }
    });
    assert!(matches!(r.outcomes[..], [Outcome::Succeeded]));
    assert_eq!(
        r.commands,
        vec![
            cmd(&["status", "Foo"]),
            cmd(&["install", "Foo", "C:\\svc\\foo.exe"]),
            cmd(&["set", "Foo", "AppParameters", "--port 80"]),
            cmd(&["set", "Foo", "Description", "Foo service"]),
        ]
    );
    assert!(r.warnings.is_empty());
}

#[test]
fn running_service_stop_error_is_tolerated() {
    let mut cfg = config(vec![service("Foo")]);
    cfg.pending_stop_poll_ms = Some(10);
    cfg.pending_stop_poll_count = Some(3);
    let mut polls = 0;
    let r = run(&cfg, |args| match args[0].as_str() {
        "status" => {
            polls += 1;
            Ok(wide(match polls {
                1 => "SERVICE_RUNNING",
                2 => "SERVICE_STOP_PENDING",
                _ => "SERVICE_STOPPED",
            }))
        }
        "stop" => Err("Unexpected status SERVICE_STOP_PENDING in response to STOP control.".to_string()),
        _ => Ok(Vec::new()),
    });
    assert!(matches!(r.outcomes[..], [Outcome::Succeeded]));
    assert_eq!(polls, 3);
    assert_eq!(r.sleeps, vec![10]);
    assert_eq!(r.warnings.len(), 1);
    let w: Vec<String> = r.warnings[0].iter().map(|k| k.message()).collect();
    assert_eq!(
        w,
        vec![
            "Service stopping returned error, temporarily allowing this for service 'Foo'".to_string(),
            "Unexpected status SERVICE_STOP_PENDING in response to STOP control.".to_string(),
        ]
    );
    assert_eq!(
        r.commands,
        vec![
            cmd(&["status", "Foo"]),
            cmd(&["stop", "Foo"]),
            cmd(&["status", "Foo"]),
            cmd(&["status", "Foo"]),
            cmd(&["remove", "Foo", "confirm"]),
            cmd(&["install", "Foo", "C:\\svc\\foo.exe"]),
        ]
    );
}

#[test]
fn stuck_service_fails_alone() {
    let cfg = config(vec![service("Bar"), service("Baz")]);
    let r = run(&cfg, |args| match (args[0].as_str(), args.get(1).map(|s| s.as_str())) {
        ("status", Some("Bar")) => Ok(wide("SERVICE_STOP_PENDING")),
        ("status", _) => Err("Can't open service!".to_string()),
        _ => Ok(Vec::new()),
    });
    assert_eq!(r.outcomes.len(), 2);
    let c = chain_text(&r.outcomes[0]);
    assert!(c.iter().any(|m| m.to_lowercase().contains("unable to wait for service 'bar' to stop")));
    assert!(matches!(r.outcomes[1], Outcome::Succeeded));
    let bar_polls = r.commands.iter().filter(|c| **c == cmd(&["status", "Bar"])).count();
    assert_eq!(bar_polls, 1 + 5);
    assert_eq!(r.sleeps, vec![500, 500, 500, 500]);
    assert!(r.commands.contains(&cmd(&["install", "Baz", "C:\\svc\\baz.exe"])));
    assert!(!r.commands.iter().any(|c| c[0] == "remove" || c[0] == "install" && c[1] == "Bar"));
}

#[test]
fn empty_password_is_passed_explicitly() {
    let mut svc = service("Foo");
    svc.other = Some(OtherConfig {
        deps: None,
        start_on_create: None,
        account: Some(Account { user: ".\\svcuser".to_string(), password: String::new() }),
    });
    let cfg = config(vec![svc]);
    let r = run(&cfg, |args| if args[0] == "status" { Err("none".to_string()) } else { Ok(Vec::new()) });
    let last = r.commands.last().unwrap();
    assert_eq!(*last, cmd(&["set", "Foo", "ObjectName", ".\\svcuser", ""]));
    assert_eq!(command_line(last), "set Foo ObjectName .\\svcuser \"\"");
}

#[test]
fn global_settings_fill_in_per_field() {
    let mut svc = service("Foo");
    svc.startup_dir = Some("work".to_string());
    svc.other = Some(OtherConfig { deps: Some("A".to_string()), start_on_create: None, account: None });
    let mut cfg = config(vec![svc]);
    cfg.global = Some(OtherConfig {
        deps: Some("B C".to_string()),
        start_on_create: Some(true),
        account: Some(Account { user: "u".to_string(), password: "p w".to_string() }),
    });
    let mut started = false;
    let r = run(&cfg, |args| match args[0].as_str() {
        "status" if started => Ok(wide("SERVICE_RUNNING")),
        "status" => Err("none".to_string()),
        "start" => {
            started = true;
            Ok(Vec::new())
        }
        _ => Ok(Vec::new()),
    });
    assert!(matches!(r.outcomes[..], [Outcome::Succeeded]));
    assert_eq!(
        r.commands,
        vec![
            cmd(&["status", "Foo"]),
            cmd(&["install", "Foo", "C:\\svc\\foo.exe"]),
            cmd(&["set", "Foo", "AppDirectory", "C:\\svc\\work"]),
            cmd(&["set", "Foo", "DependOnService", "A"]),
            cmd(&["set", "Foo", "ObjectName", "u", "p w"]),
            cmd(&["start", "Foo"]),
            cmd(&["status", "Foo"]),
        ]
    );
}

#[test]
fn dependencies_are_split_into_words() {
    let mut cfg = config(vec![service("Foo")]);
    cfg.global = Some(OtherConfig { deps: Some("Tcpip  Dhcp".to_string()), start_on_create: None, account: None });
    let r = run(&cfg, |args| if args[0] == "status" { Err("none".to_string()) } else { Ok(Vec::new()) });
    assert_eq!(*r.commands.last().unwrap(), cmd(&["set", "Foo", "DependOnService", "Tcpip", "Dhcp"]));
}

#[test]
fn failures_carry_their_cause() {
    let cfg = config(vec![service("Foo"), service("Qux")]);
    let r = run(&cfg, |args| match args[0].as_str() {
        "status" => Ok(wide("SERVICE_STOPPED")),
        "remove" if args[1] == "Foo" => Err("exit code: 3".to_string()),
        "install" => Err("exit code: 5".to_string()),
        _ => Ok(Vec::new()),
    });
    assert_eq!(chain_text(&r.outcomes[0]), vec!["Unable to remove service 'Foo'", "exit code: 3"]);
    assert_eq!(chain_text(&r.outcomes[1]), vec!["Unable to install service 'Qux'", "exit code: 5"]);
}

#[test]
fn unresolvable_path_fails_the_service() {
    let mut svc = service("Foo");
    svc.startup_dir = Some("missing".to_string());
    let cfg = config(vec![svc]);
    let (mut batch, next) = nssm_exec(&cfg);
    assert!(matches!(next, Some(Action::RunTool(_))));
    let step = batch.advance(&cfg, Event::ToolRan(Err(vec!["none".to_string()])));
    assert!(matches!(step.next, Some(Action::ResolvePath(ref p)) if p == "foo.exe"));
    let step = batch.advance(&cfg, Event::PathResolved(Ok("C:\\foo.exe".to_string())));
    assert!(matches!(step.next, Some(Action::RunTool(_))));
    let step = batch.advance(&cfg, Event::ToolRan(Ok(Vec::new())));
    assert!(matches!(step.next, Some(Action::ResolvePath(ref p)) if p == "missing"));
    let step = batch.advance(&cfg, Event::PathResolved(Err("not found".to_string())));
    assert!(step.next.is_none());
    assert_eq!(
        chain_text(&batch.outcomes[0]),
        vec!["Unable to canonicalize startup directory path 'missing' for service 'Foo'", "not found"]
    );
}

#[test]
fn start_that_never_runs_fails() {
    let mut cfg = config(vec![service("Foo")]);
    cfg.pending_start_poll_count = Some(2);
    cfg.pending_start_poll_ms = Some(7);
    cfg.global = Some(OtherConfig { deps: None, start_on_create: Some(true), account: None });
    let r = run(&cfg, |args| match args[0].as_str() {
        "status" => Err("none".to_string()),
        "start" => Err("start failed".to_string()),
        _ => Ok(Vec::new()),
    });
    assert_eq!(chain_text(&r.outcomes[0]), vec!["Unable to wait for service 'Foo' to start"]);
    assert_eq!(r.sleeps, vec![7]);
    assert_eq!(r.warnings.len(), 1);
}

/// A service database that behaves like the tool's.
#[derive(Default)]
struct Tool {
    services: HashMap<String, (String, Vec<Vec<String>>)>,
}

impl Tool {
    fn respond(&mut self, args: &[String]) -> Result<Vec<u8>, String> {
        let name = args[1].clone();
        match args[0].as_str() {
            "status" => match self.services.get(&name) {
                Some((state, _)) => Ok(wide(&format!("{}\r\n", state))),
                None => Err("Can't open service!".to_string()),
            },
            "stop" => {
                self.services.get_mut(&name).ok_or("no service")?.0 = "SERVICE_STOPPED".to_string();
                Ok(Vec::new())
            }
            "start" => {
                self.services.get_mut(&name).ok_or("no service")?.0 = "SERVICE_RUNNING".to_string();
                Ok(Vec::new())
            }
            "remove" => self.services.remove(&name).map(|_| Vec::new()).ok_or("no service".to_string()),
            "install" => {
                if self.services.contains_key(&name) {
                    return Err("service exists".to_string());
                }
                self.services.insert(name, ("SERVICE_STOPPED".to_string(), vec![args.to_vec()]));
                Ok(Vec::new())
            }
            _ => {
                self.services.get_mut(&name).ok_or("no service")?.1.push(args.to_vec());
                Ok(Vec::new())
            }
        }
    }
}

#[test]
fn reconciling_again_succeeds_with_the_same_result() {
    let mut a = service("Foo");
    a.other = Some(OtherConfig { deps: None, start_on_create: Some(true), account: None });
    let mut b = service("Bar");
    b.description = Some("bar".to_string());
    let cfg = config(vec![a, b]);
    let mut tool = Tool::default();
    let first = run(&cfg, |args| tool.respond(args));
    assert!(first.outcomes.iter().all(|o| matches!(o, Outcome::Succeeded)));
    let snapshot: Vec<_> = ["Foo", "Bar"].iter().map(|n| tool.services[*n].clone()).collect();
    let second = run(&cfg, |args| tool.respond(args));
    assert!(second.outcomes.iter().all(|o| matches!(o, Outcome::Succeeded)));
    let again: Vec<_> = ["Foo", "Bar"].iter().map(|n| tool.services[*n].clone()).collect();
    assert_eq!(snapshot, again);
    assert_eq!(tool.services["Foo"].0, "SERVICE_RUNNING");
}

#[test]
fn each_setting_failure_names_its_field() {
    let cases = [
        ("AppDirectory", "Unable to set startup directory for service 'Foo'"),
        ("AppParameters", "Unable to set 'AppParameters' for service 'Foo'"),
        ("Description", "Unable to set 'Description' for service 'Foo'"),
        ("DependOnService", "Unable to set 'DependOnService' for service 'Foo'"),
        ("ObjectName", "Unable to set the username and password for service 'Foo'"),
    ];
    for (field, message) in cases.iter() {
        let mut svc = service("Foo");
        svc.startup_dir = Some("dir".to_string());
        svc.args = Some("-v".to_string());
        svc.description = Some("d".to_string());
        svc.other = Some(OtherConfig {
            deps: Some("A".to_string()),
            start_on_create: Some(false),
            account: Some(Account { user: "u".to_string(), password: "p".to_string() }),
        });
        let cfg = config(vec![svc]);
        let r = run(&cfg, |args| match args[0].as_str() {
            "status" => Err("none".to_string()),
            "set" if args[2] == *field => Err("refused".to_string()),
            _ => Ok(Vec::new()),
        });
        assert_eq!(chain_text(&r.outcomes[0]), vec![message.to_string(), "refused".to_string()]);
        assert_eq!(r.commands.last().unwrap()[2], *field);
    }
}

#[test]
fn unresolvable_executable_fails_before_install() {
    let cfg = config(vec![service("Foo")]);
    let (mut batch, _) = nssm_exec(&cfg);
    let step = batch.advance(&cfg, Event::ToolRan(Err(vec!["none".to_string()])));
    assert!(matches!(step.next, Some(Action::ResolvePath(_))));
    let step = batch.advance(&cfg, Event::PathResolved(Err("no such file".to_string())));
    assert!(step.next.is_none());
    assert_eq!(
        chain_text(&batch.outcomes[0]),
        vec!["Unable to canonicalize path 'foo.exe' for service 'Foo'", "no such file"]
    );
}

#[test]
fn empty_configuration_has_nothing_to_do() {
    let cfg = config(vec![]);
    let (batch, next) = nssm_exec(&cfg);
    assert!(next.is_none());
    assert!(batch.outcomes.is_empty());
}

#[test]
fn spawn_failure_keeps_every_layer() {
    let cfg = config(vec![service("Foo")]);
    let (mut batch, _) = nssm_exec(&cfg);
    batch.advance(&cfg, Event::ToolRan(Err(vec!["none".to_string()])));
    batch.advance(&cfg, Event::PathResolved(Ok("C:\\foo.exe".to_string())));
    let cause = failure_cause(
        "nssm.exe install Foo C:\\foo.exe",
        &CommandError::SpawnFailed("program not found".to_string()),
    );
    let step = batch.advance(&cfg, Event::ToolRan(Err(cause)));
    assert!(step.next.is_none());
    assert_eq!(
        chain_text(&batch.outcomes[0]),
        vec![
            "Unable to install service 'Foo'",
            "Unable to create command 'nssm.exe install Foo C:\\foo.exe'",
            "program not found",
        ]
    );
}

#[test]
fn tolerated_stop_warning_keeps_every_layer() {
    let mut cfg = config(vec![service("Foo")]);
    cfg.pending_stop_poll_count = Some(1);
    let (mut batch, _) = nssm_exec(&cfg);
    batch.advance(&cfg, Event::ToolRan(Ok(wide("SERVICE_PAUSED"))));
    let step = batch.advance(&cfg, Event::ToolRan(Err(vec!["outer".to_string(), "inner".to_string()])));
    let w: Vec<String> = step.warning.unwrap().iter().map(|k| k.message()).collect();
    assert_eq!(
        w,
        vec!["Service stopping returned error, temporarily allowing this for service 'Foo'", "outer", "inner"]
    );
    assert!(matches!(step.next, Some(Action::RunTool(ref a)) if *a == cmd(&["status", "Foo"])));
}

#[test]
fn first_event_answers_the_status_query() {
    let cfg = config(vec![service("Foo"), service("Bar")]);
    let (batch, next) = nssm_exec(&cfg);
    assert!(matches!(batch.phase, nssm_exec::Phase::QueryStatus));
    assert!(matches!(next, Some(Action::RunTool(ref a)) if *a == cmd(&["status", "Foo"])));
}
