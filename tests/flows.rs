use unitdeck::action::Action;
use unitdeck::debounce::Debouncer;
use unitdeck::model::{AddService, Mode, Scope, UnitId};
use unitdeck::unit_file::{
    backup_path, edit_outcome, editor_command, editor_failed, render_unit_file, unit_path, CreateFlow,
    CreateStep, Stage,
};

fn id(name: &str) -> UnitId {
    UnitId { name: name.to_string(), scope: Scope::Global }
}

fn service(desc: Option<&str>, dir: Option<&str>) -> AddService {
    AddService {
        name: "demo".to_string(),
        command: "/usr/bin/demo --serve".to_string(),
        desc: desc.map(|s| s.to_string()),
        working_dir: dir.map(|s| s.to_string()),
    }
}

#[test]
fn two_quick_requests_render_once() {
    let mut d = Debouncer::new();
    let mut scheduled = 0;
    if d.request() {
        scheduled += 1;
    }
    if d.request() {
        scheduled += 1;
    }
    assert_eq!(scheduled, 1);
    assert!(matches!(d.fire(), Action::Render));
    assert!(!d.debouncing);
    assert!(d.request());
}

#[test]
fn unchanged_file_does_not_reload() {
    let r = edit_outcome(id("a"), &"vi".to_string(), &"same".to_string(), Ok("same".to_string()));
    assert_eq!(r.len(), 1);
    assert!(matches!(r[0], Action::EnterMode(Mode::ServiceList)));
}

#[test]
fn changed_file_reloads_once_then_lists() {
    let r = edit_outcome(id("a"), &"vi".to_string(), &"old".to_string(), Ok("new".to_string()));
    assert_eq!(r.len(), 2);
    match &r[0] {
        Action::ReloadService(u) => assert_eq!(u.name, "a"),
        _ => panic!("expected a reload"),
    }
    assert!(matches!(r[1], Action::EnterMode(Mode::ServiceList)));
}

#[test]
fn unreadable_file_counts_as_empty() {
    let r = edit_outcome(id("a"), &"vi".to_string(), &String::new(), Ok("written".to_string()));
    assert_eq!(r.len(), 2);
}

#[test]
fn editor_failure_reports_error() {
    let r = edit_outcome(id("a"), &"nano".to_string(), &"x".to_string(), Err("not found".to_string()));
    assert_eq!(r.len(), 1);
    match &r[0] {
        Action::EnterError(m) => assert_eq!(m, "Failed to open editor `nano`: not found"),
        _ => panic!("expected an error"),
    }
}

#[test]
fn editor_falls_back_to_vim() {
    assert_eq!(editor_command(None), "vim");
    assert_eq!(editor_command(Some("hx".to_string())), "hx");
    assert_eq!(editor_failed(&"ed".to_string(), &"e".to_string()), "Failed to open editor `ed`: e");
}

#[test]
fn unit_paths() {
    assert_eq!(unit_path(&"web".to_string()), "/etc/systemd/system/web.service");
    assert_eq!(backup_path(&"/etc/systemd/system/web.service".to_string()), "/etc/systemd/system/web.service.bak");
}

#[test]
fn template_with_all_fields() {
    let t = render_unit_file(&service(Some("Demo app"), Some("/srv/demo")));
    let expected = "[Unit]\nDescription=Demo app\nAfter=network.target\n#Requires=postgresql.service\n\n[Service]\nType=simple\nUser=root\nWorkingDirectory=/srv/demo\nExecStart=/usr/bin/demo --serve\nRestart=on-failure\nRestartSec=5\n#Environment=PORT={port}\n#Environment=NODE_ENV=production\n\n[Install]\nWantedBy=multi-user.target\n";
    assert_eq!(t, expected);
}

#[test]
fn template_comments_out_missing_fields() {
    let t = render_unit_file(&service(None, None));
    assert!(t.contains("\n#Description=\n"));
    assert!(t.contains("\n#WorkingDirectory=\n"));
    assert!(t.contains("\nExecStart=/usr/bin/demo --serve\n"));
}

#[test]
fn failed_backup_stops_before_writing() {
    let (mut flow, step) = CreateFlow::begin(service(None, None), "vim".to_string(), true);
    match step {
        CreateStep::Backup { from, to } => {
            assert_eq!(from, "/etc/systemd/system/demo.service");
            assert_eq!(to, "/etc/systemd/system/demo.service.bak");
        },
        _ => panic!("expected a backup"),
    }
    match flow.advance(Err("denied".to_string())) {
        CreateStep::Finish(Action::EnterError(m)) => {
            assert_eq!(m, "Failed to create bak file `/etc/systemd/system/demo.service.bak`")
        },
        _ => panic!("expected an error"),
    }
    assert_eq!(flow.stage, Stage::Done);
}

#[test]
fn creation_runs_every_stage_then_refreshes() {
    let (mut flow, step) = CreateFlow::begin(service(Some("d"), None), "vim".to_string(), false);
    match step {
        CreateStep::Write { path, contents } => {
            assert_eq!(path, "/etc/systemd/system/demo.service");
            assert!(contents.starts_with("[Unit]\nDescription=d\n"));
        },
        _ => panic!("expected a write"),
    }
    assert!(matches!(flow.advance(Ok(())), CreateStep::Enable(ref n) if n == "demo"));
    assert!(matches!(flow.advance(Ok(())), CreateStep::OpenEditor { ref editor, .. } if editor == "vim"));
    assert!(matches!(flow.advance(Ok(())), CreateStep::DaemonReload));
    assert!(matches!(flow.advance(Ok(())), CreateStep::Start(ref n) if n == "demo"));
    assert!(matches!(flow.advance(Ok(())), CreateStep::Finish(Action::RefreshServices)));
    assert_eq!(flow.stage, Stage::Done);
}

#[test]
fn creation_failures_name_the_stage() {
    let cases = [
        (0, "Failed to create unit file `/etc/systemd/system/demo.service`"),
        (1, "Failed to enable service `demo`"),
        (2, "Failed to open editor `vim`: missing"),
        (3, "Failed to start service `demo`"),
        (4, "Failed to start service `demo`"),
    ];
    for (ok_before, msg) in cases {
        let (mut flow, _) = CreateFlow::begin(service(None, None), "vim".to_string(), false);
        for _ in 0..ok_before {
            flow.advance(Ok(()));
        }
        match flow.advance(Err("missing".to_string())) {
            CreateStep::Finish(Action::EnterError(m)) => assert_eq!(m, msg),
            _ => panic!("expected an error"),
        }
    }
}
