//! Unit files: where a new unit's file goes, the text written into it, the
//! messages of each failure, and the decisions of the edit and creation
//! flows. Reading files, running the editor and calling the service manager
//! are left to the caller, which reports each outcome back.
use vstd::prelude::*;
use vstd::string::*;

use crate::action::Action;
use crate::model::{AddService, Mode, UnitId};

verus! {

/// The editor run when none is configured.
pub open spec fn default_editor() -> Seq<char> {
    "vim"@
}

/// The file of the unit named `name`.
pub open spec fn unit_path_spec(name: Seq<char>) -> Seq<char> {
    "/etc/systemd/system/"@ + name + ".service"@
}

/// Where a unit file is copied before it is overwritten.
pub open spec fn backup_path_spec(path: Seq<char>) -> Seq<char> {
    path + ".bak"@
}

/// The comment mark that switches a template line off when its field is absent.
pub open spec fn toggle(present: bool) -> Seq<char> {
    if present {
        Seq::empty()
    } else {
        "#"@
    }
}

pub open spec fn or_empty(o: Option<String>) -> Seq<char> {
    match o {
        Some(s) => s@,
        None => Seq::empty(),
    }
}

/// The text of the unit file created for `s`.
pub open spec fn unit_file_text(s: AddService) -> Seq<char> {
    "[Unit]\n"@ + toggle(s.desc is Some) + "Description="@ + or_empty(s.desc)
        + "\nAfter=network.target\n#Requires=postgresql.service\n\n[Service]\nType=simple\nUser=root\n"@
        + toggle(s.working_dir is Some) + "WorkingDirectory="@ + or_empty(s.working_dir)
        + "\nExecStart="@ + s.command@
        + "\nRestart=on-failure\nRestartSec=5\n#Environment=PORT={port}\n#Environment=NODE_ENV=production\n\n[Install]\nWantedBy=multi-user.target\n"@
}

pub open spec fn quoted(prefix: Seq<char>, x: Seq<char>) -> Seq<char> {
    prefix + x + "`"@
}

pub open spec fn backup_failed_msg(bak: Seq<char>) -> Seq<char> {
    quoted("Failed to create bak file `"@, bak)
}

pub open spec fn write_failed_msg(path: Seq<char>) -> Seq<char> {
    quoted("Failed to create unit file `"@, path)
}

pub open spec fn enable_failed_msg(name: Seq<char>) -> Seq<char> {
    quoted("Failed to enable service `"@, name)
}

pub open spec fn start_failed_msg(name: Seq<char>) -> Seq<char> {
    quoted("Failed to start service `"@, name)
}

pub open spec fn editor_failed_msg(editor: Seq<char>, err: Seq<char>) -> Seq<char> {
    "Failed to open editor `"@ + editor + "`: "@ + err
}

/// The editor to run: the configured one, or the default.
pub fn editor_command(configured: Option<String>) -> (r: String)
    ensures
        r@ == match configured {
            Some(e) => e@,
            None => default_editor(),
        },
{
    match configured {
        Some(e) => e,
        None => String::from_str("vim"),
    }
}

/// The file of the unit named `name`.
pub fn unit_path(name: &String) -> (r: String)
    ensures
        r@ == unit_path_spec(name@),
{
    let mut p = String::from_str("/etc/systemd/system/");
    p.append(name.as_str());
    p.append(".service");
    p
}

/// Where `path` is copied before it is overwritten.
pub fn backup_path(path: &String) -> (r: String)
    ensures
        r@ == backup_path_spec(path@),
{
    let mut p = path.clone();
    p.append(".bak");
    p
}

fn quote(prefix: &str, x: &String) -> (r: String)
    ensures
        r@ == quoted(prefix@, x@),
{
    let mut m = String::from_str(prefix);
    m.append(x.as_str());
    m.append("`");
    m
}

/// The message shown when the editor could not be launched.
pub fn editor_failed(editor: &String, err: &String) -> (r: String)
    ensures
        r@ == editor_failed_msg(editor@, err@),
{
    let mut m = String::from_str("Failed to open editor `");
    m.append(editor.as_str());
    m.append("`: ");
    m.append(err.as_str());
    m
}

fn push_option(t: &mut String, o: &Option<String>)
    ensures
        final(t)@ == old(t)@ + or_empty(*o),
{
    match o {
        Some(s) => t.append(s.as_str()),
        None => {},
    }
}

fn push_toggle(t: &mut String, present: bool)
    ensures
        final(t)@ == old(t)@ + toggle(present),
{
    if !present {
        t.append("#");
    } else {
        proof {
            assert(t@ + toggle(present) =~= t@);
        }
    }
}

/// Renders the unit-file template for `s`: each placeholder is filled from
/// `s`, and the description and working-directory lines are commented out
/// where those fields are absent.
pub fn render_unit_file(s: &AddService) -> (r: String)
    ensures
        r@ == unit_file_text(*s),
{
    let mut t = String::from_str("[Unit]\n");
    push_toggle(&mut t, s.desc.is_some());
    t.append("Description=");
    push_option(&mut t, &s.desc);
    t.append("\nAfter=network.target\n#Requires=postgresql.service\n\n[Service]\nType=simple\nUser=root\n");
    push_toggle(&mut t, s.working_dir.is_some());
    t.append("WorkingDirectory=");
    push_option(&mut t, &s.working_dir);
    t.append("\nExecStart=");
    t.append(s.command.as_str());
    t.append("\nRestart=on-failure\nRestartSec=5\n#Environment=PORT={port}\n#Environment=NODE_ENV=production\n\n[Install]\nWantedBy=multi-user.target\n");
    t
}

/// The actions that follow an edit session of `unit`'s file. `before` is the
/// file's text before the editor ran; `session` is the text after it, or why
/// the editor could not be launched.
pub fn edit_outcome(unit: UnitId, editor: &String, before: &String, session: Result<String, String>) -> (r:
    Vec<Action>)
    ensures
        match session {
            Ok(after) => if before@ == after@ {
                r@ == seq![Action::EnterMode(Mode::ServiceList)]
            } else {
                r@ == seq![Action::ReloadService(unit), Action::EnterMode(Mode::ServiceList)]
            },
            Err(e) => r@.len() == 1 && (r@[0] matches Action::EnterError(m) && m@
                == editor_failed_msg(editor@, e@)),
        },
{
    let mut r: Vec<Action> = Vec::new();
    match session {
        Ok(after) => {
            if !(*before == after) {
                r.push(Action::ReloadService(unit));
            }
            r.push(Action::EnterMode(Mode::ServiceList));
        },
        Err(e) => {
            r.push(Action::EnterError(editor_failed(editor, &e)));
        },
    }
    r
}

/// The stages of creating a unit, each one outside operation.
#[derive(Clone, Copy, Debug, PartialEq, Eq, Structural)]
pub enum Stage {
    Backup,
    Write,
    Enable,
    Editor,
    Reload,
    Start,
    Done,
}

/// The stage that follows `st` when its operation succeeded (`ok`) or failed.
pub open spec fn next_stage(st: Stage, ok: bool) -> Stage {
    if !ok {
        Stage::Done
    } else {
        match st {
            Stage::Backup => Stage::Write,
            Stage::Write => Stage::Enable,
            Stage::Enable => Stage::Editor,
            Stage::Editor => Stage::Reload,
            Stage::Reload => Stage::Start,
            _ => Stage::Done,
        }
    }
}

/// The stages entered, in order, when the operations of the stages from `st`
/// on succeed or fail as `outcomes` says.
pub open spec fn stages_from(st: Stage, outcomes: Seq<bool>) -> Seq<Stage>
    decreases outcomes.len(),
{
    if st == Stage::Done || outcomes.len() == 0 {
        Seq::empty()
    } else {
        let n = next_stage(st, outcomes[0]);
        seq![n] + stages_from(n, outcomes.drop_first())
    }
}

/// What the creation flow asks the caller to do next.
#[derive(Clone, Debug)]
pub enum CreateStep {
    /// Copy the existing unit file `from` to `to`.
    Backup { from: String, to: String },
    /// Write `contents` to `path`.
    Write { path: String, contents: String },
    /// Enable the unit so named.
    Enable(String),
    /// Run `editor` on `path`.
    OpenEditor { editor: String, path: String },
    /// Have the service manager reload its configuration.
    DaemonReload,
    /// Start the unit so named.
    Start(String),
    /// The flow is over: enqueue this action.
    Finish(Action),
}

/// One run of the creation of a unit from an [`AddService`] request.
pub struct CreateFlow {
    pub service: AddService,
    pub editor: String,
    pub path: String,
    pub stage: Stage,
}

impl CreateFlow {
    /// `step` is the operation of stage `st`.
    pub open spec fn asks(self, st: Stage, step: CreateStep) -> bool {
        match st {
            Stage::Backup => step matches CreateStep::Backup { from, to } && from@ == self.path@
                && to@ == backup_path_spec(self.path@),
            Stage::Write => step matches CreateStep::Write { path, contents } && path@
                == self.path@ && contents@ == unit_file_text(self.service),
            Stage::Enable => step matches CreateStep::Enable(n) && n@ == self.service.name@,
            Stage::Editor => step matches CreateStep::OpenEditor { editor, path } && editor@
                == self.editor@ && path@ == self.path@,
            Stage::Reload => step is DaemonReload,
            Stage::Start => step matches CreateStep::Start(n) && n@ == self.service.name@,
            Stage::Done => false,
        }
    }

    /// The message of the error that ends the flow when stage `st` fails
    /// with `err`.
    pub open spec fn failure(self, st: Stage, err: Seq<char>) -> Seq<char> {
        match st {
            Stage::Backup => backup_failed_msg(backup_path_spec(self.path@)),
            Stage::Write => write_failed_msg(self.path@),
            Stage::Enable => enable_failed_msg(self.service.name@),
            Stage::Editor => editor_failed_msg(self.editor@, err),
            _ => start_failed_msg(self.service.name@),
        }
    }

    /// Starts creating the unit that `service` describes. Where its file
    /// `exists` already, it is backed up first; otherwise it is written.
    pub fn begin(service: AddService, editor: String, exists: bool) -> (r: (CreateFlow, CreateStep))
        ensures
            r.0.service == service,
            r.0.editor == editor,
            r.0.path@ == unit_path_spec(service.name@),
            r.0.stage == (if exists {
                Stage::Backup
            } else {
                Stage::Write
            }),
            r.0.asks(r.0.stage, r.1),
    {
        let path = unit_path(&service.name);
        let stage = if exists {
            Stage::Backup
        } else {
            Stage::Write
        };
        let flow = CreateFlow { service, editor, path, stage };
        let step = flow.ask(stage);
        (flow, step)
    }

    fn ask(&self, st: Stage) -> (r: CreateStep)
        requires
            st != Stage::Done,
        ensures
            self.asks(st, r),
    {
        match st {
            Stage::Backup => CreateStep::Backup { from: self.path.clone(), to: backup_path(&self.path) },
            Stage::Write => CreateStep::Write {
                path: self.path.clone(),
                contents: render_unit_file(&self.service),
            },
            Stage::Enable => CreateStep::Enable(self.service.name.clone()),
            Stage::Editor => CreateStep::OpenEditor {
                editor: self.editor.clone(),
                path: self.path.clone(),
            },
            Stage::Reload => CreateStep::DaemonReload,
            _ => CreateStep::Start(self.service.name.clone()),
        }
    }

    /// Takes the outcome of the current stage's operation and says what to
    /// do next. A failure ends the flow with an error; success of the last
    /// stage ends it with a refresh of the unit list.
    pub fn advance(&mut self, outcome: Result<(), String>) -> (r: CreateStep)
        requires
            old(self).stage != Stage::Done,
        ensures
            final(self).service == old(self).service,
            final(self).editor == old(self).editor,
            final(self).path == old(self).path,
            final(self).stage == next_stage(old(self).stage, outcome is Ok),
            match outcome {
                Ok(_) => if old(self).stage == Stage::Start {
                    r matches CreateStep::Finish(Action::RefreshServices)
                } else {
                    final(self).asks(final(self).stage, r)
                },
                Err(e) => r matches CreateStep::Finish(Action::EnterError(m)) && m@
                    == old(self).failure(old(self).stage, e@),
            },
    {
        match outcome {
            Ok(_) => {
                let next = match self.stage {
                    Stage::Backup => Stage::Write,
                    Stage::Write => Stage::Enable,
                    Stage::Enable => Stage::Editor,
                    Stage::Editor => Stage::Reload,
                    Stage::Reload => Stage::Start,
                    _ => Stage::Done,
                };
                self.stage = next;
                if next == Stage::Done {
                    CreateStep::Finish(Action::RefreshServices)
                } else {
                    self.ask(next)
                }
            },
            Err(e) => {
                let m = match self.stage {
                    Stage::Backup => quote("Failed to create bak file `", &backup_path(&self.path)),
                    Stage::Write => quote("Failed to create unit file `", &self.path),
                    Stage::Enable => quote("Failed to enable service `", &self.service.name),
                    Stage::Editor => editor_failed(&self.editor, &e),
                    _ => quote("Failed to start service `", &self.service.name),
                };
                self.stage = Stage::Done;
                CreateStep::Finish(Action::EnterError(m))
            },
        }
    }
}

/// When the unit file already exists and copying it aside fails, the flow
/// ends at once: whatever the later outcomes, the write stage is never
/// entered, so the existing file is left as it was.
pub proof fn failed_backup_never_writes(outcomes: Seq<bool>)
    requires
        outcomes.len() > 0,
        !outcomes[0],
    ensures
        stages_from(Stage::Backup, outcomes) == seq![Stage::Done],
        !stages_from(Stage::Backup, outcomes).contains(Stage::Write),
{
    assert(stages_from(Stage::Done, outcomes.drop_first()) == Seq::<Stage>::empty());
    assert(stages_from(Stage::Backup, outcomes) =~= seq![Stage::Done]);
    assert(seq![Stage::Done][0] == Stage::Done);
}

} // verus!
