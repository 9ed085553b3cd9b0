//! The view model: current mode, the last unit list, log buffers, the scroll
//! position and display flags, and the reducer that applies an action to
//! them.
use vstd::prelude::*;

use crate::action::Action;
use crate::logs::{append_line, line_count, lines_in, set_lines, LogBuffer};
use crate::model::{Mode, Scope, UnitId, UnitWithStatus};

verus! {

/// A state change that the service manager is asked to make.
#[derive(Clone, Copy, Debug, PartialEq, Eq, Structural)]
pub enum Verb {
    Start,
    Stop,
    Restart,
    Reload,
    Enable,
    Disable,
}

/// Work that the reducer hands to the service manager, to run in the
/// background and answer with an action.
#[derive(Clone, Debug)]
pub enum Request {
    SetUnitState { unit: UnitId, verb: Verb },
    ListUnits,
}

/// What the reducer asks for after applying an action.
#[derive(Clone, Debug)]
pub enum Reaction {
    Nothing,
    Emit(Action),
    Call(Request),
    CancelTask,
    CopyToClipboard(String),
}

/// The view model of the dashboard.
pub struct Home {
    pub scope: Scope,
    pub limit_units: Vec<String>,
    pub mode: Mode,
    pub error_message: String,
    pub units: Vec<UnitWithStatus>,
    pub logs: Vec<LogBuffer>,
    pub log_unit: Option<UnitId>,
    pub unit_file_path: Option<String>,
    pub scroll: usize,
    pub show_logger: bool,
    pub show_help: bool,
    pub spinner_tick: u8,
    pub task_active: bool,
}

/// The verb that a service-state action asks for, if it is one.
pub open spec fn verb_of(a: Action) -> Option<(UnitId, Verb)> {
    match a {
        Action::StartService(u) => Some((u, Verb::Start)),
        Action::StopService(u) => Some((u, Verb::Stop)),
        Action::RestartService(u) => Some((u, Verb::Restart)),
        Action::ReloadService(u) => Some((u, Verb::Reload)),
        Action::EnableService(u) => Some((u, Verb::Enable)),
        Action::DisableService(u) => Some((u, Verb::Disable)),
        _ => None,
    }
}

/// The largest scroll offset for content of `len` lines.
pub open spec fn max_offset_for(len: nat) -> nat {
    if len == 0 {
        0
    } else {
        (len - 1) as nat
    }
}

/// The scroll offset after `a`, starting from `offset`, where `max` is the
/// largest offset the content allows.
pub open spec fn scrolled(offset: int, max: int, a: Action) -> int {
    match a {
        Action::ScrollUp(n) => if offset - n < 0 {
            0
        } else {
            offset - n
        },
        Action::ScrollDown(n) => if offset + n > max {
            max
        } else {
            offset + n
        },
        Action::ScrollToTop => 0,
        Action::ScrollToBottom => max,
        _ => offset,
    }
}

pub open spec fn is_scroll(a: Action) -> bool {
    match a {
        Action::ScrollUp(_) | Action::ScrollDown(_) | Action::ScrollToTop
        | Action::ScrollToBottom => true,
        _ => false,
    }
}

impl Home {
    /// How many lines the current mode shows.
    pub open spec fn content_len_spec(self) -> nat {
        if self.mode == Mode::Logs {
            match self.log_unit {
                Some(u) => lines_in(self.logs@, u).len(),
                None => 0,
            }
        } else {
            self.units@.len()
        }
    }

    pub open spec fn max_offset_spec(self) -> nat {
        max_offset_for(self.content_len_spec())
    }

    /// The scroll position lies within the current mode's content.
    pub open spec fn wf(self) -> bool {
        self.scroll <= self.max_offset_spec()
    }

    /// `next` and `r` are the view model after `a` and what `a` asks for:
    /// scroll actions move the offset within the content, and every other
    /// action keeps it, clamped to the new content.
    pub open spec fn dispatched(self, a: Action, next: Home, r: Reaction) -> bool {
        &&& next.wf()
        &&& self.reduced(a, next, r)
        &&& is_scroll(a) ==> next.scroll == scrolled(self.scroll as int, self.max_offset_spec() as int, a)
        &&& !is_scroll(a) ==> next.scroll == if self.scroll <= next.max_offset_spec() {
            self.scroll as int
        } else {
            next.max_offset_spec() as int
        }
    }

    /// The unit list, the log buffers and the unit whose logs are shown are
    /// as they were.
    pub open spec fn keeps_content(self, next: Home) -> bool {
        &&& next.units@ == self.units@
        &&& next.logs@ == self.logs@
        &&& next.log_unit == self.log_unit
    }

    /// The mode and the error message are as they were.
    pub open spec fn keeps_mode(self, next: Home) -> bool {
        &&& next.mode == self.mode
        &&& next.error_message@ == self.error_message@
    }

    /// The display flags and the spinner are as they were.
    pub open spec fn keeps_display(self, next: Home) -> bool {
        &&& next.show_logger == self.show_logger
        &&& next.show_help == self.show_help
        &&& next.spinner_tick == self.spinner_tick
    }

    /// The stored unit-file path is as it was.
    pub open spec fn keeps_path(self, next: Home) -> bool {
        next.unit_file_path == self.unit_file_path
    }

    /// The scope and the unit allow-list, fixed at startup, are as they were.
    pub open spec fn keeps_setup(self, next: Home) -> bool {
        &&& next.scope == self.scope
        &&& next.limit_units@ == self.limit_units@
    }

    /// Everything but the scroll position and the background task mark is
    /// as it was.
    pub open spec fn keeps_all_but_task(self, next: Home) -> bool {
        &&& self.keeps_setup(next)
        &&& self.keeps_content(next)
        &&& self.keeps_mode(next)
        &&& self.keeps_display(next)
        &&& self.keeps_path(next)
    }

    /// Everything but the scroll position is as it was.
    pub open spec fn keeps_all_but_scroll(self, next: Home) -> bool {
        &&& self.keeps_all_but_task(next)
        &&& next.task_active == self.task_active
    }

    /// A view model as it is at startup: the service list, no units, no
    /// logs, nothing stored, no task, flags off, at the top.
    pub open spec fn fresh(self, scope: Scope, limit_units: Seq<String>) -> bool {
        &&& self.scope == scope
        &&& self.limit_units@ == limit_units
        &&& self.mode == Mode::ServiceList
        &&& self.error_message@.len() == 0
        &&& self.units@.len() == 0
        &&& self.logs@.len() == 0
        &&& self.log_unit is None
        &&& self.unit_file_path is None
        &&& self.scroll == 0
        &&& !self.show_logger
        &&& !self.show_help
        &&& self.spinner_tick == 0
        &&& !self.task_active
    }

    /// What `a` does to the view model, other than the scroll position, and
    /// what it asks for.
    pub open spec fn reduced(self, a: Action, next: Home, r: Reaction) -> bool {
        &&& self.keeps_setup(next)
        &&& match a {
            Action::SetServices(list) => {
                &&& next.units@ == list@
                &&& next.logs@ == self.logs@
                &&& next.log_unit == self.log_unit
                &&& self.keeps_mode(next)
                &&& self.keeps_display(next)
                &&& self.keeps_path(next)
                &&& next.task_active == self.task_active
                &&& r is Nothing
            },
            Action::SetLogs { unit, logs } => {
                &&& forall|v: UnitId| #[trigger]
                    lines_in(next.logs@, v) == if v.same(unit) {
                        logs@
                    } else {
                        lines_in(self.logs@, v)
                    }
                &&& next.log_unit matches Some(s) && s.same(unit)
                &&& next.units@ == self.units@
                &&& self.keeps_mode(next)
                &&& self.keeps_display(next)
                &&& self.keeps_path(next)
                &&& next.task_active == self.task_active
                &&& r is Nothing
            },
            Action::AppendLogLine { unit, line } => {
                &&& forall|v: UnitId| #[trigger]
                    lines_in(next.logs@, v) == if v.same(unit) {
                        lines_in(self.logs@, unit).push(line)
                    } else {
                        lines_in(self.logs@, v)
                    }
                &&& next.log_unit == self.log_unit
                &&& next.units@ == self.units@
                &&& self.keeps_mode(next)
                &&& self.keeps_display(next)
                &&& self.keeps_path(next)
                &&& next.task_active == self.task_active
                &&& r is Nothing
            },
            Action::EnterMode(m) => {
                &&& next.mode == m
                &&& next.error_message@ == self.error_message@
                &&& self.keeps_content(next)
                &&& self.keeps_display(next)
                &&& self.keeps_path(next)
                &&& next.task_active == self.task_active
                &&& r is Nothing
            },
            Action::EnterError(msg) => {
                &&& next.mode == Mode::Error
                &&& next.error_message@ == msg@
                &&& self.keeps_content(next)
                &&& self.keeps_display(next)
                &&& self.keeps_path(next)
                &&& next.task_active == self.task_active
                &&& r is Nothing
            },
            Action::RefreshServices => {
                &&& self.keeps_all_but_task(next)
                &&& next.task_active
                &&& r is Call && r->Call_0 is ListUnits
            },
            Action::CancelTask => {
                &&& self.keeps_all_but_task(next)
                &&& !next.task_active
                &&& (if self.task_active {
                    r is CancelTask
                } else {
                    r is Nothing
                })
            },
            Action::ToggleShowLogger => {
                &&& next.show_logger == !self.show_logger
                &&& next.show_help == self.show_help
                &&& next.spinner_tick == self.spinner_tick
                &&& self.keeps_content(next)
                &&& self.keeps_mode(next)
                &&& self.keeps_path(next)
                &&& next.task_active == self.task_active
                &&& r == Reaction::Emit(Action::Render)
            },
            Action::ToggleHelp => {
                &&& next.show_help == !self.show_help
                &&& next.show_logger == self.show_logger
                &&& next.spinner_tick == self.spinner_tick
                &&& self.keeps_content(next)
                &&& self.keeps_mode(next)
                &&& self.keeps_path(next)
                &&& next.task_active == self.task_active
                &&& r == Reaction::Emit(Action::Render)
            },
            Action::SpinnerTick => {
                &&& next.spinner_tick == (if self.spinner_tick == 255 {
                    0
                } else {
                    self.spinner_tick + 1
                })
                &&& next.show_help == self.show_help
                &&& next.show_logger == self.show_logger
                &&& self.keeps_content(next)
                &&& self.keeps_mode(next)
                &&& self.keeps_path(next)
                &&& next.task_active == self.task_active
                &&& r == Reaction::Emit(Action::Render)
            },
            Action::SetUnitFilePath { unit, path } => {
                &&& match path {
                    Ok(p) => next.unit_file_path matches Some(q) && q@ == p@,
                    Err(_) => next.unit_file_path is None,
                }
                &&& self.keeps_content(next)
                &&& self.keeps_mode(next)
                &&& self.keeps_display(next)
                &&& next.task_active == self.task_active
                &&& r is Nothing
            },
            Action::CopyUnitFilePath => {
                &&& self.keeps_all_but_scroll(next)
                &&& match self.unit_file_path {
                    Some(p) => r matches Reaction::CopyToClipboard(q) && q@ == p@,
                    None => r is Nothing,
                }
            },
            _ => {
                &&& self.keeps_all_but_task(next)
                &&& match verb_of(a) {
                    Some((u, v)) => {
                        &&& next.task_active
                        &&& r matches Reaction::Call(Request::SetUnitState { unit, verb })
                        &&& unit.same(u) && verb == v
                    },
                    None => {
                        &&& next.task_active == self.task_active
                        &&& r is Nothing
                    },
                }
            },
        }
    }
}

impl Home {
    /// A view model showing the service list, with no units yet.
    pub fn new(scope: Scope, limit_units: &Vec<String>) -> (h: Home)
        ensures
            h.wf(),
            h.fresh(scope, limit_units@),
    {
        Home {
            scope,
            limit_units: limit_units.clone(),
            mode: Mode::ServiceList,
            error_message: String::new(),
            units: Vec::new(),
            logs: Vec::new(),
            log_unit: None,
            unit_file_path: None,
            scroll: 0,
            show_logger: false,
            show_help: false,
            spinner_tick: 0,
            task_active: false,
        }
    }

    /// Replaces the unit list.
    pub fn set_units(&mut self, units: Vec<UnitWithStatus>)
        requires
            old(self).wf(),
        ensures
            final(self).wf(),
            final(self).units@ == units@,
            final(self).logs@ == old(self).logs@,
            final(self).log_unit == old(self).log_unit,
            old(self).keeps_setup(*final(self)),
            old(self).keeps_mode(*final(self)),
            old(self).keeps_display(*final(self)),
            old(self).keeps_path(*final(self)),
            final(self).task_active == old(self).task_active,
    {
        self.units = units;
        self.clamp_scroll();
    }

    pub fn content_len(&self) -> (r: usize)
        ensures
            r == self.content_len_spec(),
    {
        if self.mode == Mode::Logs {
            match &self.log_unit {
                Some(u) => line_count(&self.logs, u),
                None => 0,
            }
        } else {
            self.units.len()
        }
    }

    pub fn max_offset(&self) -> (r: usize)
        ensures
            r == self.max_offset_spec(),
    {
        let n = self.content_len();
        if n == 0 {
            0
        } else {
            n - 1
        }
    }

    fn clamp_scroll(&mut self)
        ensures
            final(self).wf(),
            final(self).scroll == if old(self).scroll <= old(self).max_offset_spec() {
                old(self).scroll as int
            } else {
                old(self).max_offset_spec() as int
            },
            old(self).keeps_all_but_scroll(*final(self)),
    {
        let m = self.max_offset();
        if self.scroll > m {
            self.scroll = m;
        }
    }

    fn scroll_by(&mut self, a: &Action)
        requires
            old(self).wf(),
            is_scroll(*a),
        ensures
            final(self).wf(),
            final(self).scroll == scrolled(old(self).scroll as int, old(self).max_offset_spec() as int, *a),
            old(self).keeps_all_but_scroll(*final(self)),
    {
        let m = self.max_offset();
        match a {
            Action::ScrollUp(n) => {
                let n = *n as usize;
                if n > self.scroll {
                    self.scroll = 0;
                } else {
                    self.scroll = self.scroll - n;
                }
            },
            Action::ScrollDown(n) => {
                let n = *n as usize;
                if n > m - self.scroll {
                    self.scroll = m;
                } else {
                    self.scroll = self.scroll + n;
                }
            },
            Action::ScrollToTop => {
                self.scroll = 0;
            },
            _ => {
                self.scroll = m;
            },
        }
    }

    /// Applies an action to the view model. Scroll actions move the offset
    /// within the current mode's content; every other action keeps it, but
    /// pulls it back where the content got shorter.
    pub fn dispatch(&mut self, a: Action) -> (r: Reaction)
        requires
            old(self).wf(),
        ensures
            old(self).dispatched(a, *final(self), r),
    {
        if is_scroll_action(&a) {
            self.scroll_by(&a);
            return Reaction::Nothing;
        }
        let r = match a {
            Action::SetServices(list) => {
                self.units = list;
                Reaction::Nothing
            },
            Action::SetLogs { unit, logs } => {
                set_lines(&mut self.logs, &unit, logs);
                self.log_unit = Some(unit);
                Reaction::Nothing
            },
            Action::AppendLogLine { unit, line } => {
                append_line(&mut self.logs, &unit, line);
                Reaction::Nothing
            },
            Action::EnterMode(m) => {
                self.mode = m;
                Reaction::Nothing
            },
            Action::EnterError(msg) => {
                self.mode = Mode::Error;
                self.error_message = msg;
                Reaction::Nothing
            },
            Action::RefreshServices => {
                self.task_active = true;
                Reaction::Call(Request::ListUnits)
            },
            Action::CancelTask => {
                if self.task_active {
                    self.task_active = false;
                    Reaction::CancelTask
                } else {
                    Reaction::Nothing
                }
            },
            Action::ToggleShowLogger => {
                self.show_logger = !self.show_logger;
                Reaction::Emit(Action::Render)
            },
            Action::ToggleHelp => {
                self.show_help = !self.show_help;
                Reaction::Emit(Action::Render)
            },
            Action::SpinnerTick => {
                self.spinner_tick = if self.spinner_tick == 255 {
                    0
                } else {
                    self.spinner_tick + 1
                };
                Reaction::Emit(Action::Render)
            },
            Action::SetUnitFilePath { unit, path } => {
                self.unit_file_path = match path {
                    Ok(p) => Some(p),
                    Err(_) => None,
                };
                Reaction::Nothing
            },
            Action::CopyUnitFilePath => {
                match &self.unit_file_path {
                    Some(p) => Reaction::CopyToClipboard(p.clone()),
                    None => Reaction::Nothing,
                }
            },
            Action::StartService(unit) => self.request(unit, Verb::Start),
            Action::StopService(unit) => self.request(unit, Verb::Stop),
            Action::RestartService(unit) => self.request(unit, Verb::Restart),
            Action::ReloadService(unit) => self.request(unit, Verb::Reload),
            Action::EnableService(unit) => self.request(unit, Verb::Enable),
            Action::DisableService(unit) => self.request(unit, Verb::Disable),
            _ => Reaction::Nothing,
        };
        self.clamp_scroll();
        r
    }

    fn request(&mut self, unit: UnitId, verb: Verb) -> (r: Reaction)
        ensures
            final(self).task_active,
            r == Reaction::Call(Request::SetUnitState { unit, verb }),
            final(self).scroll == old(self).scroll,
            old(self).keeps_all_but_task(*final(self)),
    {
        self.task_active = true;
        Reaction::Call(Request::SetUnitState { unit, verb })
    }
}

pub fn is_scroll_action(a: &Action) -> (r: bool)
    ensures
        r == is_scroll(*a),
{
    match a {
        Action::ScrollUp(_) | Action::ScrollDown(_) | Action::ScrollToTop
        | Action::ScrollToBottom => true,
        _ => false,
    }
}

/// The scroll offset after each of `actions` in turn, from `offset`.
pub open spec fn scroll_through(offset: int, max: int, actions: Seq<Action>) -> int
    decreases actions.len(),
{
    if actions.len() == 0 {
        offset
    } else {
        scroll_through(scrolled(offset, max, actions[0]), max, actions.drop_first())
    }
}

/// Whatever scroll actions come, one after another, the offset stays
/// between zero and the largest offset the content allows.
pub proof fn scrolling_stays_in_bounds(offset: int, max: int, actions: Seq<Action>)
    requires
        0 <= offset <= max,
        forall|i: int| 0 <= i < actions.len() ==> is_scroll(#[trigger] actions[i]),
    ensures
        0 <= scroll_through(offset, max, actions) <= max,
    decreases actions.len(),
{
    if actions.len() > 0 {
        let rest = actions.drop_first();
        assert forall|i: int| 0 <= i < rest.len() implies is_scroll(#[trigger] rest[i]) by {
            assert(rest[i] == actions[i + 1]);
        }
        scrolling_stays_in_bounds(scrolled(offset, max, actions[0]), max, rest);
    }
}

/// Scroll actions leave the content as it was, so the bound they are held
/// to stays the same from one to the next.
pub proof fn scrolling_keeps_content(h: Home, a: Action, next: Home, r: Reaction)
    requires
        is_scroll(a),
        h.dispatched(a, next, r),
    ensures
        next.max_offset_spec() == h.max_offset_spec(),
        next.scroll == scrolled(h.scroll as int, h.max_offset_spec() as int, a),
        next.units@ == h.units@,
        r is Nothing,
{
}

} // verus!
