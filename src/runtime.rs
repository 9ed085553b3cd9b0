//! The dispatch runtime: one ordered queue of actions, consumed one at a
//! time. Each step applies one action and tells the caller which outside
//! work to do and whether the loop goes on, suspends or shuts down.
use vstd::prelude::*;

use std::collections::VecDeque;

use crate::action::Action;
use crate::model::{AddService, Scope, UnitId, UnitWithStatus};
use crate::view::{Home, Reaction, Request, Verb};

verus! {

/// Outside work that one step asks for.
#[derive(Clone, Debug)]
pub enum Effect {
    Nothing,
    /// Render now.
    Render,
    /// Hand a render request to the debouncer.
    Debounce,
    /// Run the edit session of a unit's file.
    EditUnitFile { unit: UnitId, path: String },
    /// Run the creation of a new unit.
    AddService(AddService),
    /// What the view model asked for, other than an action to queue, which
    /// the step has queued itself.
    Reacted(Reaction),
}

/// What the loop does once the step's work is done.
#[derive(Clone, Copy, Debug, PartialEq, Eq, Structural)]
pub enum Control {
    Continue,
    /// Tear down and recreate the render pipeline and the input listener.
    Suspend,
    /// Stop both and leave the loop.
    Shutdown,
}

/// The runtime's state: the view model, the pending actions and the
/// lifecycle flags, which only actions set.
pub struct App {
    pub scope: Scope,
    pub home: Home,
    pub limit_units: Vec<String>,
    pub should_quit: bool,
    pub should_suspend: bool,
    pub queue: VecDeque<Action>,
    pub stopped: bool,
}

/// The quit and suspend flags after `a`.
pub open spec fn flags_after(a: Action, quit: bool, suspend: bool) -> (bool, bool) {
    match a {
        Action::Quit => (true, suspend),
        Action::Suspend => (quit, true),
        Action::Resume => (quit, false),
        _ => (quit, suspend),
    }
}

/// What the service manager's answer to a state change turns into.
pub open spec fn after_state_change(result: Result<(), String>) -> Action {
    match result {
        Ok(_) => Action::RefreshServices,
        Err(e) => Action::EnterError(e),
    }
}

/// What the service manager's listing of units turns into.
pub open spec fn after_listing(result: Result<Vec<UnitWithStatus>, String>) -> Action {
    match result {
        Ok(list) => Action::SetServices(list),
        Err(e) => Action::EnterError(e),
    }
}

impl App {
    /// Between steps no suspend is pending, and the loop has stopped exactly
    /// when a quit was taken.
    pub open spec fn wf(self) -> bool {
        &&& self.home.wf()
        &&& !self.should_suspend
        &&& self.stopped == self.should_quit
    }

    /// `a` handled from this state gives the view model `home`, the work `e`
    /// and the actions `added` at the back of the queue.
    pub open spec fn handled(self, a: Action, home: Home, e: Effect, added: Seq<Action>) -> bool {
        match a {
            Action::Render | Action::Resize(..) => e is Render && home == self.home && added
                == Seq::<Action>::empty(),
            Action::DebouncedRender => e is Debounce && home == self.home && added == Seq::<
                Action,
            >::empty(),
            Action::EditUnitFile { unit, path } => e == (Effect::EditUnitFile { unit, path })
                && home == self.home && added == Seq::<Action>::empty(),
            Action::AddService(s) => e == Effect::AddService(s) && home == self.home && added
                == Seq::<Action>::empty(),
            Action::Quit | Action::Suspend | Action::Resume | Action::Noop => e is Nothing && home
                == self.home && added == Seq::<Action>::empty(),
            _ => match e {
                Effect::Reacted(rx) => !(rx is Emit) && self.home.dispatched(a, home, rx) && added
                    == Seq::<Action>::empty(),
                Effect::Nothing => added.len() == 1 && self.home.dispatched(
                    a,
                    home,
                    Reaction::Emit(added[0]),
                ),
                _ => false,
            },
        }
    }

    /// One step from this state leads to `next` and returns `r`.
    pub open spec fn stepped(self, next: App, r: Option<(Effect, Control)>) -> bool {
        &&& next.scope == self.scope
        &&& next.limit_units@ == self.limit_units@
        &&& if self.stopped || self.queue@.len() == 0 {
            &&& r is None
            &&& next.home == self.home
            &&& next.queue@ == self.queue@
            &&& next.stopped == self.stopped
            &&& next.should_quit == self.should_quit
            &&& next.should_suspend == self.should_suspend
        } else {
            let a = self.queue@[0];
            let rest = self.queue@.subrange(1, self.queue@.len() as int);
            let (q, s) = flags_after(a, self.should_quit, self.should_suspend);
            &&& r matches Some((e, c))
            &&& exists|added: Seq<Action>|
                #![trigger self.handled(a, next.home, e, added)]
                {
                    &&& self.handled(a, next.home, e, added)
                    &&& next.queue@ == if s {
                        rest + added + seq![Action::Resume, Action::Render]
                    } else {
                        rest + added
                    }
                }
            &&& next.should_quit == q
            &&& !next.should_suspend
            &&& if s {
                c == Control::Suspend && !next.stopped
            } else if q {
                c == Control::Shutdown && next.stopped
            } else {
                c == Control::Continue && !next.stopped
            }
        }
    }

    /// `next` is this state with `a` at the back of the queue.
    pub open spec fn enqueued(self, next: App, a: Action) -> bool {
        &&& next.queue@ == self.queue@.push(a)
        &&& next.home == self.home
        &&& next.scope == self.scope
        &&& next.limit_units@ == self.limit_units@
        &&& next.should_quit == self.should_quit
        &&& next.should_suspend == self.should_suspend
        &&& next.stopped == self.stopped
    }

    /// A runtime with an empty queue and a view model showing no units.
    pub fn new(scope: Scope, limit_units: Vec<String>) -> (r: App)
        ensures
            r.wf(),
            r.scope == scope,
            r.limit_units@ == limit_units@,
            r.home.fresh(scope, limit_units@),
            r.queue@.len() == 0,
            !r.should_quit,
            !r.should_suspend,
            !r.stopped,
    {
        let home = Home::new(scope, &limit_units);
        App {
            scope,
            home,
            limit_units,
            should_quit: false,
            should_suspend: false,
            queue: VecDeque::new(),
            stopped: false,
        }
    }

    /// Puts `a` at the back of the queue.
    pub fn enqueue(&mut self, a: Action)
        ensures
            old(self).enqueued(*final(self), a),
    {
        self.queue.push_back(a);
    }

    /// Whether no action is waiting.
    pub fn is_idle(&self) -> (r: bool)
        ensures
            r == (self.queue@.len() == 0),
    {
        self.queue.len() == 0
    }

    /// Takes the action at the front of the queue and handles it, then
    /// checks the lifecycle flags once. Returns `None` when the queue is
    /// empty or the loop has shut down.
    pub fn step(&mut self) -> (r: Option<(Effect, Control)>)
        requires
            old(self).wf(),
        ensures
            final(self).wf(),
            old(self).stepped(*final(self), r),
    {
        if self.stopped {
            return None;
        }
        let ghost before = *self;
        let a = match self.queue.pop_front() {
            Some(a) => a,
            None => return None,
        };
        let ghost a0 = a;
        let ghost rest = self.queue@;
        let ghost mut added: Seq<Action> = Seq::empty();
        let e = match a {
            Action::Render => Effect::Render,
            Action::Resize(_, _) => Effect::Render,
            Action::DebouncedRender => Effect::Debounce,
            Action::Noop => Effect::Nothing,
            Action::Quit => {
                self.should_quit = true;
                Effect::Nothing
            },
            Action::Suspend => {
                self.should_suspend = true;
                Effect::Nothing
            },
            Action::Resume => {
                self.should_suspend = false;
                Effect::Nothing
            },
            Action::EditUnitFile { unit, path } => Effect::EditUnitFile { unit, path },
            Action::AddService(s) => Effect::AddService(s),
            other => {
                let rx = self.home.dispatch(other);
                match rx {
                    Reaction::Emit(x) => {
                        proof {
                            added = seq![x];
                        }
                        self.queue.push_back(x);
                        Effect::Nothing
                    },
                    _ => Effect::Reacted(rx),
                }
            },
        };
        let ghost mid = self.queue@;
        let c = if self.should_suspend {
            self.should_suspend = false;
            self.queue.push_back(Action::Resume);
            self.queue.push_back(Action::Render);
            Control::Suspend
        } else if self.should_quit {
            self.stopped = true;
            Control::Shutdown
        } else {
            Control::Continue
        };
        proof {
            assert(rest =~= before.queue@.subrange(1, before.queue@.len() as int));
            assert(mid =~= rest + added);
            assert(before.handled(a0, self.home, e, added));
            let (q, s) = flags_after(a0, before.should_quit, before.should_suspend);
            assert(a0 == before.queue@[0]);
            assert(self.should_quit == q);
            assert(self.queue@ == if s {
                rest + added + seq![Action::Resume, Action::Render]
            } else {
                rest + added
            });
        }
        Some((e, c))
    }
}

/// Turns the service manager's answer to a state change into the next
/// action: a refresh of the unit list, or the error.
pub fn state_change_done(result: Result<(), String>) -> (r: Action)
    ensures
        r == after_state_change(result),
{
    match result {
        Ok(_) => Action::RefreshServices,
        Err(e) => Action::EnterError(e),
    }
}

/// Turns the service manager's listing of units into the next action: the
/// new unit list, or the error.
pub fn listing_done(result: Result<Vec<UnitWithStatus>, String>) -> (r: Action)
    ensures
        r == after_listing(result),
{
    match result {
        Ok(list) => Action::SetServices(list),
        Err(e) => Action::EnterError(e),
    }
}

/// Once `Quit` is taken from a queue that holds nothing else, the loop
/// shuts down in that same step, and no action queued afterwards is ever
/// taken: every later step does nothing.
pub proof fn quit_drains_and_stops(
    a0: App,
    a1: App,
    r1: Option<(Effect, Control)>,
    later: Action,
    a2: App,
    a3: App,
    r3: Option<(Effect, Control)>,
)
    requires
        a0.wf(),
        !a0.stopped,
        a0.queue@ == seq![Action::Quit],
        a0.stepped(a1, r1),
        a1.enqueued(a2, later),
        a2.stepped(a3, r3),
    ensures
        r1 matches Some((Effect::Nothing, Control::Shutdown)),
        a1.stopped,
        a1.queue@.len() == 0,
        a1.home == a0.home,
        r3 is None,
        a3.home == a0.home,
        a3.queue@ == seq![later],
        a3.stopped,
{
    let added = choose|added: Seq<Action>|
        #![trigger a0.handled(Action::Quit, a1.home, r1->Some_0.0, added)]
        {
            &&& a0.handled(Action::Quit, a1.home, r1->Some_0.0, added)
            &&& a1.queue@ == a0.queue@.subrange(1, 1) + added
        };
    assert(a1.queue@ =~= Seq::<Action>::empty());
    assert(a2.queue@ =~= seq![later]);
}

/// When the service manager reports that starting `u` succeeded, the start
/// is followed by a refresh of the unit list, and the listing that comes
/// back becomes the view model's unit list: where it reports `u` active,
/// the view model shows `u` active.
pub proof fn started_unit_shows_active(
    u: UnitId,
    list: Vec<UnitWithStatus>,
    a0: App,
    a1: App,
    r1: Option<(Effect, Control)>,
    a2: App,
    a3: App,
    r3: Option<(Effect, Control)>,
    a4: App,
    a5: App,
    r5: Option<(Effect, Control)>,
)
    requires
        a0.wf(),
        !a0.stopped,
        a0.queue@ == seq![Action::StartService(u)],
        a0.stepped(a1, r1),
        a1.enqueued(a2, after_state_change(Ok(()))),
        a2.stepped(a3, r3),
        a3.enqueued(a4, after_listing(Ok(list))),
        a4.stepped(a5, r5),
    ensures
        r1 matches Some((Effect::Reacted(Reaction::Call(Request::SetUnitState { unit, verb })), c))
            && unit.same(u) && verb == Verb::Start && c == Control::Continue,
        after_state_change(Ok(())) == Action::RefreshServices,
        r3 matches Some((Effect::Reacted(Reaction::Call(Request::ListUnits)), c)) && c
            == Control::Continue,
        a5.home.units@ == list@,
        forall|i: int|
            0 <= i < list@.len() && (#[trigger] list@[i]).id_spec().same(u)
                && list@[i].is_active_spec() ==> a5.home.units@[i].id_spec().same(u)
                && a5.home.units@[i].is_active_spec(),
{
    let add1 = choose|added: Seq<Action>|
        #![trigger a0.handled(Action::StartService(u), a1.home, r1->Some_0.0, added)]
        {
            &&& a0.handled(Action::StartService(u), a1.home, r1->Some_0.0, added)
            &&& a1.queue@ == a0.queue@.subrange(1, 1) + added
        };
    assert(add1.len() == 0);
    assert(a1.queue@ =~= Seq::<Action>::empty());
    assert(a2.queue@ =~= seq![Action::RefreshServices]);
    let add3 = choose|added: Seq<Action>|
        #![trigger a2.handled(Action::RefreshServices, a3.home, r3->Some_0.0, added)]
        {
            &&& a2.handled(Action::RefreshServices, a3.home, r3->Some_0.0, added)
            &&& a3.queue@ == a2.queue@.subrange(1, 1) + added
        };
    assert(a3.queue@ =~= Seq::<Action>::empty());
    assert(a4.queue@ =~= seq![Action::SetServices(list)]);
}

} // verus!
