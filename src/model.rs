//! Plain data that the runtime passes around: units, their status, UI modes
//! and the request to create a new unit.
use vstd::prelude::*;

verus! {

/// Whether units are managed at the system level or per user.
#[derive(Clone, Copy, Debug, PartialEq, Eq, Structural)]
pub enum Scope {
    Global,
    User,
}

/// Identifies a manageable unit by name and scope.
#[derive(Clone, Debug)]
pub struct UnitId {
    pub name: String,
    pub scope: Scope,
}

impl PartialEq for UnitId {
    fn eq(&self, o: &UnitId) -> (r: bool) {
        self.scope == o.scope && self.name == o.name
    }
}

impl vstd::std_specs::cmp::PartialEqSpecImpl for UnitId {
    open spec fn obeys_eq_spec() -> bool {
        true
    }

    open spec fn eq_spec(&self, o: &UnitId) -> bool {
        self.name@ == o.name@ && self.scope == o.scope
    }
}

impl UnitId {
    /// Two identifiers name the same unit.
    pub open spec fn same(self, o: UnitId) -> bool {
        self.name@ == o.name@ && self.scope == o.scope
    }

    pub fn same_unit(&self, o: &UnitId) -> (r: bool)
        ensures
            r == self.same(*o),
    {
        self.scope == o.scope && self.name == o.name
    }

    pub fn duplicate(&self) -> (r: UnitId)
        ensures
            r.same(*self),
    {
        UnitId { name: self.name.clone(), scope: self.scope }
    }
}

/// The activation state that the service manager reports for a unit.
#[derive(Clone, Copy, Debug, PartialEq, Eq, Structural)]
pub enum ActiveState {
    Active,
    Reloading,
    Inactive,
    Failed,
    Activating,
    Deactivating,
    Other,
}

/// A snapshot of one unit as the service manager listed it.
#[derive(Clone, Debug)]
pub struct UnitWithStatus {
    pub name: String,
    pub scope: Scope,
    pub description: String,
    pub active_state: ActiveState,
    pub enablement_state: Option<String>,
}

impl UnitWithStatus {
    pub open spec fn id_spec(self) -> (UnitId) {
        UnitId { name: self.name, scope: self.scope }
    }

    pub open spec fn is_active_spec(self) -> bool {
        self.active_state == ActiveState::Active
    }

    pub fn is_active(&self) -> (r: bool)
        ensures
            r == self.is_active_spec(),
    {
        self.active_state == ActiveState::Active
    }
}

/// The exclusive current screen of the interface.
#[derive(Clone, Copy, Debug, PartialEq, Eq, Structural)]
pub enum Mode {
    ServiceList,
    Help,
    ActionMenu,
    Logs,
    AddService,
    Processing,
    Error,
}

/// What the user asked for when creating a new service unit.
#[derive(Clone, Debug)]
pub struct AddService {
    pub name: String,
    pub command: String,
    pub desc: Option<String>,
    pub working_dir: Option<String>,
}

} // verus!
