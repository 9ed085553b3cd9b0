//! The closed vocabulary of intents and events that flows through the
//! runtime.
use vstd::prelude::*;

use crate::model::{AddService, Mode, UnitId, UnitWithStatus};

verus! {

/// Relies on std's `Clone` for `Result`, which the derived `Clone` of
/// [`Action`] calls; nothing is claimed of the copy.
pub assume_specification<T: Clone, E: Clone>[ <Result<T, E> as Clone>::clone ](
    r: &Result<T, E>,
) -> Result<T, E>;

/// One discrete intent or event. Every producer talks to the runtime only by
/// emitting one of these.
#[derive(Clone, Debug)]
#[allow(inconsistent_fields)]
pub enum Action {
    Quit,
    Resume,
    Suspend,
    Render,
    DebouncedRender,
    SpinnerTick,
    Resize(u16, u16),
    ToggleShowLogger,
    RefreshServices,
    SetServices(Vec<UnitWithStatus>),
    EnterMode(Mode),
    EnterError(String),
    CancelTask,
    ToggleHelp,
    SetUnitFilePath { unit: UnitId, path: Result<String, String> },
    CopyUnitFilePath,
    SetLogs { unit: UnitId, logs: Vec<String> },
    AppendLogLine { unit: UnitId, line: String },
    StartService(UnitId),
    StopService(UnitId),
    RestartService(UnitId),
    ReloadService(UnitId),
    EnableService(UnitId),
    DisableService(UnitId),
    AddService(AddService),
    ScrollUp(u16),
    ScrollDown(u16),
    ScrollToTop,
    ScrollToBottom,
    EditUnitFile { unit: UnitId, path: String },
    Noop,
}

} // verus!
