//! Control core of a terminal dashboard for service units: the action
//! vocabulary, the view model and its reducer, the render debouncer, the
//! unit-file edit and creation flows, and the dispatch runtime that orders
//! them all.
use vstd::prelude::*;

pub mod action;
pub mod debounce;
pub mod logs;
pub mod model;
pub mod runtime;
pub mod unit_file;
pub mod view;

verus! {

} // verus!
