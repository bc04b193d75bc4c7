use vstd::prelude::*;

pub mod event_queue;
pub mod ime;
pub mod keycodes;
pub mod sink;
pub mod text;

verus! {

} // verus!
