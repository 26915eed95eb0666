//! Decision procedure of a test controller: from the observed state of a
//! test and of what it depends on to the single next action.
//!
//! The library reads nothing and writes nothing. Its caller reads the
//! cluster, records what it found in a `TestInterface`, and asks
//! `determine_action` for the action; where the decision depends on
//! something that was not read yet, the answer names it. What carrying
//! out an action changes is described in `effect`, and what holds of
//! every decision is proved in `laws`.

pub mod action;
pub mod decide;
pub mod dependency;
pub mod duration;
pub mod effect;
pub mod job;
pub mod laws;
pub mod model;
pub mod observation;
pub mod readiness;
pub mod text;
