use vstd::prelude::*;

pub mod approval;
pub mod auth;
pub mod credential;
pub mod error;
pub mod experiment;
pub mod mandate;
pub mod mission;
pub mod native;
pub mod forward;
pub mod handoff;
pub mod ids;
pub mod portfolio;
pub mod portfolio_build;
pub mod probe;
pub mod publication;
pub mod rebalance;
pub mod release;
pub mod research;
pub mod review;
pub mod runs;
pub mod sealed;
pub mod settings;
pub mod simulation;
pub mod study;
pub mod text;
pub mod turns;
pub mod validation;
pub mod weights;

verus! {

} // verus!
