use vstd::prelude::*;

pub mod params;
pub mod measures;
pub mod catalog;
pub mod news;
pub mod error;
pub mod state;
pub mod game;
pub mod session;
pub mod account;

verus! {

} // verus!
