use vstd::prelude::*;

pub mod assoc;
pub mod disk_health;
pub mod info;
pub mod install;
pub mod log;
pub mod order;
pub mod output;
pub mod performance;
pub mod platform;
pub mod prefs;
pub mod registry;
pub mod security;
pub mod removal;
pub mod restore;
pub mod system;
pub mod text;
pub mod update;
pub mod upgrade;
pub mod winapp;

verus! {

} // verus!
