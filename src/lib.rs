//! Decision engine for automating a local game client's match flow:
//! phase classification and polling cadence, champion-select pick and ban
//! commitment, loadout (summoner spell) resolution and the operator's
//! shared selection state. All network work is done by the caller, which
//! hands the engine plain values and performs the actions it returns.
pub mod champions;
pub mod connection;
pub mod draft;
pub mod engine;
pub mod phase;
pub mod selection;
pub mod spells;
pub mod text;
