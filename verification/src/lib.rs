//! A directory-and-relay core for a fleet of remote simulation nodes
//! ("cities"): an address book keyed by node name, a telemetry store keyed
//! by node id, a facade that resolves telemetry by name in two stages, and
//! the decision logic of a one-shot TCP command relay.

pub mod address_book;
pub mod city_info;
pub mod directory;
pub mod relay;
pub mod telemetry_store;
