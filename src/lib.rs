//! Typed enumeration of the objects that a wireless management daemon
//! publishes: property bags are decoded into closed record types, every
//! object's interfaces are gathered into a capability bundle, the station
//! and the visible networks are picked out, and the station's ranked list
//! is joined with the networks' names.
pub mod value;
pub mod keyed;
pub mod fields;
pub mod schema;
pub mod records;
pub mod bundle;
pub mod handle;
pub mod catalog;
pub mod session;
