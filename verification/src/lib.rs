//! Decentralized route registration for Rocket applications.
//!
//! Handlers are declared anywhere in an application, each declaration
//! contributing its route to a process-wide registry; the server builder
//! later reads the registry exactly once and mounts every contribution onto
//! a fresh Rocket instance. Three pieces make this up:
//!
//! * [`registry`] — the append-only collection of [`registry::RouteGroup`]
//!   contributions, with an enumeration whose contents and order are pinned
//!   down by its contracts;
//! * [`transform`] — the declaration transform: it validates a route
//!   specification (a literal path followed by verbatim modifiers) and turns
//!   it into one framework-native route declaration plus one registry
//!   contribution;
//! * [`server`] — the builder that configures a Rocket instance and mounts
//!   every contributed group under its mount prefix, in enumeration order.
//!
//! The mount prefix of a contribution is purely a grouping label: the
//! declaration transform always contributes at `"/"` and the authoritative
//! path of a route is the one carried by its native declaration. Ordering
//! across independently loaded declaration sites is deliberately left
//! unspecified; only the order within one contribution batch is kept.

pub mod registry;
pub mod server;
pub mod transform;

pub use registry::{Registry, RouteGroup};
pub use server::{build_rocket, mount_routes};
pub use transform::{auto_route, delete, get, patch, post, put};
