//! Locates installed Windows SDKs.
//!
//! A resolution turns a [`SdkVersion`] selector into an optional [`SdkInfo`]
//! record. It consults a [`Host`]: the two environment variables that name an
//! SDK, and the registry locations under which each SDK generation registers
//! itself. Everything here is a function of that host, so the search order and
//! the tolerant reading of registry records are stated and proved once, and hold
//! of every machine.

pub mod find;
pub mod host;
pub mod info;
pub mod laws;
pub mod location;
pub mod version;

pub use find::FindError;
pub use host::{EnvText, Environment, Host, Lookup, Store, StoredRecord};
pub use info::{MalformedVersion, SdkInfo};
pub use location::Location;
pub use version::SdkVersion;
