//! A registration runtime for modules that declare exportable functions and
//! classes ahead of time.  Independent initializers append export, class and
//! native-callback records to a registry; a single installer call drains the
//! registry into a (possibly namespaced) exports object and publishes a
//! constructor table; later lookups resolve handles against the frozen state.

pub mod assoc;
pub mod types;
pub mod exports;
pub mod registry;
pub mod install;
pub mod laws;
