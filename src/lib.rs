//! Persistence and lifecycle core of the Subly desktop application.
//!
//! - [`migration`]: the ordered schema-migration registry, and a model of the
//!   rule by which the SQL plugin's runner applies pending migrations (the
//!   runner itself executes them; the application does not call the model).
//! - [`store`]: the cloud-folder document store, as a state machine whose
//!   filesystem work is performed by the caller.
//! - [`lifecycle`]: the window and tray state machine.
pub mod lifecycle;
pub mod migration;
pub mod store;
