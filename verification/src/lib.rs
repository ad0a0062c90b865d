//! Controller remapping core.
//!
//! A physical game controller's buttons and analog axes are mapped onto those
//! of a virtual gamepad. The mapping is stored under the name the controller
//! reports, and an external remapper is started with arguments synthesized
//! from it.
//!
//! - [`identity`]: from a device path to the name the device reports.
//! - [`mapping`]: the mapping records.
//! - [`store`]: the keyed store of mappings and its operations.
//! - [`event`]: raw input events.
//! - [`capture`]: finding out which button was pressed or which axis moved.
//! - [`launch`]: the remapper's launch arguments.
//! - [`error`]: the failures of all of these.
//!
//! The library computes and decides; it opens no device, file or process.
//! Its callers do that and hand in what they read.

pub mod capture;
pub mod error;
pub mod event;
pub mod identity;
pub mod launch;
pub mod mapping;
pub mod store;
pub mod text;
