//! Mandate records and the translation of update intents into sparse
//! changesets.

pub mod enums;
pub mod laws;
pub mod mandate;
pub mod secret;
pub mod update;

pub use enums::{Currency, MandateStatus, MandateType};
pub use mandate::{Mandate, MandateAmountData, MandateNew};
pub use secret::Secret;
pub use update::{ColumnChange, MandateUpdate, MandateUpdateInternal};
