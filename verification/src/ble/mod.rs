//! The characteristic and descriptor side of the backend.
pub mod characteristic;
pub mod descriptor;
pub mod operation;
