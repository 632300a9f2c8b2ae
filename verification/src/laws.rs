//! What holds of the escrow as a whole.

pub mod administration;
pub mod calls;
pub mod custody;
pub mod fees;
pub mod footprint;
pub mod history;
pub mod host_work;
pub mod lifecycle;
pub mod names;
pub mod opening;
pub mod payments;
pub mod reading;
pub mod releasing;
pub mod settings;
pub mod settling;
pub mod soundness;
pub mod splitting;
