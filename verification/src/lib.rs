//! A stateless transform on structured values: a record with two text fields
//! comes in, a record with a status flag and a formatted message goes out.
//!
//! The values that cross the call boundary are modelled by [`Value`]. The
//! transform decodes such a value into an [`InputData`], derives an
//! [`OutputData`] from it and encodes that again.

pub mod laws;
pub mod record;
pub mod transform;
pub mod value;

pub use record::{DecodeError, InputData, InputField, OutputData};
pub use transform::{process_data, transform};
pub use value::{Field, Kind, Value, ValueModel};
