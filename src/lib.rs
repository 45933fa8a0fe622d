//! Button remapping for a pointing device: events read from the physical device are
//! translated through a loaded mapping and re-emitted on a synthetic device.

pub mod coordinator;
pub mod deviceinfo;
pub mod event;
pub mod eventprocessor;
pub mod localdata;
pub mod pipeline;
