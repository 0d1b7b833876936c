//! Firmware-tooling logic for MediaTek-based Lenovo tablets: parsing of tool
//! output, firmware metadata, device properties and the decisions that drive
//! flashing, all stated and proved with Verus.
use vstd::prelude::*;

pub mod device;
pub mod guard;
pub mod model;
pub mod ota;
pub mod paths;
pub mod probe;
pub mod runtimes;
pub mod slot_stage;
pub mod spft;
pub mod text;

verus! {

} // verus!
