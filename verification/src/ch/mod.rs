//! The Cloud Hypervisor driver.

pub mod device;
pub mod hypervisor;
pub mod inner;
pub mod protection;
pub mod types;
pub mod utils;
pub mod virtiofs;
pub mod vmm_instance;
