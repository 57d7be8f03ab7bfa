pub mod channel;
pub mod compartment;
pub mod gateway;
pub mod marshal;
pub mod status;
