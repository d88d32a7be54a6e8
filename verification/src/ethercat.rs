//! EtherCAT devices: the CiA 402 drive profile, device identities and the
//! process data of the supported terminals and drives.
pub mod bus;
pub mod cia402;
pub mod devices;
pub mod el2xxx;
pub mod el3356;
pub mod i550;
pub mod i550_error;
