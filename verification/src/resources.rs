//! Resource specializations: each bundles the variables, transitions and
//! channel metadata of one kind of physical actuator over the shared
//! trigger/done/error handshake pattern.

pub mod frame_locker;
pub mod plc;
pub mod robotiq_gripper;
pub mod ur;
