//! Decisions behind the two Pikmin Pilot desktop programs: the pairing helper,
//! which makes a remote pairing record for one USB device, and the setup
//! program, which runs the helper, installs the app and places the record in
//! the app's container.
//!
//! Every module states what is decided as a function of plain values; the
//! programs around the library perform the device, file and console work.
pub mod app_info;
pub mod console;
pub mod device;
pub mod device_error;
pub mod device_wait;
pub mod helper_args;
pub mod helper_run;
pub mod inject;
pub mod install;
pub mod layout;
pub mod pair_run;
pub mod pairing_session;
pub mod record;
pub mod registration;
pub mod setup_args;
pub mod setup_course;
pub mod setup_run;
pub mod text;
