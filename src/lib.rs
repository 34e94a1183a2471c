// Control layer for a virtual disk driver: command-line values become
// validated requests, requests become frames for the driver, driver answers
// become statuses of a closed set, and a state machine sequences each
// operation so that an opened handle is always released.

pub mod status;
pub mod size;
pub mod request;
pub mod codec;
pub mod session;
pub mod command;
pub mod drives;
