//! Channel9 firmware logic: device-code login, push polling, screen navigation,
//! keyboard decoding and the labels the firmware shows.

pub mod text;
pub mod runtime;
pub mod config;
pub mod wifi;
pub mod board;
pub mod audio;
pub mod menu;
pub mod client;
pub mod fs;
pub mod storage;
pub mod ble;
pub mod time;
