//! A bridge between a host keyboard and a serial-attached device: key
//! transitions become fixed 3-byte frames on the serial link, bytes read from
//! the link are relayed verbatim, and the terminal is held in raw mode for the
//! duration of the run.

pub mod frame;
pub mod config;
pub mod terminal;
pub mod relay;
