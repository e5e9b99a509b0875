//! The driver of the Game Boy Advance core: what it knows of the cartridge in use, what it asks of
//! the hardware and the files around it, and how it keeps the cartridge's real-time clock.
pub mod bcd;
pub mod calendar;
pub mod cartridge;
pub mod clock;
pub mod core_info;
pub mod driver_laws;
pub mod files;
pub mod gba;
pub mod hardware;
pub mod rom_header;
pub mod rtc;
pub mod time_laws;
pub mod words;
