# gamebub_gba

The driver of the Game Boy Advance core of a handheld console, as a Verus library: which requests
it makes of the FPGA, the motion sensor, the files and the stored settings, and how it keeps the
real-time clock of a cartridge.

- `src/bcd.rs`, `src/words.rs`: packed decimals and little-endian words.
- `src/calendar.rs`: the calendar, and a date and time at an offset from UTC.
- `src/clock.rs`: the calls into the `time` crate. Their contracts are trusted.
- `src/rtc.rs`: the registers of the clock, what time they show, and how they catch up.
- `src/cartridge.rs`, `src/rom_header.rs`: the emulated cartridge and the header of a ROM. The call
  of `String::from_utf8_lossy` is trusted.
- `src/hardware.rs`: registers, requests, and what follows when one fails.
- `src/gba.rs`, `src/files.rs`, `src/core_info.rs`: the driver, its files, and what it tells of
  itself.
- `app/`: the core handler, which makes the requests and hands the replies back. It is generic over
  the device, the settings, the save type detector and the rest of the firmware.

Proof functions whose names begin with `law_` state what holds of the library as a whole.
