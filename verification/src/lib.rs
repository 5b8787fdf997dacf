//! Logic of a DS3231-backed alarm clock with a four-digit seven-segment
//! display, three capacitive buttons and an optional SSD1306 OLED panel.
//!
//! Every module here is free of hardware access: the board layer performs the
//! pin and bus operations and hands the library plain values.
pub mod clock;
pub mod button_scanner;
pub mod display;
pub mod device;
pub mod oled;
