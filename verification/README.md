# alarm_clock

An alarm clock built from an ATmega328P board, a DS3231 real-time clock, a
four-digit seven-segment display behind a shift register, three capacitive
touch buttons and a buzzer (with optional drawing routines for an SSD1306
OLED panel).

- `src/` is the verified library: BCD conversion and the DS3231 register
  frames (`clock`), the capacitive button scanner (`button_scanner`), the
  seven-segment patterns and shift order (`display`), the device state
  machine — menu, time and alarm editing, alarm handling, display blinking,
  buzzer feedback (`device`) — and the OLED frame buffer with seven-segment
  glyph drawing (`oled`). Contracts are stated over views of each type, and
  the properties the design relies on are proved as lemmas beside the code.
- `app/` is the firmware around it: peripherals and pins, the I2C transfers,
  and the main loop that performs what the state machine asks for.
- `tests/` exercises the library on concrete values.
