# alfen_eve

Three tools for an Alfen Eve charger, on top of a library whose logic is
verified with Verus.

- `alfen_solar` listens to the power that is returned to the grid and commands
  the charging current over MQTT.
- `modbus_explorer` shows and writes Modbus registers in a window.
- `write_watch` writes a maximum current and watches what the charger makes of it.

## Layout

- `src/` is the library.
  - `text`, `bytes`, `words`, `ieee`: characters, bytes, register words, and how
    floating-point numbers compare by their bits.
  - `registers`, `encoding`, `transfer`, `rows`, `worker`, `explorer`,
    `explorer_config`: the register explorer; `register_laws` and `worker_laws`
    say what holds across them.
  - `solar_config`, `solar_mode`, `solar`, `solar_state`, `discovery`, `power`,
    `json`, `json_text`: the solar controller; `solar_laws` and `power_laws` say
    what holds across them.
  - `watch`: the watcher.
- `app/` is the program around it: the broker, the device, the window, the
  configuration files, and arithmetic on floating-point numbers.
- `tests/` runs the library.

Floating-point numbers cross the border between the two as bit patterns, or as
the text that they are shown as.
