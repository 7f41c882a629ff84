# channel9

Firmware logic for the Channel9 ESP32-S3 device (a Cardputer-Adv board),
written in Verus. Every function under `src/` carries a contract that Verus
proves, except two wrappers of std's `String::push` and `String::pop`
(`src/text.rs`), whose contracts are trusted. The properties that span
several calls are stated and proved as `law_*` proof functions. Labels are
written with the capacity of fixed-size text buffers: a piece that does not
fit is left out.

Layout:

- `src/runtime/` — the Channel9 device login (device code, token polling,
  back-off) and the push event stream (fetch scheduling, failure counting,
  message display).
- `src/client.rs` — requests and replies of the Channel9 HTTP API, the
  event-stream framing, and the API's error texts.
- `src/menu/` — the on-device menus: a reducer from screen, state and key to
  the next screen and the work to do (`screen.rs`, `navigation.rs`), what each
  screen shows (`view.rs`, `labels.rs`), and the recorder's messages.
- `src/config.rs`, `src/fs.rs`, `src/storage.rs` — the configuration, the
  paths on the card, recording names and directory listings.
- `src/wifi.rs`, `src/ble.rs`, `src/time.rs` — the station, the BLE
  advertiser and the SNTP sync as state machines driven by driver reports.
- `src/board.rs`, `src/audio.rs` — keyboard decoding, codec and IMU reports,
  the voice-note filter and the WAV header.
- `src/text.rs` — the string helpers the rest is written with.
- `app/` — the ESP-IDF program around the library: drivers, HTTP, JSON,
  drawing and the main loop. It performs the work the library asks for and
  hands the results back.
- `tests/` — tests of the library on concrete values.
