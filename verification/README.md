# lalapad-gen2-rmk

Trackpad and status-LED logic for the LaLaPad Gen2 split keyboard firmware
(IQS9151 capacitive trackpads on both halves, an RGB status LED on the
central), written in Verus with its behaviour stated in contracts and proved.

## Layout

- `src/iqs9151/` — the trackpad:
  - `frame.rs`: register map and coordinate-frame parsing;
  - `buttons.rs`: trackpad buttons, their virtual key positions and edge tracking;
  - `gesture.rs`: the tap / tap-drag / scroll / pinch / swipe recognizer, as a
    state machine with a functional specification, and its laws (hold balance,
    fixed configuration, indifference to the sensor's built-in gesture bits);
  - `motion.rs`: motion events, custom-event payloads, cursor and scroll scaling;
  - `inertia.rs`: motion history, release-velocity seeding and fling decay;
  - `output.rs`: dynamic scale, mouse reports, split forwarding and custom-event dispatch;
  - `device.rs`: the input device's decisions between bus reads (frames, read
    errors, start-up failures, queued events, pending motion);
  - `sensor.rs`: register write frames, read-back checks, bounded-wait poll
    steps and chunked writes;
  - `arith.rs`: saturating, clamping and rounding helpers.
- `src/rgb_widget.rs` — the status LED state machine.
- `src/rmk.rs` — the keyboard-framework event and channel types, host form.
- `app/` — the async firmware around the library: the I2C bus driver, the
  read loop, controllers, channels and LED pins. It performs the I/O that the
  library's decisions ask for.
- `tests/` — scenario tests and concrete checks of the proved laws.
