# Helix

A real-time multi-sensor fusion engine: GPS, IMU and barometer packets arrive
over UDP, a complementary filter blends IMU-integrated altitude with the
absolute references, and a dedicated fusion thread produces a navigation state
estimate after every message.

## Layout

- `src/` — the verified library (Verus):
  - `config.rs` — `EngineConfig`, its defaults, and the environment overrides
    (decimal parsing with fallback), with the round-trip law for overrides.
  - `sensor/` — the sensor packets (floating-point readings carried as their
    IEEE-754 bits), `SensorMessage`, and the little-endian datagram decoders
    built on bincode's fixed-width integer reads.
  - `fusion/filter.rs` — `FilterClock`: the complementary filter's timestamp
    reference (Δt of each IMU step) and update counters.
  - `fusion/schedule.rs` — `FusionState`: the fusion loop's decisions as a state
    machine (latest timestamp, gyro interval, ENU origin seeding, cycle count,
    log throttling), with its laws.
- `app/` — the engine around the library: UDP listeners (tokio), the bounded
  channel (crossbeam), the fusion thread, and all floating-point arithmetic
  (filter blend, ISA barometric altitude, ENU projection, gyro integration with
  nalgebra, state estimate formatting).
- `tests/` — tests of the library.
