# fc_core

The verified core of a small flight controller, written in Verus.

- `src/gps`: byte-stream assemblers for NMEA 0183 sentences (`nmea_parser`) and UBX frames
  (`ubx_parser`), the field parsers for GGA, GSA, GSV and RMC sentences and for the UBX
  navigation, configuration, acknowledgement and monitoring payloads, the builders of UBX
  payloads and frames (`ubx_frame` and the `make_payload`/`make_frame` methods), and the
  records that the flight controller keeps of the solution (`gps_data`, `gps_solution_data`).
- `src/flight`: arming and feature flags, controller configuration records, and the decision
  of in-flight rate adjustments.
- `src/i2c_bus`: a simulated I2C register device.
- `src/magnetometer_sensors`: magnetometer types, configuration and drivers.
- `app`: the host program that reads a GPS capture from standard input, the storage copies of
  the configuration records, the `embedded-hal` binding of the simulated device, the IMU
  filter bank, and the floating-point navigation helpers.

Every function in `src` carries a contract that Verus proves. The proof functions state the
properties that hold across calls: a well-formed sentence or frame is accepted exactly when its
checksum matches and is reported with its payload, oversized frames are dropped, every message
or sentence reported is a well-formed frame or sentence at the end of the bytes received,
sentence fields joined with commas give the payload back, payloads that the builders make parse
back to the same message, set flags stay set, and the simulated device reads back what was
written.
