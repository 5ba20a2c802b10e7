# rust_fc

Flight controller for a V-shaped bicopter (two tilting motors on servos),
running on an RP2350 board under Embassy.

- `src/` is the verified library: DShot frame packing and its checksum, the
  system state (flight state, failsafe action, arm-blocking and error flags),
  the allocation of the board's actuator resources, decoding of the MPU6500's
  register bursts, framing of log packets for the host, loop timing
  statistics, and the decisions of the control tasks (arming from receiver
  packets, what the rate loop does in each state, sensor health and tilt).
- `app/` is the firmware around it: board and peripheral set-up, USB, the
  Embassy tasks, and the floating-point control (filters, attitude
  estimation, PID controllers, mixer, servo pulses).
- `tests/` exercises the library on concrete values.
