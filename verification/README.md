# flexion

Firmware core of an e-bike charging controller: it reads the bike's battery
over CAN, drives up to three CAN chargers, follows the charging station's
PWM signal, keeps the coolant temperature, and logs to a serial console.

- `src/` is the library, verified with Verus: physical quantities in
  fixed-point thousandths, the CAN messages of the battery and the chargers,
  the charger pack's current sharing, the charge control state machine, the
  station's PWM reading, the coolant PI controller, values that expire, a
  byte ring buffer, and the console's logger.
- `tests/` runs the library on concrete values.
- `app/` is the firmware around it: peripherals, tasks, and the loops that
  wait for events and carry out what the library decides.
