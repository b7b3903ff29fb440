# bno080

A verified driver core for the BNO080 sensor hub, which speaks SHTP (the Sensor
Hub Transport Protocol) over a packet link such as I2C or SPI.

- `src/` is the core. It builds and handles packets and decides what to do next,
  but performs no I/O: each operation is a step function from an event to an
  action or a result. Its contracts are stated over `model::HubState`, the state
  of the driver as a mathematical value, and `laws` proves what holds of the
  driver as a whole.
- `app/` runs the core against a packet link and a delay source of
  `embedded_hal`, and turns fixed-point numbers into floating point.
- `tests/` runs the core against a link that plays back packets.

A packet that is cut short, and the 256th packet on one channel, are outside the
preconditions of the core. `BNO080::can_handle_packet` tests for the first, and
`app/` panics on both.
