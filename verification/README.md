# mainboard

Register-level logic of two boot stages: the ADSP-SC598 first stage (TWI
master, UART, protection units, LEDs) and the Allwinner H616 first stages
(console setup, status LED, hexadecimal output).

- `src/` is the verified library. Every driver routine returns the register
  operations it issues (`mmio::MmioOp`) or the bytes it sends, and takes the
  register values it reads as arguments. The TWI transfer, which alternates
  reads and decisions, is a state machine (`i2c::Transfer`) stepped one
  register access at a time.
- `app/` carries the operations out on the hardware with volatile accesses,
  implements the `embedded-hal` traits, and holds the entry points.
- `tests/` exercises the library on concrete values, including a simulated
  TWI controller.
