# can_bootloader

Verified core of an STM32 bootloader that flashes an application received
over CAN, FDCAN or, for boards with an external octal-SPI flash, from a
debugger over RTT.

`src/` is verified with Verus:

- `frame`, `wire`, `can`, `fdcan`: CAN identifiers and frames, the integers
  of the wire format (read and written with `bytemuck`), and the protocol's
  messages with their encoding and decoding.
- `sector`: the buffer in which a flash sector is assembled from data
  messages.
- `erase`: the internal-flash range and the external-flash blocks erased
  before an application is written.
- `session`, `session_laws`: the flashing session as a state machine (wait
  for a request to this board, learn the application size, erase, receive
  sectors, finish) and what holds of every run of it.
- `debugger`: the debugger-driven flashing of the external flash as a state
  machine.
- `octo_spi`: the transfers and command plans of the Macronix octal-SPI
  flash, its status bits, and the run of a plan (stop at the first failing
  transfer, repeat a poll until its condition holds).
- `mpu`: the memory protection settings for executing from external flash.
- `external_flash`: the interface an external flash driver implements.

`app/` is the firmware around it: it owns the peripherals (CAN, flash,
OCTOSPI, RTT, MPU), reads frames and bytes, performs the actions the state
machines return, and jumps to the application.  The verified core uses
`Vec` from the standard library, so `app/` is written against std rather
than as a `no_std` image with its own panic handler.
