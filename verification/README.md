# ebyte_e32

Driver for Ebyte E32 LoRa modules, with its protocol logic verified by Verus.

- `src/` is the verified library: the five-byte parameter block (`parameters`), each
  setting's code (`parameters::*`), the model data (`model_data`), the mode pin levels
  (`mode`) and the bytes the driver sends and what it makes of the module's replies
  (`driver`). Proof functions state the round trips between settings and their codes.
- `app/` is the embedded-hal driver `Ebyte`: it moves bytes over the serial port, sets the
  M0/M1 pins, waits on AUX and delays, and hands every decision to the library.
- `tests/` runs the library on concrete values.
