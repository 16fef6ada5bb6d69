# hackrf

A HackRF driver wrapper in two parts.

- `src/` is the verified library. It holds the conventions of libhackrf —
  the numbers of its enums and status codes, what a status code means, how
  a stream callback's answer and byte count are reported back, the order in
  which a transmission is started and rolled back, the layout of a sweep's
  frequency list, the Opera Cake slot filtering and the hex form of a
  board's part id and serial number — and the decisions of the Android USB
  flow: the activity class, which USB ids are HackRFs, how many devices are
  gathered, and a device list whose entries open once.
- `app/` is the rest: the bindings to the C library libhackrf, the device
  handle and stream guards that own C resources, and the JNI calls into the
  Android `UsbManager`. Each of them hands the values it gets back to the
  library and does what the library decides.

Tests of the library are under `tests/`.
