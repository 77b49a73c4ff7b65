# lr2021

Command encoding and reply decoding for the Semtech LR2021 radio, verified
with Verus.

- `src/` is the library. Each driver operation is a function from its
  arguments to the command frames to send (`xfer::Command`), or from a read's
  status and payload bytes to the decoded value. Commands sit in fixed
  buffers, so the library allocates nothing; the one read framed
  differently, the Rx FIFO, is a step machine (`xfer::FifoRead`). `ffi`
  holds the argument checks and result encoding of the C entry points.
- `app/` is the C ABI: it moves the bytes over SPI through the host's
  callback table and the shared `lrxxxx-hal` framing, and calls the library
  for every decision, including when to stop a command sequence
  (`xfer::send_start`, `xfer::send_step`).
- `tests/` exercises the library on concrete values.
