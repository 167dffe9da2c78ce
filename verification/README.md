# uvc_backend

A capture backend for USB Video Class cameras.

- `src/` is the library: the state of a camera and every decision about it,
  with contracts that Verus proves. It never calls the device; it hands out
  requests, and the streams that are to be released, and takes answers.
- `app/` makes the calls into `libuvc` and hands the answers to the library.
- `tests/` runs the library.
