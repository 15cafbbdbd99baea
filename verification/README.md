# ndk

Safe access to the Android NDK, split in two parts.

- `src/` is the verified library. It holds everything that decides something: the raw codes
  of the NDK's enumerations and their round trips, the decoding of status and result codes
  into errors, the flag sets, the reading of camera metadata entries into records and back,
  the geometry of locked window buffers, the walks over pointers and history of motion
  events, the checks on font weights and axis tags, and the reading of system property
  values. Each function states its result in its contract, and the laws that relate
  functions are proof functions beside them.
- `app/` holds the handles that own native objects (streams, cameras, codecs, windows,
  loopers, ...). They call the NDK through raw pointers and `unsafe`, which the verified
  library cannot hold, and hand what the NDK returns to the library for decoding. It also
  holds copies of the library's error types with `Display` and `Error`.
- `tests/` runs the library on concrete values and compares its constants with the raw
  bindings.
