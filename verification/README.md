# ale_rs

A binding to the Arcade Learning Environment's C++ `ALEInterface`, split in
two:

- `src/` is the verified library (Verus): the checks that stand in front of
  ALE (ROM guard, action range `0..=17`, setting keys and ROM paths that must
  be C strings), the load sequence that consults `isSupportedROM` before
  `loadROM`, the interpretation of ALE's answers (status codes, flags, the
  ROM-name buffer, the minimal action set, failure messages), the
  process-wide logger rule, and the error type with its messages.
  - `session.rs`: `Session`, `Call`, `LoadStep` and the laws on them.
  - `logger.rs`: `LoggerMode`, `LoggerSetting`, `set_logger_mode`.
  - `outcome.rs`: answers of the shim, `Screen`.
  - `error.rs`: `AleError` and its messages.
  - `text.rs`: NUL search, UTF-8 decoding, decimal numbers.
- `app/` holds the foreign calls into the C shim, the `Ale` handle that owns
  the C++ object, and the lock around the process-global logger setting.

Whether ALE is linked is a property of the application's build
(`cfg(ale_linked)`), so `is_linked()` and `linked_version()` live in `app/`;
unlinked, `Ale::new()` reports `AleError::NotLinked`.
