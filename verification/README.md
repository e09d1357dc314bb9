# crossterm_cffi

A C interface to the `crossterm` terminal library, with its decisions verified
in Verus.

- `src/` — the verified library:
  - `error_state` — the per-thread error slot and result code: storing,
    peeking at and taking the last error, its length for C, its message as a
    C string, and `CUnwrapper`, which turns a fallible call into a plain value
    and a result code.
  - `c_string` — NUL-terminated copies of text for C.
  - `event_text` — the text describing an event read from the terminal.
  - `terminal` — the C data types and the result of each terminal call
    (command status, poll answer, cursor position, terminal size, raw mode,
    keyboard enhancement masks, titles).
  - `laws` — properties relating the calls above.
- `app/` — the `extern "C"` entry points: thread-local state, `malloc`/`free`,
  `#[repr(C)]` copies of the data types, and the terminal I/O itself.
- `tests/` — tests of the library.
