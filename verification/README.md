# web_pty

A web terminal: an HTTP server hands out a page and a websocket, and each
websocket session drives a shell on a pseudo terminal.

- `src/` is the verified library (Verus):
  - `error` — the pseudo terminal errors, tagged with the step that failed, and their messages;
  - `syscall` — checking system call results, the window size sent to the kernel, the child terminal's name;
  - `relay` — the decisions of the standard I/O relay (engrave key expansion, output inspection, stopping);
  - `json` — the library's model of a parsed JSON document;
  - `session` — websocket message routing, resize actions, the inherited environment, output decoding;
  - `assets` — answers for requests of embedded files.
- `app/` is the program around it: the actix server and websocket actor, the
  tokio pseudo terminal with its system calls, and the relay loop.
- `tests/` exercise the library on concrete values.
