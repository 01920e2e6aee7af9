# unity_web_server

A development server for Unity WebGL builds: it finds the build, picks a free
port, serves the build files with the right MIME types and compression
headers, lists directories, and serves a page that frames the game at the
canvas size declared in the build's `index.html`.

- `src/` is the library, verified with Verus:
  - `text` — suffix tests, decimal writing and reading of `u32`;
  - `content_type` — MIME types and `content-encoding` by file suffix;
  - `canvas` — canvas size detection (through the `regex` crate);
  - `page` — the HTML page around the game;
  - `build_path` — the search for the build directory, as a step function
    that names the `index.html` to check next;
  - `port` — the port search, as a step function;
  - `serve` — the decisions taken for one request to a build file, as a
    step function, and the directory listing page.
- `app/main.rs` is the program: arguments, logging, binding ports, file
  reads, the `warp` routes, and opening the browser.
- `tests/` exercise the library on concrete values.
