# ocloud

A small media CDN: a server that stores uploaded files under their SHA-256
checksum and serves them back, and a command-line client that uploads files.

- `src/` is the verified library (Verus): decimal and hexadecimal rendering
  (`text`), streaming SHA-256 through `sha2` (`digest`), errors and their
  client-facing answers (`error`), media records and how stored files are named
  and addressed (`model`, `cdn_model`), what the controller makes of database
  answers (`controller`), upload bookkeeping and download headers (`routes`),
  the client's URLs and status handling (`cli`), and how a media endpoint
  reads back as its file name, id and checksum (`endpoint`).
- `app/` is the program around it: configuration, PostgreSQL queries, the axum
  routes, disk I/O, and the client's TOML configuration and HTTP upload.
- `tests/` exercises the library on concrete values.
