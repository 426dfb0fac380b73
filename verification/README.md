# mili

A self-hostable link shortener with QR codes, written in Verus.

- `src/` is the verified library: choosing short-link identifiers, accepting
  submitted links, redirect and QR-code decisions, making the QR picture of a
  link (with an optional logo), preparing uploaded logos, and the SVG drawing
  of a QR symbol.
- `app/` is the server around it: the axum routes, the PostgreSQL queries, the
  HTML pages, and a small program that renders a QR symbol to WebP.
- `tests/` exercises the library with the real outside crates.
