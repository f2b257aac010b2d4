# us_stock_tracker

A terminal board of US stock quotes (CMoney first, Yahoo Finance as the fallback),
with a settings screen for the refresh interval (1–300 seconds) and the watch list.

- `src/` is the verified library: the key handling of every screen (`tracker`), the
  configuration (`config`), the quote rows (`quote`), reading quotes out of a CMoney
  page (`cmoney`) and a Yahoo chart document (`json`), the fetch addresses (`sources`),
  pop-up placement (`layout`) and the text and number helpers they rest on.
- `app/` is the terminal program: files, HTTP, JSON decoding, the clock, drawing with
  ratatui and reading keys with crossterm. Prices are `f64` there.
- `tests/` exercise the library on concrete inputs.
