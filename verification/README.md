# bsaver

A Bangla clock screensaver for Windows: a digital clock with Bangla numerals, the Bengali
calendar date (বঙ্গাব্দ) for the Bangladesh or India convention, the season, and a settings
dialog and launcher.

The library in `src/` holds the logic, verified with Verus:

- `calendar` — Gregorian dates and instants, day numbers of the proleptic Gregorian
  calendar, and the two calls into `chrono` (day distances, local calendar fields of an
  instant), stated over those day numbers;
- `bangla_date` — conversion to the Bangla calendar, month/season/weekday names, date texts;
- `clock` — the texts of the clock face (time, part of day, day and season, date line);
- `config` — font sizes, calendar regions, the configuration record;
- `text` — decimal numbers, zero padding, Bangla digits;
- `screensaver` — the command-line mode and mouse-move handling;
- `settings` — the settings dialog's buttons, where they sit and what a click does;
- `launcher` — button colors, reading `reg query` output, status, what each button does,
  install/remove commands and the steps of installing or removing;
- `raster` — pixel buffers: filling, copying text images, the fixed-width clock grid and
  the per-size cache of its digit width.

`app/` is the Windows program around it: Win32 windows and message loops, cosmic-text
rendering, the JSON configuration file.
