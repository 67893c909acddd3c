# pheeple

A multi-agent simulation of a mobile population interacting with cell
towers. Pheeple commute between a home and a workplace with the day/night
cycle, now and then place a call through a tower chosen by proximity, and
every call is logged as a CSV row `timestamp,caller,tower`.

Layout:

- `src/` — the verified library (Verus): identifiers (`ids`), random draws
  (`chance`), the pheeple state machine (`pheeple`), the day/night cycle
  (`day_night`), the call log (`call_log`), towers and the call decision
  (`tower`), basemap loading rules (`gis`), settings and command-line
  outcomes (`settings`), camera keys (`camera`).
- `app/` — the Bevy program around it: windowing, rendering, floating-point
  geometry and movement, file output.
- `tests/` — tests of the library.
