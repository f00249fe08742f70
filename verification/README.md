# prayer_core

The core of a menu-bar prayer-times app, as a verified library.

`src/` holds the logic, each function with a contract that Verus proves:

- `prayer`, `prayer_map`, `prayer_times`: the six daily events, a table keyed
  by them, and a day's times as epoch seconds (next, current, chronological
  listing, Ishraq).
- `current_waqt`: the prayer window in progress, across the day boundary.
- `params`, `coordinates`, `high_latitude`, `adapters/`: the calculation
  methods and the parameters each produces (fixed-point degrees), the Hanafi
  modifier and the registry that resolves a persisted selection.
- `engine`: the exact part of the day's calculation (method offsets,
  fixed-interval Isha, manual fine-tuning, placing events on the time line)
  and the Julian day number.
- `notification`, `notification_sound`, `settings`: the persisted settings,
  their defaults and the per-prayer notification resolution.
- `clock`, `delivery`, `audio`: the live clock (rollover, next event, tray
  label, re-render throttle, panel state), how a due notification is
  delivered, and the commands the playback thread is sent.
- `location`: what an IP-location reply yields, or why the lookup failed.

`app/` is the desktop side that Verus does not see: the floating-point solar
engine, the JSON form of the settings and their file, IP location lookup, and
the live clock fed by the system clock and time zone.

`tests/` exercises the library from outside.
