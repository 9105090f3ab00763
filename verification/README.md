# nexus_controller

The verified core of the Automata Nexus building-automation controller, written in
Verus. `src/` holds the logic with its contracts and laws; `app/` is the program around
it (web server, hardware commands, SMTP, SQLite, Cloudflare) and the floating-point
parts (refrigerant diagnostics, weather, protocol discovery); `tests/` exercises the
library on concrete values.

Modules of the library:

- `alarms`: alarm definitions, evaluation of point readings, acknowledgment, history
  and counts (values in hundredths, times in Unix seconds).
- `email`: templates with `{{variable}}` placeholders, rendering, the delivery log.
- `auth`, `admin_access`: user accounts, bcrypt password checks, JWT session tokens,
  password changes, the desktop sign-in, and the hidden way into the admin panel.
- `serial`: device fingerprints, the search for a free controller serial, DNS names.
- `boards`, `hardware`, `io_control`, `board_config`: board scans, the firmware
  interface's commands, the emergency-stop plan, the I/O panel's pending changes and
  PIN lock, and each board channel's configuration (values in hundredths, voltages in
  millivolts) with the edit dialog's defaults and saving.
- `circuits`: the refrigerant circuits' transducers and temperature sources, the input
  boards they are read from and the commands that read them.
- `database`, `db_viewer`: SQL of the metrics database, the `SELECT`-only guard, CSV
  query results.
- `firmware`, `logic_engine`, `bms`, `metrics`, `refrigerant`, `weather`, `web`,
  `api`, `config`, `protocols`, `audit`: the remaining services' state and decisions.
- `text`, `entries`, `outside`: verified string helpers, text-keyed lists that stand
  for maps, and the calls into `sha2`, `uuid`, `rand` and `chrono` with their contracts.
