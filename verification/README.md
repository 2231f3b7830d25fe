# telemetry_kit

Verified core of a set of Windows host-telemetry tools, written in Verus.

`src/` is the library. Verus checks every function in it against its
contract, except the small trusted wrappers described below, whose bodies
call outside crates and whose contracts are believed:

- `detector`, `ring`, `recorder`: the sound-event recorder (energy detector
  with debounce and hangover, pre-roll ring buffer, clip state machine).
- `procinfo`, `snapshot`, `eventrec`: WMI process, socket and service rows and
  the ETW events of the TCP/IP, DNS, registry and file providers, turned into
  cache records.
- `dotnet_templates`, `dotnet_events`, `dotnetrec`: kernel-process and .NET
  runtime events, what to do with each, and their cache records.
- `weljson`, `channels`: event-log records (XML to JSON, flattening, cache
  records) and the walk over event-log channels.
- `netaddr`, `listing`, `sqldump`, `observables`, `pushover`, `webroutes`,
  `syncplan`, `etwdesc`, `etw_templates`, `tcpip_templates`, `text`,
  `timefmt`: parsers, formatters, event-id tables and paging decisions.

Calls into chrono, regex, serde_json, quick-xml-to-json and std that the
library relies on stand behind small trusted wrappers (the functions marked
`#[verifier::external_body]`, and the outside types declared with
`#[verifier::external_type_specification]`). Nothing proves their contracts;
each one's doc comment says what it claims of the outside code.

`app/` is the command-line front end (audio capture, file I/O); `tests/` runs
the library on concrete values.
