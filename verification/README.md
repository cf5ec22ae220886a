# hint_control

The logic of a desktop controller for a home internet gateway, written and proved
in Verus, with the program around it.

- `src/` is the verified library. It makes no system calls: the program reads the
  clock, the network and the files, hands plain values in and takes plain values
  back.
  - `source`, `app`, `actor`: what is polled and when, what a report or a command
    changes, what the user is told.
  - `login`, `auth`, `gateway`: the requests, the steps of a login, and how an
    expired one is renewed.
  - `json`, `rows`, `snapshot`, `events`, `screen`: from reports to what is shown.
  - `history`: the samples behind the graphs.
  - `wifi`, `qr`: the forms of the networks and their QR codes.
  - `logging`, `settings`, `text`, `time`, `models`: what the others rest on.
- `tests/` runs the library.
- `app/` is the program: GTK, HTTP, files, the clock.
