# soteria

A polkit authentication agent. Its decisions are a library that Verus verifies; D-Bus, processes,
channels and the GTK window are ordinary Rust around it.

- `src/dbus.rs`: one authentication as a state machine, from polkit's request to the answer. Each
  step takes what happened and gives what is to be done.
- `src/ui.rs`: the state of the authentication window.
- `src/events.rs`: the events between the two, how they are printed and how they are erased.
- `src/helper.rs`, `src/text.rs`: the line protocol of polkit's helper.
- `src/users.rs`, `src/locale.rs`, `src/wipe.rs`, `src/debug.rs`: the user database, message
  catalogs, erasing and printing, each with the outside calls that it rests on.
- `src/laws.rs`: what holds of whole authentications. A secret only ever answers a prompt, a
  password is written once, and polkit is answered once.
- `src/joint.rs`: what holds of the agent and the window, with the events between them in a queue.
  Whenever a password is needed and the window has heard all that was sent, it shows the password
  entry.
- `src/legible.rs`: that the printed forms of the events tell them apart, as far as the standard
  library's quoting of strings is unambiguous, which is not proved here.
- `app/`: the program around the library.
