# hexchat

Hook bookkeeping for a HexChat plugin, verified with Verus.

- `src/hook.rs`: priorities, eat modes and their codes, the handles that
  registrations give back, and `HookRegistry`, the plugin's tables of live hooks
  (one per kind; reply listeners share the table of typed server event
  listeners), with the functions that record and remove hooks, and the steps
  a reply listener, a one-shot listener and the guard of an until-listener
  take for each line that reaches them.
- `src/event.rs`: what a hook trampoline computes: the words a callback is given,
  the raw IRCv3 line, whether chrono can hold the event's time, the timer
  interval HexChat is given, and the code handed back to HexChat.
- `src/message.rs`: the lines printed when a callback fails.
- `src/laws.rs`: properties of the registry, of the one-shot and until
  listeners over any run of lines, and of the eat codes.
- `app/`: the C side: calls into HexChat's plugin API, the trampolines, and the
  `DateTime<Utc>` values handed to callbacks.
