# zkeydebouncer

A keyboard chatter filter. A worn key switch can bounce: one keystroke
arrives as a press, a spurious release and a second press a few milliseconds
apart. The filter drops a press that comes less than the debounce window
after the same key's release, together with the release that belongs to it,
and lets everything else through.

- `src/` is the verified library (Verus): the per-key debouncer
  (`debounce`), the step the keyboard hook takes for each event (`hook`),
  the sorting of Windows hook messages (`win_hook`), the watchdog that
  decides when the hook is reinstalled (`watchdog`), the window setting
  (`settings`), the names shown for dropped keys (`vk_names`, `key_labels`),
  and time as nanosecond counts (`time`).
- `app/` is the desktop program around it: the operating-system keyboard
  hooks, the threads, the counters shared with the user interface, and the
  Tauri front end.
- `tests/` runs the library on concrete key sequences.
