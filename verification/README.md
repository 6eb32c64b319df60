# xsay

An offline, Chinese-first voice input tool: hold a hotkey, speak, release, and the
recognised text is pasted at the cursor.

The crate has two parts.

* `src/` is the library, written in Verus: every function carries a contract and
  is proved. It holds the logic of the tool — the global hotkey listener's
  decisions (hold / toggle, modifiers, key capture), the dictation session state
  machine, the recorder's bookkeeping, the noise filter's window counting, the
  transcript filter that drops hallucinated fillers and subtitle credits, the
  model catalogue and settings migration, resumable downloads (range requests,
  header parsing), history listing and calendar arithmetic, paste plans, and the
  settings window's choices. Public `law_*` proof functions state properties that
  span several functions (for example: hotkey events alternate; a full session
  ends in Idle and a too-short final chunk ends it at once; every key name the
  listener reports selects that key again; parsing a written number gives it
  back; every day number is exactly one date).
* `app/` is the program around it: threads, the microphone, the recognisers, the
  clipboard and virtual keyboard, files, the IPC socket, the tray and the windows.

`tests/` exercises the library on concrete values.
