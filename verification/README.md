# openless

The rules of a dictation application, verified with Verus: what a key event does, which listener
hears a shortcut, how preferences are stored and migrated, how a selection is read and replaced,
how a local speech model is started and released, how a dictated text is inserted.

- `src/` is the library. Its functions carry contracts, and every contract is proved. Public
  `proof fn`s state what holds of several functions together.
- `tests/` runs the library on concrete values.
- `app/` is ordinary Rust around the library: the clipboard, files, timers, threads and JSON. What
  a platform has to supply is a trait there.

The platform is an argument (`TargetOs`), so that the rules of every platform are verified
everywhere. What happens outside — a key that was pressed, a reply of the operating system, a
record that was read — comes in as a plain value or through a closure, and the contracts hold
whatever it is.

| Module | What it decides |
| --- | --- |
| `text`, `types`, `errors`, `platform` | shared values, and what each platform can do |
| `hotkeys`, `hotkey_setup`, `rebinding`, `style_pack_hotkeys`, `supervision`, `routing` | shortcuts: their names, their listeners, where an event goes |
| `preferences`, `preference_record`, `salvage` | settings: defaults, migration, saving what can be saved of a damaged file |
| `less_computer` | the voice key of the agent, from press to handoff |
| `local_asr`, `native_session` | local speech models and the sessions that run on them |
| `recording`, `insertion` | audio archives, and how text reaches an application |
| `selection`, `simulated_copy`, `selection_target`, `selection_runtime` | reading a selection, and replacing that one only |
| `capsule`, `host`, `host_document`, `front_app` | what is shown, and what is known of the application in front |

Verified code calls other crates through three wrappers, which are believed to do what their
contracts say: two around `serde_json` (`preference_record`) and one around `url` (`capsule`).
