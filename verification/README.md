# deft

The style, widget-state and event-dispatch logic of the deft UI toolkit,
written in Verus: every operation has a contract over a mathematical model
of its data, and the contracts are proved.

- `src/style`: style property keys, declared and resolved values, style
  strings and box shorthands, number values, style listeners, default
  values and change detection (`computed`), and the style tree (`node`):
  dirty flags, resolving, applying and updating.
- `src/ui`: elements and the widgets' state (labels, text boxes, rich text,
  editables, text edits and inputs, images, checkboxes, radios and radio
  groups, selects).
- `src/ext`: audio playback bookkeeping and the system tray's events.
- `src/event_loop.rs`: the queue of tasks handed to the script event loop.
- `src/window.rs`: the memory surface of the headless window.
- `app/`: what stays outside the proofs: the serde forms of script values,
  the async runtime, the loop that runs queued tasks, float-based layout
  measuring, and the float-based decision to start an animation.

`tests/` exercises the library on concrete values.
