# clicknfocus

Eager click-to-focus for macOS: a mouse-down on a background window activates that
window's app before the click is delivered, so one click both focuses and acts.

- `src/` is the verified library (Verus): which windows may be focused (`focus`),
  the event tap's decisions per event and per click (`event_tap`), the walk and
  scan that find the window under the cursor and the window identity (`ax`), the
  bounded bundle-id cache (`bundle`), the command-line options (`cli`) and the wait
  for the Accessibility permission (`permissions`).
- `app/` is the daemon: it performs the Accessibility, CoreGraphics and
  Objective-C calls the library's decisions ask for, and runs the event loop.
- `tests/` exercises the library on concrete values.
