# ui

Shared widget rules and theming for voice-chat-core.

- `src/` is the verified library: the palette (`theme`), the dropdown
  contents and selection rule, section header texts, widget metrics, and
  the drawing steps of the VU and gate level meters (`widgets`). Each
  function states its result exactly; the laws of the dropdown and of the
  meter drawings are public proof functions beside them.
- `app/` builds the FLTK widgets from those rules: it creates and styles
  the widgets, applies the `fltk_theme` scheme, measures the meter levels
  (floating point), and executes the drawing steps.
