# statline

A COSMIC panel applet that will show system stats; for now a panel pill and
a popup with a main header, a Settings page and an About page.

- `src/` is the verified library:
  - `config.rs`: the persistent settings and the choice of config at start-up;
  - `app.rs`: applet state and `update`, the transition taken on each message,
    returning the work (`Effect`) the host must do;
  - `popup.rs`: what each popup page holds and how the shell is aligned;
  - `launch.rs`: command lines for links and the system monitor, and the
    launcher fallback sequence;
  - `laws.rs`: properties across calls, proved over the specs above.
- `app/` is the COSMIC program: widgets, styles (floating-point colors),
  popup surfaces and process spawning, driven by the library.
- `tests/` runs the library on concrete values.
