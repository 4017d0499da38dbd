# syncrim (verified core)

The logic of a synchronous circuit simulator's components and views,
verified with Verus.

- `src/` is the verified library: component ports and the component
  interface (`common`), the MIPS forwarding comparator and the RISC-V
  instruction memory (`components`), number formatting (`text`), the editor
  helpers, hover text and register view of the egui front end (`gui_egui`),
  and the event handling of the vizia front end (`gui_vizia`).
- `app/` is the egui drawing around it and serialisable copies of the
  library's types, which carry the canvas positions.
- `tests/` runs the library on concrete values.
