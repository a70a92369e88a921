# sixtyfps

Verified core of the SixtyFPS `sixtyfps!` macro front end and of the Qt
native scroll view.

- `src/tokens.rs`: flattening of the macro's token tree into parser tokens,
  with an exact contract over `flatten`.
- `src/token_laws.rs`: laws of flattening (order-preserving concatenation,
  proper nesting of parentheses and braces).
- `src/component.rs`: the plan of the generated component (item tree,
  fields, initialisation statements).
- `src/scrollbar.rs`: routing of mouse events to the scroll bars, the
  pressed-state machine and the scroll offset after a click, with its laws.
- `src/frame.rs`: integer frame geometry (paddings, corner size).
- `app/`: the proc-macro and Qt glue around the library (needs Qt and the
  SixtyFPS compiler crate to build).
