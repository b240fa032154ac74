# kui

Kui is a small vector-based UI toolkit. This crate holds its decision logic, written in Verus
and verified:

- `interactive`, `button`, `text_input`: the interaction flags of input elements, the pointer
  rules that change them, when a button acts, and how key presses edit the text of an input;
- `window_state`, `text`, `lazy_linear_layout`, `canvas`: what an element or a window has to redo
  (dirty states), and which children of a lazy layout are kept, placed again or created;
- `app_state`, `ctx`: timed callbacks, their registry (register, cancel, take the due ones), and
  when the event loop has to wake up for the others;
- `event_loop`, `with_cursor` (with the cursor stack), `events`, `hooks`, `element`, `event`: the lifecycle of the event
  handler, cursor pushes and pops, and how events propagate through hooking elements.

The callback registry and the cursor stack are vectors of entries tagged with IDs handed out
in increasing order, with the invariant that the IDs are distinct; the `slotmap` and
`smallvec` collections of the windowing side are not used for them, because what they store
(boxed callbacks, `winit` cursors) cannot be described as plain values.

Instants are counted in integer ticks and events are described by plain values, so that every
rule can be stated and proved. The public proof functions (`lemma_*`) state the laws that hold
across calls.

`app/` is the windowing and layout side, built on `winit` and `vello`, and is not verified. It
holds what the library cannot: geometry in floating-point numbers, platform events, resources
keyed by type, elements as trait objects, and the comparison of `winit` cursors. For the
interaction state, text editing, dirty states, callbacks, cursor stack and lazily created
children it calls the library.

`tests/` runs the library on concrete values.
