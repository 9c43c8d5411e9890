# web_ui_primitives_leptos

Headless, accessible UI primitives for Leptos, with their decision logic
verified by Verus.

- `src/` is the verified library: the DOM attribute helpers for dialogs,
  menus and tabs; focus-scope tab order; the dismissible-layer stack; the
  presence lifecycle (states, close-cycle generations, what each style
  sample does next, which exit tracks an exit waits for); strict placement
  identifiers and nonces; reference-counted scroll locking (`scroll_lock`, in a browser document;
  `scroll_lock_host`, stateless, where no document exists); and the small
  text utilities they share (white-space trimming, decimal parsing, CSS list
  splitting). Every public function states its result exactly in its
  `ensures`, and the laws that span calls are public proof functions.
- `app/` holds the Leptos bindings: components, event listeners, computed
  style reads, frames, timeouts and microtasks. It calls the library for
  its decisions and keeps browser work and floating-point timing. Two
  features are not performed there, because the code they need is not
  available: menu placement geometry and its publication (inline style or
  strict stylesheet), and hiding a modal dialog's siblings from assistive
  technology. The strict-publication checks themselves are in the library.
- `tests/` runs the library on concrete values.
