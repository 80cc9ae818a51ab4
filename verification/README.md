# foreignc

foreignc exposes Rust functions and types through a C ABI and describes them
to a Python front end. This crate holds its logic, verified with Verus:

- `ffi`: the C-side forms of values (`CStringBuf`, `CResult`), the conversion
  traits `IntoFFi` / `FromFFi` with their contracts, and laws such as the
  round trip of a string through C.
- `derive`: what the attribute and derive macros compute from a signature,
  over a plain model of Rust syntax (`syn_model`): the C-side type of each
  parameter, the C-callable wrapper, the renaming of methods into free
  functions, and the records kept for the binding generator. `derive::parse`
  and `derive::reader` read the items the macros are put on from their token
  text with `syn`, one syntax node at a time, into that model.
- `generator`: the older wrapper generator, which records each function as a
  `Function` of `Arg`s and can carry chosen types as JSON.
- `template`: the collected description of an interface (`RustContext`, kept
  sorted by type name), the Python-side types, and the binding data that a
  template is rendered from; `template::laws` states what holds of them.
- `util`, `text`: identifier case conversion and string operations with exact
  contracts.
- `suite`: example interfaces as the macros expand them.

`app/` holds what the verified library leaves to ordinary Rust: emitting
tokens with `quote` (re-reading an item with `syn` only to emit it), storing
recorded items as JSON
files, rendering with `tera`, and handing values to C as raw pointers.
