# yaml_edit_py

The binding layer of the `_yaml_edit` Python extension over the `yaml-edit`
lossless YAML editor.

- `src/`: the library, verified with Verus. The `Py*` types hold handles into
  the editor's shared syntax tree; each call into the editor goes through a
  small trusted wrapper beside the function that makes it. Verified there:
  which scalar type a Python value is written as (`scalar_arg`), node kinds
  and typed views (`node`), quote detection and unquoting, decimal and
  debug-quoted `repr` text (`text`), and the errors raised for absent keys,
  out-of-range indices and refused input (`error`, `mapping`, `sequence`,
  `document`, `stream`, `merged`). The `merged` module also exposes the
  editor's read-only view that resolves aliases and merge keys; the
  resolution itself is the editor's, reached through trusted calls, and only
  the errors it raises and the order-keeping conversion of its results are
  verified here.
- `app/`: the PyO3 module: Python classes, reading Python values, reading
  and writing files (the text read goes through the library's parse), and
  floating-point values.
- `tests/`: the README's examples and tests of each module.
