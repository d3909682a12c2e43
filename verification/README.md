# rspack_plugin_javascript

The decision logic of a bundler's JavaScript plugin, verified with Verus.

- `src/` is the library. `module_type`, `options` and `graph` hold the data;
  `builtin_plugins`, `parser`, `runtime_requirements`, `parse_meta`, `lexer`, `program`,
  `scan` and `parse` cover parsing; `render`, `generator` and `asset` cover code
  generation; `eval_array` evaluates array literals; `plugin_context` is what compiler
  plugins register with.
- `app/` is the host side: async entry points and conversions.
- `tests/` runs the library on concrete values.

Parser plugins, dependency templates and the walker over the syntax tree are traits. They
take the state that they change by value and give it back, and the contracts relate the two
through `call_ensures`.
