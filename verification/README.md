# react_intl_auto

Generates and extracts React Intl message IDs, verified with Verus.

- `src/` is the verified library. It works on a model of the JavaScript syntax
  tree (`syntax`): the analysis of `FormattedMessage` elements,
  `formatMessage` and `defineMessages` calls (`ast_*`), ID generation from the
  file path and the message (`gen_path`, `gen_id`, `plugin_utils`), the search
  for the project root (`project_root`, a step machine that the caller feeds
  with what the file system answers), the rewriting visitors of the transforms
  (`rewrite`, `plugin_visitors`, `swc_visitors`, `auto_visitors`,
  `simple_transform`) and the extraction visitors (`cli_visitors`,
  `extractor`, `message_extractor`), which take source text: `parse` calls
  SWC's parser and walk behind a trusted wrapper whose result is named: it
  converts the nodes that extraction reads into the model and records where
  the walk enters and leaves them; verified code then puts them in visiting
  order. Hashing (`murmur3`, `base64`), regular
  expressions (`regex`) and relative paths (`pathdiff`) are called through
  small trusted wrappers whose contracts name (or, for Base64, state) what
  those crates compute.
- `app/` is the command line: it finds and reads the files, asks the file
  system for the project root, converts the trees that the transforms receive
  to the model and back, and writes JSON.
- `tests/` runs the library on concrete inputs.
