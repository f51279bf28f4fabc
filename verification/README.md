# jin

Jin keeps developer- and tool-specific configuration in a separate, bare
Git repository (`~/.jin`, or `$JIN_DIR`), organised in nine layers of
precedence: global, mode, mode/scope, mode/scope/project, mode/project,
scope, project, user-local and the merged workspace.

The crate is written in Verus. The library under `src/` holds the rules of
the tool with their contracts proved:

- `model`: layers, their ref paths and precedence; the global
  configuration and project context; the layer map; the error type.
- `staging`: the staging index and the routing of files to layers.
- `commit`: the commit pipeline, file validation and audit records.
- `git`: tree entries and path grouping, merge types, the layer
  transaction and its recovery, and the texts of remote callbacks.
- `commands`: what each command decides and reports, from the facts it is
  given (`add`, `commit`, `reset`, `mode`, `scope`, `diff`, `log`,
  `status`, `layers`, `list`, `context`, `import`, `export`, `repair`,
  `link`, `fetch`, `pull`, `push`, and the configuration commands).
- `text`, `order`, `clock`: string handling, the order of names, and time
  formatting.

`app/` is the `jin` executable: it parses the command line, reads and
writes files, drives the Git repository through `git2`, and prints what
the library returns. `tests/` exercises the library on concrete values.

The merging of layers (the deep merge of JSON, YAML and TOML files and
the three-way merge of text) is not part of this crate. The commands
that rest on it are absent or stop early: there is no `apply` and no
`sync`; `pull` refuses layers whose histories diverge; `diff` of the
workspace against the merged layers reports an error; and
`repair --check` cannot validate that the workspace is attached to the
active context. As in the tool's command set, `mv`, `rm` and `resolve`
have library functions but no command of their own.

Two collections are kept as vectors with an invariant rather than as
std's hash collections: the names that `list` and `link` gather
(`NameSet`, a set view over a vector without repeats) and the layer map's
mappings (`LayerMappings`, a vector in which each ref occurs once). With
string keys, Verus proves next to nothing of a `HashMap` or `HashSet`,
so the invariant is stated on the vector instead.
