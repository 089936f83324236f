# dunno

Coding knowledge (mistakes, style rules, security notes and free-form
entries) kept in a graph store, next to the structure of a project: projects,
modules, submodules, files, tasks, user stories, epics, personas, workflows,
todo items and issues.

The library under `src/` is written in Verus; every function in it is
verified against its contract.

- `cli`, `dn_args`, `args`: the command-line grammars of `dn` and `dunno`,
  and a parser whose result is specified against the grammar.
- `config`: the layered configuration (defaults, global file, local file,
  environment, command line) and its reports.
- `connect`: how to open the store a configuration names.
- `runner`, `dunno_cli`: what each command asks the store, step by step, and
  what it prints.
- `store`: the queries and relations of the store's operations, and the
  fields of the records they create and update.
- `hierarchy`, `ingest`, `context`, `graph`: resolving the structure above a
  record, linking knowledge to it, gathering knowledge along it, and the
  graph of the whole store.
- `api`: the routes of the HTTP interface and the serving of its assets.
- `json`, `text`, `records`, `models`, `rules`: documents, strings, record
  ids, statuses and the checks made before writing.

`app/` is the program around the library: it reads the command line, the
configuration files and the environment, talks to SurrealDB, and carries out
the operations the library decides on. Run as `dunno` it takes the `dunno`
command line; as `dn-server` it serves the HTTP interface (the routes the
library dispatches, and the browser interface's files from `static/dist/`);
under any other name, the `dn` command line.
