# osc

Tooling for the OSConfig management platform, as a Verus-verified library with a thin command
line around it.

The library (`src/`) holds the logic, each public function with a contract that Verus proves:

- `mim`, `schema_store`: MIM type schemas and the store of the components and objects that MIM
  files declare, with the queries over reported and desired settings.
- `prompt`: interactive entry of a setting's value from its schema, as a state machine that asks
  questions and builds a value that fits the schema.
- `testing`: module test definitions, their fixture, the routing of each step to the module
  that serves its component, and the summary of a run.
- `baseline`: security baselines and their audit checks.
- `registry`, `platform`: module manifests and the routing of requests to modules.
- `mpi`: requests to the platform daemon, framed as JSON, and its replies.
- `codegen`: the naming and dispatch decisions of the module code generator.
- `text`, `json`, `keyed`, `config`, `sample_module`, `module`, `cli`: helpers and data types.

Outside code is called through a few trusted wrappers whose contracts are stated in their doc
comments: `regex` (patterns), `serde_json` (reading and writing JSON), `libc` (error codes), and
from std `slice::sort`, `Path::extension` and `Duration::as_millis`.

The command line (`app/`) reads test definitions, loads modules as shared libraries, runs the
tests and prints the results. The order and stopping of the run, the routing of each step, the
outcome lines, messages and summary come from the library; `app/` adds the I/O and colours.
