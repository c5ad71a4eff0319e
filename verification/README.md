# sofka plugins

The logic of the sofka plugins as a verified library, and one program around it.

A plugin reads one request on standard input and writes one report on standard
output. In between it reads Kubernetes objects, runs a tool, or both.

| Plugin             | What it reports                                                    |
| ------------------ | ------------------------------------------------------------------ |
| `chaos-kill`       | How long a workload takes to recover from the loss of some pods.   |
| `deprecated-apis`  | apiVersions that pluto or kubent find deprecated or removed.       |
| `oha`              | The figures of an HTTP benchmark.                                  |
| `popeye`           | What popeye finds in a cluster, by linter.                         |
| `resource-summary` | Who and where the selected object is.                              |
| `trivy`            | What trivy finds in a cluster, by resource.                        |
| `velero`           | Backups, restores, schedules and storage locations.                |

## Layout

- `src/` is the library. What it decides, chooses, refuses and renders is stated
  in contracts and proved. It performs no input or output.
- `app/` is the program: processes, pipes, files, the WebAssembly runtime, the
  JSON forms of requests and tool output, and figures that are floating-point
  numbers.
- `tests/` runs the library.

## What is proved

Every contract gives the result for every input, error messages included. Beyond
that, public proof functions state what holds across functions, among them:

- A dry run deletes nothing, and shows the pods that a real run would delete.
- Whatever a guest asks its host for, the host deletes at most once, only pods it
  listed for the workload, and no more of them than the request allows.
- Pods are chosen by age and name alone, whatever the order of a listing.
- A report pays for every line out of one budget, and says so where lines were
  left out.
- A popeye report always fits. It keeps its summary, keeps errors ahead of
  findings, and says where something is missing.
- A host reads a request as its guest does, and does not refuse a guest that keeps
  to it.
- Velero is run only for a schedule of Velero's that is the one selected, and never
  where the request is unclear about a dry run.

What comes from `serde_json` and from the standard library is stated in a few
items of `src/json.rs`, `src/encoding.rs` and `src/text.rs`; their doc comments
say what is taken on trust.
