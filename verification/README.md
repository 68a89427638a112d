# atelia-core

The core of the Secretary runtime, verified with Verus.

The Secretary accepts jobs, lets a policy decide on each of them before a tool runs,
runs the tool, and writes every step to a ledger that can be replayed. This crate holds
the rules of that work as plain, sequential Rust with contracts:

| Modules | What they hold |
| --- | --- |
| `text`, `text_map`, `table`, `checks`, `record`, `ids` | text, ordered maps, tables, ordered checks, identifiers |
| `domain` | the records of the ledger, the states of a job |
| `store_model`, `store`, `store_laws` | the store: creation, conflicts, queries, paging and replay |
| `policy`, `capabilities` | the built-in policy and the names of capabilities |
| `requests`, `job_run`, `runtime`, `job_lifecycle`, `runtime_laws`, `failure_laws` | job requests, their runs, and why they fail |
| `tool_output`, `truncation`, `output_handling` | results of tools, and how they are made to fit |
| `settings`, `settings_service`, `settings_laws`, `feedback` | layered settings of tool output, and feedback on them |
| `artifacts`, `expiry`, `spillover`, `artifact_laws` | names, indices and expiry of artifacts; moving large fields into them |
| `extensions` and below | manifests, their validation, and the registry with its blocklist and rollback |

## Reading the contracts

A type `T` has a ghost counterpart `TModel`, given by its deep view; `x@` is the same
value. An `ensures` says what a call returns and changes in terms of models, and names
the error for every input that is turned down. Where several checks are made in turn,
the contract gives them as one value of type `Option<Error>`: the first objection.

Laws are public proof functions named `law_..`. Each relates several calls: that a
replay resumes where it was left, that a rollback undoes an update, that a blocked
repository runs no tool.

## What is trusted

Five items rest on code that is not verified here, and each says so where it stands:
`String::push` and the quoted form of a text in `text`, the making and the reading of
UUIDs in `ids`, and the system clock in `domain`. A renderer, a policy engine, a tool or
an artifact store that is plugged in may answer anything; the contracts fix what it is
handed and what is done with its answer.

## Layout

- `src/` is the verified library.
- `tests/` runs it.
- `app/` is ordinary Rust around it: serialized forms of the library's types, and
  artifact stores in directories.
