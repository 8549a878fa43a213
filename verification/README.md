# support_case

Support cases with idempotent commands, optimistic revisions, target-owned
authorization, exports and retention. The rules are verified with Verus; the
database, the clock and the capability clients stay outside.

- `src/` is the library. Every function states what it returns, and the public
  proof functions named `law_*` state what holds across functions.
  - `validate`, `text`, `decimal`, `identifiers`, `wire`, `cursor`: the forms of values.
  - `lifecycle`, `model`, `rows`: cases, messages and activities.
  - `command`, `transaction`, `retention`, `retention_run`: what is decided inside
    one database transaction, step by step.
  - `access`, `requests`, `service`, `intake`, `resource`, `privacy`, `tools`: the
    operations that callers see.
  - `database`, `runs`, `erasure`, `paging`: the laws.
  - `outside`: the calls into other crates, with what is believed of them.
- `app/` hosts the library on PostgreSQL and the capability clients: it performs
  the actions that the library asks for and reports back the events.
- `tests/` runs the library on concrete values.
