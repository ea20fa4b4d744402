# cache

A cache database for a media client: view payloads and artwork under byte
budgets, and the play history.

* `src/` decides. Every operation is a state machine that names the SQL statement
  it wants next and is fed the database's answer. Its functions carry contracts
  that Verus proves; `src/model.rs` states what the statements mean to the tables,
  and `src/laws/` proves what follows for the cache as a whole: what a read gives
  back, which rows are evicted and when, that the live byte totals stay exact, and
  that the play history outlives every change of the schema.
* `app/` performs. It owns the `turso` connection, behind a mutex, and hands the
  answers to the state machines.
* `tests/` runs both the decisions by themselves and the state machines on a real,
  ephemeral database.
