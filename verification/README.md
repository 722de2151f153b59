# sdkwork_settings

Verified core of the SDKWork Settings configuration centre (user preferences,
tenant configuration, system settings), written in Verus.

- `src/routes.rs` – the route inventory of the API assembly, with proofs that
  every route demands the permission of its resource and that no two routes
  collide.
- `src/model.rs` – the records of the three tables.
- `src/statement.rs` – the SQL statements the service issues, their bound
  parameters, what each statement does to the tables and the change history
  (`apply_statement`), and what the database may answer (`statement_answers`,
  lists in any order).
- `src/tables.rs` – in-process tables that run a statement exactly as
  `apply_statement` says.
- `src/host.rs` – the service host: input checks, id and engine checks, the
  statement for each operation, and how a delete's answer is read.
- `src/laws.rs` – read-after-write, change-history, delete, list and
  key-uniqueness laws.
- `src/text.rs` – reading the snowflake node number from configuration text.
- `src/bootstrap.rs` – the database bootstrap sequence and the listen address.
- `src/clock.rs` – the wall clock (`std::time` and `chrono`), read without
  panicking: a clock before 1970 or past chrono's dates gives no instant.
- `app/` – the gateway process: environment, PostgreSQL execution through
  `sqlx`, database lifecycle and router assembly through the platform crates.
