# colette_repository

The storage layer of a feed reader, as a Verus library whose behaviour is
stated in contracts and proved.

- `src/schema.rs`: the tables and columns, with their SQL names.
- `src/plan.rs`: statements as data (select, insert, update, delete plans) and
  their mathematical views.
- `src/query/`: the statement of every repository operation, built from its
  parameters; each builder's contract gives the exact plan.
- `src/filter.rs` and `src/query/condition.rs`: user filters over bookmarks
  and entries, as SQL text and as plan conditions.
- `src/import.rs`: the step plans of OPML and Netscape imports, with the law
  that every tag a step links to was found by an earlier step.
- `src/columns.rs`, `src/args.rs`, `src/d1.rs`, `src/rows.rs`,
  `src/outcome.rs`, `src/relations.rs`: what the repositories bind to their
  statements, how they shape the rows they read, and what they decide from
  what the database reports.
- `src/time.rs`: instants in UTC and their text, as chrono gives it.
- `app/`: the plans as sea-query statements, numeric filters, and the job
  queues.
