# brunhilde

An append-only event store. A database holds tables; a table holds rows,
and stamps each row it appends with the next of its event ids (1, 2, 3, ...).
Clients send requests over TCP, framed as a four-byte big-endian length and
an rkyv-encoded body.

Layout:

- `src/` is the verified library (Verus):
  - `row.rs`: rows before and after they are numbered;
  - `table.rs`: a table, its model, and appending single rows and batches;
  - `table_laws.rs`: what appending keeps and how batches relate to single
    appends, and that a table read back from its rows resumes where it was;
  - `request.rs`: requests, responses, and carrying out a write on a table;
  - `frame.rs`: the length header of a message, both ways;
  - `table_id.rs`: table ids and the names of table files (through `uuid`);
  - `sender.rs`: the trait through which connections ask for new tables.
- `app/` is the server around it: files, locks, connections, rkyv, `main`.
- `tests/` exercises the library.
