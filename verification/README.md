# evidence_store

A verified core for a small evidence service built on a CITA blockchain node.
Users upload a piece of evidence signed with HMAC-SHA256; the service stores the
signed message as the code of a transaction and later reads it back from the
transaction's payload.

- `src/` is the library, verified with Verus: message layout, decimal
  timestamps, hexadecimal payload codes, signature verification, reading the
  evidence back from a payload, reading node replies, and the decisions of the
  upload, query and transfer flows.
- `app/` is the HTTP front end (actix-web, diesel, the CITA client, key
  material). It looks users up, sends and fetches transactions, and hands the
  results to the library.
- `tests/` runs the library on concrete values.
