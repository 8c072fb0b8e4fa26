# rkv

A key/value service library, verified with Verus.

- `src/` is the library. Requests (`rpc`) are validated into commands (`cmd`); bucket
  names are checked by checkers (`bucket::checker`) and may be folded into keys
  (`bucket::prefix`, `bucket::svc`); stores answer the commands (`internal`): a flat store
  checked by a checker (`internal::btree`), bucket-level stores (`internal::kvcore`,
  `internal::bucket`), and the decisions of a redis-backed service (`external`). Refusals
  are `status::Status` values with gRPC codes.
- `app/` is the gRPC side: the async service trait, tonic conversions and the clock, the
  store shared behind a lock, the virtual-bucket service and the redis connection.
- `tests/` runs the library on concrete values.
