# rabbit_client

A RabbitMQ stream consumer that remembers how far it has read, with the logic
proved in Verus.

- `src/` is the verified library:
  - `codec` — big-endian encoding of offsets and the proofs that encoding and
    decoding undo each other;
  - `store` — the `sled` database seen as a map from byte keys to byte values
    (trusted declarations and wrappers);
  - `offset_tracker` — reading and writing the offset under a fixed key: a
    write is flushed, so it survives a crash; proofs that a read gives back what
    the last write stored and that a run of writes leaves only the last one;
  - `reading` — where a consumer starts, and what it does with each message
    (forward, report, stop after 100 000);
  - `text` — decimal numbers, message bodies, delivery texts;
  - `config` — the default settings and the AMQP address;
  - `error` — the error type.
- `app/` holds the programs (producers, consumers, the push mock): the network,
  the async tasks and the logging around the library.
- `tests/` runs the library on concrete values.
