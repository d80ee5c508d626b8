# share_consumer

A verified library for share-group consumers (queue semantics on top of
Kafka topics): the acknowledgement dispositions and the typed share
configuration settings with their canonical names and case-insensitive
parsing, a client configuration map, the builder that writes the share
settings under their canonical keys, record batches, and a base consumer
whose runtime operations report that the broker protocol is not available.

Layout of `src/`:

- `text.rs`: ASCII case folding, string equality, decimal rendering.
- `acknowledge.rs`: `AcknowledgeType`, its parser and parse error.
- `client.rs`: `ClientConfig` (properties by name) and the client traits.
- `config.rs`: the share setting enums and `ShareConsumerConfig`.
- `records.rs`: `ShareRecord` and `ShareConsumerRecords`.
- `context.rs`, `consumer.rs`: the context trait and the base consumer.
- `error.rs`, `util.rs`: `KafkaError` and `Timeout`.
