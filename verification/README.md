# kleos

Validated domain types, type-state events and the decision logic of an
event pipeline (HTTP ingestion -> Kinesis stream -> processing), verified
with Verus.

- `src/` is the verified library:
  - `types/`: text and numbers that are valid by construction
    (`String100`, `String1000`, `NonNegativeInt`, `PositiveInt`), ids
    (`RequestId`, `StreamRecordId`, `PartitionKey`) and the stream events.
  - `pipeline/`: `Event<T, S>`, whose state `S` (`Created` or `Consumed`)
    says what may be done with it, its `Metadata`, and the pipeline's errors.
  - `ingest/`, `process/`, `stream_consumer.rs`, `api_producer.rs`: the logic
    of the four services: validation, the batch queue, what each request or
    batch is answered, and how outcomes are counted.
  - `text.rs`, `clock.rs`, `foreign.rs`: trimming, number spelling, the clock,
    and the outside types the library carries.
- `app/` holds what Verus does not check: the async interfaces, the JSON
  forms of the values, and the Lambda functions that connect the library to
  API Gateway and Kinesis.
- `tests/` runs the library on concrete values.
