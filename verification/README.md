# kafka_basics_rust

A small library for learning Kafka's day-one mechanics around one `orders`
topic: keyed JSON order events, producing and consuming them, committing
offsets, and creating, describing and deleting topics.

## Layout

- `src/` is the verified library. Every decision that the clients take is
  here, stated in `requires`/`ensures` contracts and proved by Verus:
  - `config.rs`: the application configuration and the librdkafka client
    configurations derived from it (`client_config.rs` holds the trusted
    description of `rdkafka::config::ClientConfig`).
  - `order_event.rs`: the order event model and the sample events.
  - `producer.rs`: sample records and `ProduceSession`, which sends a batch
    record by record and stops at the first failure.
  - `consumer.rs`: `CollectSession`, which receives, decodes, parses and
    commits up to a given number of messages, and the count check of `consume_n`.
  - `topic_admin.rs`: `CreateSession` for the broker's answers to a create
    request, the delete check, and the description of a topic from the
    cluster metadata.
  - `observability.rs`: the choice of log format.
  - `text.rs`: decimal rendering of integers.
- `app/` performs what the sessions ask for: it reads the configuration file,
  talks to the broker with rdkafka and tokio, (de)serializes JSON with serde,
  and installs the tracing subscriber.
- `tests/` runs the library on concrete values.

The amount of an order is a floating-point number. The library carries it as
its IEEE 754 bit pattern and never computes with it; `app/` converts it.
