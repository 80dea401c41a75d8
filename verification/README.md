# mints_worker

An NFT mint worker that sits between RabbitMQ and NFTPort. It consumes mint
requests from a queue, mints each one through NFTPort's HTTP API, and
publishes the result back to the main service as a notification.

The decisions of the worker are a verified Verus library (`src/`):

- `mint`: the records exchanged with NFTPort and the main service, and the
  mint conversation as a state machine (`mint_start`, `mint_step`), with the
  proof that the conversation computes `mint_outcome`.
- `consumer`: the consumer of mint requests as a state machine
  (`consume_start`, `consume_step`), and the result notification and message.
- `producer`: publication to an exchange as a state machine
  (`produce_start`, `produce_step`) and the exchange kind an exchange type names.
- `settings`: the broker address.
- `json`: the JSON text of a string, as serde_json writes it.
- `text`: the text operations these rely on.

`app/` holds the actors, the broker and HTTP I/O and the serde forms of the
records; it performs each action the library decides and answers with the
matching event. `tests/` runs the library on concrete conversations.
