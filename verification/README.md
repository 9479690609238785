# xds_client

A client for the delta variant of the aggregated discovery service. What a
response brings for a type of resources goes to the handler of the type; the
client remembers which resources it knows and who waits for which, answers every
response, and decides when to connect again.

The library makes the decisions and performs no input or output. Its contracts
are stated over mathematical models and proved with Verus.

| Module     | What it holds                                                     |
|------------|-------------------------------------------------------------------|
| `client`   | requests, answers, the reaction to what a connection brings       |
| `config`   | handlers and watches                                              |
| `demand`   | asking for resources on demand                                    |
| `handler`  | from a response to the handler of its type and back               |
| `message`  | the messages of the protocol                                      |
| `node`     | how the client names itself                                       |
| `outside`  | what is taken from `tokio` and `prost` without proof              |
| `resource` | keys, updates, rejections, errors                                 |
| `retry`    | what follows the end of a connection                              |
| `state`    | known resources and waiters                                       |
| `table`    | a finite map                                                      |
| `text`     | texts put together and searched                                   |

`app/` runs the client: it opens connections, spawns tasks, waits, reads the
process environment, and turns messages into bytes and back.

The functions whose names begin with `law_` state what holds of the library as a
whole.
