# usubscription

A verified library for the messages of the uProtocol uSubscription service, written in Rust with
[Verus](https://github.com/verus-lang/verus).

A client makes the invocations of the service's operations and reads the replies
(`src/client.rs`). A server reads the requests that it gets and makes its responses
(`src/server.rs`). Both speak the protobuf wire format (`src/wire.rs`, `src/message.rs`,
`src/proto.rs`), which stays hidden behind addresses (`src/uri.rs`), times (`src/timestamp.rs`,
`src/time.rs`) and plain requests, responses and subscriptions.

Every public function states in its contract what it returns, byte for byte where it writes and error by
error where it refuses. `src/laws.rs` holds what follows for the two sides together, such as that
a server reads from a request what the client was asked for.

Single items of the wire format are read and written with the `protobuf` crate, and dates and
spans of time are checked and split with the `chrono` crate. The functions that make those calls
are marked as trusted in their documentation, which says what is believed of them.

`app/` holds what awaits: a client on top of any RPC client, and a small service.
