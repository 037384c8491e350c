# acktor

The verified core of an actor framework built on top of tokio, written in Verus.

`src/` is the library, verified by Verus. It calls tokio, prost and bytes through small
wrappers (marked `#[verifier::external_body]`) whose contracts state what those crates' sources
show; where the outcome of a call depends on the other ends of a channel (whether a queue is
full, closed or empty), the wrapper promises only what holds of every outcome, and the functions
around it say what they do with each.

- `actor`: actor lifecycle states, their byte codes and transitions, the context trait, and the
  steps of an actor's run that decide its state and the error its supervisor is told of.
- `supervisor`: supervision events, and what notifying a supervisor without waiting does (send
  the event, or log it when there is no supervisor).
- `index`: actor ids, their text form, and the allocator of fresh local ids.
- `errors`, `codec`: send, receive, encode and decode errors, error reports, the reply to a
  remote request, the wire form of an actor index (protobuf `UInt64Value`, through prost), and
  encoding and decoding addresses through the encode and decode contexts.
- `channel`, `address`: receivers, mailboxes, the address of a local actor with its immediate
  sends, the address of a remote actor with its synchronous sends through the proxy of its
  session, the `Sender` trait, `Recipient`, and the channel-backed recipient.
- `drain`: the mailbox drain policies.
- `envelope`, `message`: messages, encoded messages, packing messages into envelopes and taking
  them back out, and the default envelope proxy.
- `utils`, `report_impl`: short type names, the pass-through hasher and error reporting.

`app/` holds what the verifier does not take: the asynchronous and blocking receive and send
operations, error types with `Display` and `std::error::Error`, the process-wide id allocator,
type names from `std::any::type_name`, hashing helpers and the `report!` macro.
