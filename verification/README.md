# network_direct

A peer-to-peer network service for a chain node: modules register a message
handler over gRPC, messages to peers travel over TCP in length-prefixed
frames, and received messages are delivered to the handler of the module
they name.

- `src/` is the verified library (Verus). `frame` holds the frame format and
  its round-trip law; `direct` and `network` the session and connection
  tables of the two network variants as state machines from event to action
  (`btree_order` holds what the ordered-set specifications give for their
  ids);
  `controller` the reconnect controller; `dispatch` and `rpc_client` the
  routing of received messages to module handlers; `service` what the gRPC
  requests turn into; `protocol` and `transfer` the transfer protocol's
  message and the behaviour's event queue; `msg` the trusted calls into
  protobuf; `address` the addresses derived from hosts and ports.
- `app/` is the program around it: command line, configuration, sockets,
  gRPC servers and clients, tasks, and the libp2p trait impls. It performs
  the actions the library decides on.
- `tests/` exercises the library on concrete values.
