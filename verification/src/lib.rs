//! Verified core of a peer-to-peer network service: message framing, the
//! session and connection bookkeeping of the network layers, the reconnect
//! controller, module routing for received messages, and the transfer
//! behaviour's event queue.

pub mod address;
pub mod btree_order;
pub mod controller;
pub mod direct;
pub mod dispatch;
pub mod frame;
pub mod msg;
pub mod network;
pub mod protocol;
pub mod rpc_client;
pub mod seq_facts;
pub mod service;
pub mod transfer;
