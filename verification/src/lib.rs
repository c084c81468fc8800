//! Verified uSubscription messages: the client's and the server's view of the same wire format.
//!
//! [`client`] makes the invocations of the service's operations and reads the replies. [`server`]
//! reads the requests and makes the responses. [`laws`] states what holds between the two,
//! [`operation_laws`] what each operation does, and [`field_laws`] what each field of a message is
//! for.

pub mod client;
pub mod communication;
pub mod field_laws;
pub mod laws;
pub mod message;
pub mod operation_laws;
pub mod proto;
pub mod server;
pub mod status;
pub mod time;
pub mod timestamp;
pub mod uri;
pub mod usubscription;
pub mod wire;
