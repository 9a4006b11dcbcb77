//! Stateless validation of a parachain block: the block is replayed against
//! the witness that it carries, which stands in for the node's storage for
//! the duration of one call.

pub mod witness;
pub mod adapter;
pub mod bindings;
pub mod codec;
pub mod validator;
