use vstd::prelude::*;

verus! {

/// The unit exchanged in both directions: a text or a binary payload.
#[derive(Debug, Clone)]
pub enum SocketMessage {
    Text(String),
    Binary(Vec<u8>),
}

} // verus!
