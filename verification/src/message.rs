//! The message that travels between the components of the system.

use crate::integrations::unique_id::random_id;
use std::collections::HashMap;
use vstd::prelude::*;

verus! {

/// The length of the identifier that `Message::new` draws.
pub const ID_LENGTH: usize = 36;

/// A payload with its headers, under an identifier.
#[derive(Debug)]
pub struct Message {
    pub id: String,
    pub headers: HashMap<String, String>,
    pub payload: Vec<u8>,
}

impl Message {
    /// A message under the identifier that the caller provides.
    pub fn with_id(id: String, headers: HashMap<String, String>, payload: Vec<u8>) -> (r: Self)
        ensures
            r == (Message { id, headers, payload }),
    {
        Message { id, headers, payload }
    }

    /// A message under a fresh random identifier of `ID_LENGTH` characters.
    /// Headers and payload are carried over as they are.
    pub fn new(headers: HashMap<String, String>, payload: Vec<u8>) -> (r: Self)
        ensures
            r.id@.len() == ID_LENGTH,
            r.headers == headers,
            r.payload == payload,
    {
        Message::with_id(random_id(), headers, payload)
    }
}

} // verus!
