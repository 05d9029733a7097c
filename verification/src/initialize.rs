//! Initialization protocol parameters.
//!
//! The handler that answers `initialize` is an external collaborator; this
//! layer only carries its parameters through, so the fields are lenient.

use vstd::prelude::*;

use crate::json::{JsonSpec, JsonValue};

verus! {

/// The model of an `initialize` request's parameters.
pub struct InitializeSpec {
    /// The protocol version the client speaks, if it named one.
    pub protocol_version: Option<Seq<char>>,
    /// The capabilities the client announced, carried opaquely.
    pub capabilities: Option<JsonSpec>,
    /// The client implementation info, carried opaquely.
    pub client_info: Option<JsonSpec>,
}

/// A request to initialize the session.
#[derive(Debug)]
pub struct InitializeRequest {
    /// The protocol version the client speaks, if it named one.
    pub protocol_version: Option<String>,
    /// The capabilities the client announced, carried opaquely.
    pub capabilities: Option<JsonValue>,
    /// The client implementation info, carried opaquely.
    pub client_info: Option<JsonValue>,
}

impl View for InitializeRequest {
    type V = InitializeSpec;

    open spec fn view(&self) -> InitializeSpec {
        InitializeSpec {
            protocol_version: match self.protocol_version {
                Some(s) => Some(s@),
                None => None,
            },
            capabilities: match self.capabilities {
                Some(v) => Some(v@),
                None => None,
            },
            client_info: match self.client_info {
                Some(v) => Some(v@),
                None => None,
            },
        }
    }
}

} // verus!
