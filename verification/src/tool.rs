//! Tool protocol parameters.
//!
//! Tool listing supports an opaque pagination cursor; a tool call names the
//! tool and carries its arguments opaquely for the external handler.

use vstd::prelude::*;

use crate::json::{JsonSpec, JsonValue};

verus! {

/// The model of a `tools/list` request's parameters.
pub struct ToolsListSpec {
    /// The cursor to continue listing tools.
    pub cursor: Option<Seq<char>>,
}

/// A request to list tools.
#[derive(Debug)]
pub struct ToolsListRequest {
    /// The cursor to continue listing tools.
    pub cursor: Option<String>,
}

impl View for ToolsListRequest {
    type V = ToolsListSpec;

    open spec fn view(&self) -> ToolsListSpec {
        ToolsListSpec {
            cursor: match self.cursor {
                Some(s) => Some(s@),
                None => None,
            },
        }
    }
}

impl Default for ToolsListRequest {
    /// The parameters of a `tools/list` request whose `params` was absent.
    fn default() -> (r: Self)
        ensures
            r@.cursor is None,
    {
        ToolsListRequest { cursor: None }
    }
}

/// The model of a `tools/call` request's parameters.
pub struct ToolsCallSpec {
    /// The name of the tool to call.
    pub name: Seq<char>,
    /// The arguments to hand to the tool, carried opaquely.
    pub arguments: Option<JsonSpec>,
}

/// A request to call a tool.
#[derive(Debug)]
pub struct ToolsCallRequest {
    /// The name of the tool to call.
    pub name: String,
    /// The arguments to hand to the tool, carried opaquely.
    pub arguments: Option<JsonValue>,
}

impl View for ToolsCallRequest {
    type V = ToolsCallSpec;

    open spec fn view(&self) -> ToolsCallSpec {
        ToolsCallSpec {
            name: self.name@,
            arguments: match self.arguments {
                Some(v) => Some(v@),
                None => None,
            },
        }
    }
}

} // verus!
