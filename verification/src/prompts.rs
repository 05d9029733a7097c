//! Prompt protocol parameters.
//!
//! Prompt listing supports an opaque pagination cursor; fetching a prompt
//! names it and carries its arguments opaquely for the external handler.

use vstd::prelude::*;

use crate::json::{JsonSpec, JsonValue};

verus! {

/// The model of a `prompts/list` request's parameters.
pub struct PromptsListSpec {
    /// The cursor to continue listing prompts.
    pub cursor: Option<Seq<char>>,
}

/// A request to list prompts.
#[derive(Debug)]
pub struct PromptsListRequest {
    /// The cursor to continue listing prompts.
    pub cursor: Option<String>,
}

impl View for PromptsListRequest {
    type V = PromptsListSpec;

    open spec fn view(&self) -> PromptsListSpec {
        PromptsListSpec {
            cursor: match self.cursor {
                Some(s) => Some(s@),
                None => None,
            },
        }
    }
}

impl Default for PromptsListRequest {
    /// The parameters of a `prompts/list` request whose `params` was absent.
    fn default() -> (r: Self)
        ensures
            r@.cursor is None,
    {
        PromptsListRequest { cursor: None }
    }
}

/// The model of a `prompts/get` request's parameters.
pub struct PromptsGetSpec {
    /// The name of the prompt to fetch.
    pub name: Seq<char>,
    /// The arguments to render the prompt with, carried opaquely.
    pub arguments: Option<JsonSpec>,
}

/// A request to fetch a prompt.
#[derive(Debug)]
pub struct PromptsGetRequest {
    /// The name of the prompt to fetch.
    pub name: String,
    /// The arguments to render the prompt with, carried opaquely.
    pub arguments: Option<JsonValue>,
}

impl View for PromptsGetRequest {
    type V = PromptsGetSpec;

    open spec fn view(&self) -> PromptsGetSpec {
        PromptsGetSpec {
            name: self.name@,
            arguments: match self.arguments {
                Some(v) => Some(v@),
                None => None,
            },
        }
    }
}

} // verus!
