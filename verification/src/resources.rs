//! Resource protocol.

use vstd::prelude::*;

verus! {

/// The model of a `resources/list` request's parameters.
pub struct ResourcesListSpec {
    /// The cursor to continue listing resources.
    pub cursor: Option<Seq<char>>,
}

/// A request to list resources.
#[derive(Debug)]
pub struct ResourcesListRequest {
    /// The cursor to continue listing resources.
    pub cursor: Option<String>,
}

impl View for ResourcesListRequest {
    type V = ResourcesListSpec;

    open spec fn view(&self) -> ResourcesListSpec {
        ResourcesListSpec {
            cursor: match self.cursor {
                Some(s) => Some(s@),
                None => None,
            },
        }
    }
}

impl Default for ResourcesListRequest {
    /// The parameters of a `resources/list` request whose `params` was absent.
    fn default() -> (r: Self)
        ensures
            r@.cursor is None,
    {
        ResourcesListRequest { cursor: None }
    }
}

/// The model of a `resources/templates/list` request's parameters.
pub struct ResourcesTemplatesListSpec {
    /// The cursor to continue listing resource templates.
    pub cursor: Option<Seq<char>>,
}

/// A request to list resource templates.
#[derive(Debug)]
pub struct ResourcesTemplatesListRequest {
    /// The cursor to continue listing resource templates.
    pub cursor: Option<String>,
}

impl View for ResourcesTemplatesListRequest {
    type V = ResourcesTemplatesListSpec;

    open spec fn view(&self) -> ResourcesTemplatesListSpec {
        ResourcesTemplatesListSpec {
            cursor: match self.cursor {
                Some(s) => Some(s@),
                None => None,
            },
        }
    }
}

impl Default for ResourcesTemplatesListRequest {
    /// The parameters of a request whose `params` was absent.
    fn default() -> (r: Self)
        ensures
            r@.cursor is None,
    {
        ResourcesTemplatesListRequest { cursor: None }
    }
}

/// The model of a `resources/read` request's parameters.
pub struct ResourcesReadSpec {
    /// The uri of the resource.
    pub uri: Seq<char>,
}

/// A request to read a resource.
#[derive(Debug)]
pub struct ResourcesReadRequest {
    /// The uri of the resource.
    pub uri: String,
}

impl View for ResourcesReadRequest {
    type V = ResourcesReadSpec;

    open spec fn view(&self) -> ResourcesReadSpec {
        ResourcesReadSpec { uri: self.uri@ }
    }
}

/// Resource information.
#[derive(Debug, Clone)]
pub struct Resource {
    /// The uri of the resource.
    pub uri: String,
    /// The name of the resource.
    pub name: String,
    /// The description of the resource.
    pub description: String,
    /// The mime type of the resource.
    pub mime_type: String,
}

/// Resource content.
#[derive(Debug, Clone)]
pub struct ResourceContent {
    /// The uri of the resource.
    pub uri: String,
    /// The mime type of the resource.
    pub mime_type: String,
    /// Text content, if any.
    pub text: Option<String>,
    /// Base64-encoded binary content, if any.
    pub blob: Option<String>,
}

/// A response to a `resources/list` request.
#[derive(Debug)]
pub struct ResourcesListResponse {
    /// Resources list.
    pub resources: Vec<Resource>,
}

/// Resource template information.
#[derive(Debug, Clone)]
pub struct ResourceTemplate {
    /// The URI template of the resource.
    pub uri_template: String,
    /// The display name of the resource template.
    pub name: String,
    /// A short description of the template.
    pub description: String,
    /// The mime type of the resource represented by the template.
    pub mime_type: String,
}

/// A response to a `resources/templates/list` request.
#[derive(Debug)]
pub struct ResourcesTemplatesListResponse {
    /// Resource templates list.
    pub resource_templates: Vec<ResourceTemplate>,
}

/// A response to a `resources/read` request.
#[derive(Debug)]
pub struct ResourcesReadResponse {
    /// Resources contents.
    pub contents: Vec<ResourceContent>,
}

} // verus!
