//! The plain form of an HTTP response.

use vstd::prelude::*;

verus! {

/// A response: status, the content type and the cache directive where it has
/// them, and body.
#[derive(Debug, Clone, PartialEq, Eq)]
pub struct Response {
    pub status: u16,
    pub content_type: Option<String>,
    pub cache_control: Option<String>,
    pub body: Vec<u8>,
}

/// A response as values.
pub struct ResponseView {
    pub status: u16,
    pub content_type: Option<Seq<char>>,
    pub cache_control: Option<Seq<char>>,
    pub body: Seq<u8>,
}

impl View for Response {
    type V = ResponseView;

    open spec fn view(&self) -> ResponseView {
        ResponseView {
            status: self.status,
            content_type: self.content_type.deep_view(),
            cache_control: self.cache_control.deep_view(),
            body: self.body@,
        }
    }
}

} // verus!
