//! The body that every endpoint answers with.

use vstd::prelude::*;

verus! {

/// Whether a request was served.
#[derive(Clone, Copy, Debug, PartialEq, Eq, Structural)]
pub enum APIStatus {
    Success,
    Error,
}

/// An endpoint's answer: the status, and either the value asked for or the
/// reason it could not be given.
#[derive(Debug)]
pub struct APIResponse {
    pub status: APIStatus,
    pub result: String,
}

/// What an [`APIResponse`] holds, with its text as a character sequence.
pub struct APIResponseView {
    pub status: APIStatus,
    pub result: Seq<char>,
}

impl View for APIResponse {
    type V = APIResponseView;

    open spec fn view(&self) -> APIResponseView {
        APIResponseView { status: self.status, result: self.result@ }
    }
}

impl Clone for APIResponse {
    fn clone(&self) -> (copy: Self)
        ensures
            copy == *self,
    {
        APIResponse { status: self.status, result: self.result.clone() }
    }
}

} // verus!
