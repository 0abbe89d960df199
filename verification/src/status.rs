use vstd::prelude::*;

verus! {

/// The HTTP outcomes the service can report.
///
/// `BadRequest` stands for a request-format error: a body that could not be
/// read as the expected JSON object, or a path identifier that could not be
/// parsed. `InternalServerError` stands for any storage failure; no further
/// detail is exposed to the caller.
#[derive(Clone, Copy, Debug, PartialEq, Eq, Structural)]
pub enum Status {
    Success,
    Created,
    BadRequest,
    NotFound,
    InternalServerError,
}

impl Status {
    /// The numeric HTTP status code of this outcome.
    pub open spec fn spec_code(self) -> u16 {
        match self {
            Status::Success => 200,
            Status::Created => 201,
            Status::BadRequest => 400,
            Status::NotFound => 404,
            Status::InternalServerError => 500,
        }
    }

    /// The numeric HTTP status code, for the layer that writes responses.
    pub fn code(&self) -> (c: u16)
        ensures
            c == self.spec_code(),
    {
        match self {
            Status::Success => 200,
            Status::Created => 201,
            Status::BadRequest => 400,
            Status::NotFound => 404,
            Status::InternalServerError => 500,
        }
    }
}

} // verus!
