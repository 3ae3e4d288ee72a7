use vstd::prelude::*;

verus! {

/// The closed set of failure kinds this layer produces. `NotFound` reports a
/// query that expected at least one row and got none; `DBError` covers every
/// other store failure; `InvalidInput` reports a payload rejected before it
/// reached the repositories. Each kind carries only a human-readable message.
#[derive(Debug)]
pub enum MyError {
    DBError(String),
    NotFound(String),
    InvalidInput(String),
}

impl MyError {
    pub open spec fn spec_status_code(&self) -> u16 {
        match self {
            MyError::DBError(_) => 500u16,
            MyError::NotFound(_) => 404u16,
            MyError::InvalidInput(_) => 400u16,
        }
    }

    pub open spec fn spec_message(&self) -> Seq<char> {
        match self {
            MyError::DBError(m) => m@,
            MyError::NotFound(m) => m@,
            MyError::InvalidInput(m) => m@,
        }
    }

    /// Transport status for each kind: NotFound maps to 404, InvalidInput to
    /// 400, DBError to 500.
    pub fn status_code(&self) -> (code: u16)
        ensures
            code == self.spec_status_code(),
    {
        match self {
            MyError::DBError(_) => 500,
            MyError::NotFound(_) => 404,
            MyError::InvalidInput(_) => 400,
        }
    }

    /// The human-readable message the error carries.
    pub fn message(&self) -> (msg: &String)
        ensures
            msg@ == self.spec_message(),
    {
        match self {
            MyError::DBError(m) => m,
            MyError::NotFound(m) => m,
            MyError::InvalidInput(m) => m,
        }
    }
}

} // verus!
