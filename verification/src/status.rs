use vstd::prelude::*;

verus! {

/// An HTTP status code: a number from 100 to 999.
#[derive(Clone, Copy, Debug)]
pub struct StatusCode {
    code: u16,
}

/// The failure of [`StatusCode::from_u16`]: the number is outside 100..=999.
#[derive(Clone, Copy, Debug)]
pub struct InvalidStatusCode {}

/// Whether `code` is a number that a status line can carry.
pub open spec fn is_status_code(code: int) -> bool {
    100 <= code <= 999
}

impl View for StatusCode {
    type V = int;

    closed spec fn view(&self) -> int {
        self.code as int
    }
}

impl StatusCode {
    #[verifier::type_invariant]
    spec fn in_range(self) -> bool {
        is_status_code(self.code as int)
    }

    /// Checks `code` and wraps it.
    pub fn from_u16(code: u16) -> (r: Result<StatusCode, InvalidStatusCode>)
        ensures
            r is Ok <==> is_status_code(code as int),
            r matches Ok(s) ==> s@ == code,
    {
        if 100 <= code && code <= 999 {
            Ok(StatusCode { code })
        } else {
            Err(InvalidStatusCode {})
        }
    }

    /// 200 OK.
    pub fn ok() -> (r: StatusCode)
        ensures
            r@ == 200,
    {
        StatusCode { code: 200 }
    }

    /// 400 Bad Request.
    pub fn bad_request() -> (r: StatusCode)
        ensures
            r@ == 400,
    {
        StatusCode { code: 400 }
    }

    /// 401 Unauthorized.
    pub fn unauthorized() -> (r: StatusCode)
        ensures
            r@ == 401,
    {
        StatusCode { code: 401 }
    }

    /// 403 Forbidden.
    pub fn forbidden() -> (r: StatusCode)
        ensures
            r@ == 403,
    {
        StatusCode { code: 403 }
    }

    /// 404 Not Found.
    pub fn not_found() -> (r: StatusCode)
        ensures
            r@ == 404,
    {
        StatusCode { code: 404 }
    }

    /// 500 Internal Server Error.
    pub fn internal_server_error() -> (r: StatusCode)
        ensures
            r@ == 500,
    {
        StatusCode { code: 500 }
    }

    /// The code as a number.
    pub fn as_u16(&self) -> (code: u16)
        ensures
            code == self@,
            is_status_code(code as int),
    {
        proof {
            use_type_invariant(self);
        }
        self.code
    }
}

} // verus!
