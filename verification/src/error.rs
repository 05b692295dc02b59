//! The error model of the request pipeline, the text each error reads as,
//! and the HTTP status that each error is answered with.

use vstd::prelude::*;
use vstd::string::StringExecFns;

verus! {

/// Result of a pipeline stage.
pub type PipelineResult<T> = Result<T, PipelineError>;

/// Everything that can stop a request on its way through the pipeline.
#[derive(Debug, Clone, PartialEq, Eq)]
pub enum PipelineError {
    MissingToken,
    InvalidToken,
    Forbidden,
    Validation(String),
    WeakPassword(u8, String),
    ParseError(String),
    Conflict(String),
    NotFound(String),
    Database(String),
    Internal(String),
}

/// A `PipelineError` with its texts taken as character sequences.
pub enum PipelineErrorView {
    MissingToken,
    InvalidToken,
    Forbidden,
    Validation(Seq<char>),
    WeakPassword(u8, Seq<char>),
    ParseError(Seq<char>),
    Conflict(Seq<char>),
    NotFound(Seq<char>),
    Database(Seq<char>),
    Internal(Seq<char>),
}

impl View for PipelineError {
    type V = PipelineErrorView;

    open spec fn view(&self) -> PipelineErrorView {
        match self {
            PipelineError::MissingToken => PipelineErrorView::MissingToken,
            PipelineError::InvalidToken => PipelineErrorView::InvalidToken,
            PipelineError::Forbidden => PipelineErrorView::Forbidden,
            PipelineError::Validation(s) => PipelineErrorView::Validation(s@),
            PipelineError::WeakPassword(n, s) => PipelineErrorView::WeakPassword(*n, s@),
            PipelineError::ParseError(s) => PipelineErrorView::ParseError(s@),
            PipelineError::Conflict(s) => PipelineErrorView::Conflict(s@),
            PipelineError::NotFound(s) => PipelineErrorView::NotFound(s@),
            PipelineError::Database(s) => PipelineErrorView::Database(s@),
            PipelineError::Internal(s) => PipelineErrorView::Internal(s@),
        }
    }
}

/// A pipeline result with its payload and error taken by their views.
pub open spec fn result_view<T: View>(r: PipelineResult<T>) -> Result<T::V, PipelineErrorView> {
    match r {
        Ok(t) => Ok(t@),
        Err(e) => Err(e@),
    }
}

/// The decimal digit character for `d < 10`.
pub open spec fn digit_char(d: nat) -> char {
    ((48 + d) as u32) as char
}

/// Decimal notation of `n`, most significant digit first, no leading zeros.
pub open spec fn decimal(n: nat) -> Seq<char>
    decreases n,
{
    if n < 10 {
        seq![digit_char(n)]
    } else {
        decimal(n / 10).push(digit_char(n % 10))
    }
}

/// The text that an error reads as.
pub open spec fn error_message(e: PipelineErrorView) -> Seq<char> {
    match e {
        PipelineErrorView::MissingToken => "missing or malformed Authorization header"@,
        PipelineErrorView::InvalidToken => "JWT is invalid or expired"@,
        PipelineErrorView::Forbidden => "insufficient permissions"@,
        PipelineErrorView::Validation(s) => "validation failed: "@ + s,
        PipelineErrorView::WeakPassword(n, s) => "password too weak (score "@ + decimal(
            n as nat,
        ) + "/4): "@ + s,
        PipelineErrorView::ParseError(s) => "parse error: "@ + s,
        PipelineErrorView::Conflict(s) => "conflict: "@ + s,
        PipelineErrorView::NotFound(s) => "not found: "@ + s,
        PipelineErrorView::Database(s) => "database error: "@ + s,
        PipelineErrorView::Internal(s) => "internal error: "@ + s,
    }
}

/// The HTTP status code that answers a request stopped by `e`.
pub open spec fn error_status(e: PipelineErrorView) -> u16 {
    match e {
        PipelineErrorView::MissingToken | PipelineErrorView::InvalidToken => 401,
        PipelineErrorView::Forbidden => 403,
        PipelineErrorView::Validation(_)
        | PipelineErrorView::WeakPassword(_, _)
        | PipelineErrorView::ParseError(_) => 422,
        PipelineErrorView::Conflict(_) => 409,
        PipelineErrorView::NotFound(_) => 404,
        PipelineErrorView::Database(_) | PipelineErrorView::Internal(_) => 500,
    }
}

/// Whether an error is a server-side fault whose details are not shown to clients.
pub open spec fn is_server_fault(e: PipelineErrorView) -> bool {
    e is Database || e is Internal
}

/// The text that a client is shown for `e`.
pub open spec fn public_message(e: PipelineErrorView) -> Seq<char> {
    if is_server_fault(e) {
        "an unexpected error occurred"@
    } else {
        error_message(e)
    }
}

/// The errors whose details are withheld from clients are exactly those
/// answered with status 500, and for them the client sees one fixed text.
pub proof fn lemma_hidden_iff_server_error(e: PipelineErrorView)
    ensures
        is_server_fault(e) <==> error_status(e) == 500,
        is_server_fault(e) ==> public_message(e) == "an unexpected error occurred"@,
        !is_server_fault(e) ==> public_message(e) == error_message(e),
{
}

/// Whether a route may go on: one that requires authentication stops with
/// `MissingToken` when the request carries no `Authorization` header.
pub fn auth_gate(require_auth: bool, has_authorization: bool) -> (r: Option<PipelineError>)
    ensures
        r is Some <==> (require_auth && !has_authorization),
        r matches Some(e) ==> e@ == PipelineErrorView::MissingToken,
{
    if require_auth && !has_authorization {
        Some(PipelineError::MissingToken)
    } else {
        None
    }
}

fn digit_str(d: u8) -> (r: &'static str)
    requires
        d < 10,
    ensures
        r@ == seq![digit_char(d as nat)],
{
    proof {
        reveal_strlit("0");
        reveal_strlit("1");
        reveal_strlit("2");
        reveal_strlit("3");
        reveal_strlit("4");
        reveal_strlit("5");
        reveal_strlit("6");
        reveal_strlit("7");
        reveal_strlit("8");
        reveal_strlit("9");
    }
    if d == 0 {
        "0"
    } else if d == 1 {
        "1"
    } else if d == 2 {
        "2"
    } else if d == 3 {
        "3"
    } else if d == 4 {
        "4"
    } else if d == 5 {
        "5"
    } else if d == 6 {
        "6"
    } else if d == 7 {
        "7"
    } else if d == 8 {
        "8"
    } else {
        "9"
    }
}

/// Decimal notation of a byte.
pub fn u8_decimal(n: u8) -> (r: String)
    ensures
        r@ == decimal(n as nat),
{
    let mut r = String::new();
    if n >= 100 {
        r.append(digit_str(n / 100));
    }
    if n >= 10 {
        r.append(digit_str((n / 10) % 10));
    }
    r.append(digit_str(n % 10));
    proof {
        let k = n as nat;
        if k >= 100 {
            assert(decimal(k / 100) == seq![digit_char(k / 100)]);
            assert(decimal(k / 10) == decimal(k / 100).push(digit_char((k / 10) % 10)));
        } else if k >= 10 {
            assert(decimal(k / 10) == seq![digit_char(k / 10)]);
        }
    }
    assert(r@ =~= decimal(n as nat));
    r
}

fn prefixed(prefix: &str, s: &String) -> (r: String)
    ensures
        r@ == prefix@ + s@,
{
    let mut r = String::from_str(prefix);
    r.append(s.as_str());
    r
}

impl PipelineError {
    /// The text this error reads as.
    pub fn message(&self) -> (r: String)
        ensures
            r@ == error_message(self@),
    {
        match self {
            PipelineError::MissingToken => String::from_str(
                "missing or malformed Authorization header",
            ),
            PipelineError::InvalidToken => String::from_str("JWT is invalid or expired"),
            PipelineError::Forbidden => String::from_str("insufficient permissions"),
            PipelineError::Validation(s) => prefixed("validation failed: ", s),
            PipelineError::WeakPassword(n, s) => {
                let mut r = String::from_str("password too weak (score ");
                let d = u8_decimal(*n);
                r.append(d.as_str());
                r.append("/4): ");
                r.append(s.as_str());
                r
            },
            PipelineError::ParseError(s) => prefixed("parse error: ", s),
            PipelineError::Conflict(s) => prefixed("conflict: ", s),
            PipelineError::NotFound(s) => prefixed("not found: ", s),
            PipelineError::Database(s) => prefixed("database error: ", s),
            PipelineError::Internal(s) => prefixed("internal error: ", s),
        }
    }

    /// The HTTP status code this error is answered with.
    pub fn status_code(&self) -> (r: u16)
        ensures
            r == error_status(self@),
    {
        match self {
            PipelineError::MissingToken | PipelineError::InvalidToken => 401,
            PipelineError::Forbidden => 403,
            PipelineError::Validation(_)
            | PipelineError::WeakPassword(_, _)
            | PipelineError::ParseError(_) => 422,
            PipelineError::Conflict(_) => 409,
            PipelineError::NotFound(_) => 404,
            PipelineError::Database(_) | PipelineError::Internal(_) => 500,
        }
    }

    /// The text shown to the client: server-side faults are not described.
    pub fn public_message(&self) -> (r: String)
        ensures
            r@ == public_message(self@),
    {
        match self {
            PipelineError::Database(_) | PipelineError::Internal(_) => String::from_str(
                "an unexpected error occurred",
            ),
            _ => self.message(),
        }
    }
}

} // verus!
