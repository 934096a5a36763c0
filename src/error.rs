//! The typed errors of the library and the status table that picks them.
use vstd::prelude::*;
use vstd::string::StringExecFns;

verus! {

/// Errors of the client.
#[derive(Debug)]
pub enum ClientError {
    /// The HTTP request could not be made or completed.
    Http(reqwest::Error),
    /// The API answered with a status outside the table.
    Api { status: u16, message: String },
    /// Status 400.
    BadRequest(String),
    /// Status 401.
    AuthenticationError(String),
    /// Status 403.
    PermissionDenied(String),
    /// Status 404.
    NotFound(String),
    /// Status 409: the resource already exists.
    Conflict(String),
    /// Status 422.
    UnprocessableEntity(String),
    /// Status 429.
    RateLimitExceeded(String),
    /// Status 500 to 599.
    InternalServerError(String),
    /// A body could not be encoded or decoded as JSON.
    Json(serde_json::Error),
    /// No API key was given, neither explicitly nor by the environment.
    InvalidApiKey,
    /// Reading a local file failed.
    Io(std::io::Error),
    /// Base64 data could not be decoded.
    Base64(base64::DecodeError),
}

/// Description of `ClientError::InvalidApiKey`.
pub const INVALID_API_KEY_TEXT: &'static str =
    "Invalid API key: API key must be provided either via constructor or ZEROENTROPY_API_KEY environment variable";

/// The decimal digit for `d < 10`.
pub open spec fn digit_char(d: nat) -> char {
    if d == 0 { '0' } else if d == 1 { '1' } else if d == 2 { '2' } else if d == 3 { '3' }
    else if d == 4 { '4' } else if d == 5 { '5' } else if d == 6 { '6' } else if d == 7 { '7' }
    else if d == 8 { '8' } else { '9' }
}

/// The decimal form of `n`, without leading zeros.
pub open spec fn decimal(n: nat) -> Seq<char>
    decreases n,
{
    if n < 10 {
        seq![digit_char(n)]
    } else {
        decimal(n / 10) + seq![digit_char(n % 10)]
    }
}

fn digit_str(d: u16) -> (r: &'static str)
    requires
        d < 10,
    ensures
        r@ == seq![digit_char(d as nat)],
{
    proof {
        reveal_strlit("0");
        reveal_strlit("1");
        reveal_strlit("2");
        reveal_strlit("3");
        reveal_strlit("4");
        reveal_strlit("5");
        reveal_strlit("6");
        reveal_strlit("7");
        reveal_strlit("8");
        reveal_strlit("9");
    }
    match d {
        0 => "0",
        1 => "1",
        2 => "2",
        3 => "3",
        4 => "4",
        5 => "5",
        6 => "6",
        7 => "7",
        8 => "8",
        _ => "9",
    }
}

/// Writes a status code in decimal.
fn status_text(status: u16) -> (r: String)
    ensures
        r@ == decimal(status as nat),
{
    let mut n: u16 = status / 10;
    let mut s = String::from_str(digit_str(status % 10));
    while n > 0
        invariant
            n > 0 ==> decimal(status as nat) == decimal(n as nat) + s@,
            n == 0 ==> decimal(status as nat) == s@,
        decreases n,
    {
        let d = n % 10;
        let prefix = String::from_str(digit_str(d));
        proof {
            if n >= 10 {
                assert(decimal(n as nat) == decimal((n / 10) as nat) + seq![digit_char(d as nat)]);
                assert(decimal((n / 10) as nat) + (prefix@ + s@) == decimal((n / 10) as nat)
                    + prefix@ + s@);
            }
        }
        s = prefix.concat(s.as_str());
        n = n / 10;
    }
    s
}

/// Whether the status has a kind of its own in the table (all other error
/// statuses become `ClientError::Api`).
pub open spec fn has_own_kind(status: u16) -> bool {
    status == 400 || status == 401 || status == 403 || status == 404 || status == 409
        || status == 422 || status == 429 || (500 <= status && status <= 599)
}

/// `e` is the error that the table gives for `status` with `message`.
pub open spec fn is_status_error(e: ClientError, status: u16, message: Seq<char>) -> bool {
    match e {
        ClientError::BadRequest(m) => status == 400 && m@ == message,
        ClientError::AuthenticationError(m) => status == 401 && m@ == message,
        ClientError::PermissionDenied(m) => status == 403 && m@ == message,
        ClientError::NotFound(m) => status == 404 && m@ == message,
        ClientError::Conflict(m) => status == 409 && m@ == message,
        ClientError::UnprocessableEntity(m) => status == 422 && m@ == message,
        ClientError::RateLimitExceeded(m) => status == 429 && m@ == message,
        ClientError::InternalServerError(m) => 500 <= status && status <= 599 && m@ == message,
        ClientError::Api { status: s, message: m } => s == status && m@ == message && !has_own_kind(
            status,
        ),
        _ => false,
    }
}

impl ClientError {
    /// Creates the error for a response status and its message.
    pub fn from_status(status: u16, message: String) -> (r: ClientError)
        ensures
            is_status_error(r, status, message@),
    {
        match status {
            400 => ClientError::BadRequest(message),
            401 => ClientError::AuthenticationError(message),
            403 => ClientError::PermissionDenied(message),
            404 => ClientError::NotFound(message),
            409 => ClientError::Conflict(message),
            422 => ClientError::UnprocessableEntity(message),
            429 => ClientError::RateLimitExceeded(message),
            500..=599 => ClientError::InternalServerError(message),
            _ => ClientError::Api { status, message },
        }
    }

    /// The human-readable description of the error.
    pub fn to_string(&self) -> (r: String)
        ensures
            match self {
                ClientError::BadRequest(m) => r@ == "Bad request: "@ + m@,
                ClientError::AuthenticationError(m) => r@ == "Authentication failed: "@ + m@,
                ClientError::PermissionDenied(m) => r@ == "Permission denied: "@ + m@,
                ClientError::NotFound(m) => r@ == "Not found: "@ + m@,
                ClientError::Conflict(m) => r@ == "Conflict: "@ + m@,
                ClientError::UnprocessableEntity(m) => r@ == "Unprocessable entity: "@ + m@,
                ClientError::RateLimitExceeded(m) => r@ == "Rate limit exceeded: "@ + m@,
                ClientError::InternalServerError(m) => r@ == "Internal server error: "@ + m@,
                ClientError::InvalidApiKey => r@ == INVALID_API_KEY_TEXT@,
                ClientError::Api { status, message } => r@ == "API error ("@ + decimal(
                    *status as nat,
                ) + "): "@ + message@,
                ClientError::Http(_) => "HTTP request failed: "@.is_prefix_of(r@),
                ClientError::Json(_) => "JSON error: "@.is_prefix_of(r@),
                ClientError::Io(_) => "IO error: "@.is_prefix_of(r@),
                ClientError::Base64(_) => "Base64 error: "@.is_prefix_of(r@),
            },
    {
        match self {
            ClientError::Http(e) => String::from_str("HTTP request failed: ").concat(
                e.to_string().as_str(),
            ),
            ClientError::Api { status, message } => {
                let code = status_text(*status);
                String::from_str("API error (").concat(code.as_str()).concat("): ").concat(
                    message.as_str(),
                )
            },
            ClientError::BadRequest(m) => String::from_str("Bad request: ").concat(m.as_str()),
            ClientError::AuthenticationError(m) => String::from_str(
                "Authentication failed: ",
            ).concat(m.as_str()),
            ClientError::PermissionDenied(m) => String::from_str("Permission denied: ").concat(
                m.as_str(),
            ),
            ClientError::NotFound(m) => String::from_str("Not found: ").concat(m.as_str()),
            ClientError::Conflict(m) => String::from_str("Conflict: ").concat(m.as_str()),
            ClientError::UnprocessableEntity(m) => String::from_str(
                "Unprocessable entity: ",
            ).concat(m.as_str()),
            ClientError::RateLimitExceeded(m) => String::from_str("Rate limit exceeded: ").concat(
                m.as_str(),
            ),
            ClientError::InternalServerError(m) => String::from_str(
                "Internal server error: ",
            ).concat(m.as_str()),
            ClientError::Json(e) => String::from_str("JSON error: ").concat(e.to_string().as_str()),
            ClientError::InvalidApiKey => String::from_str(INVALID_API_KEY_TEXT),
            ClientError::Io(e) => String::from_str("IO error: ").concat(e.to_string().as_str()),
            ClientError::Base64(e) => String::from_str("Base64 error: ").concat(
                e.to_string().as_str(),
            ),
        }
    }
}

} // verus!
