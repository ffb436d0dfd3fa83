use vstd::prelude::*;

verus! {

/// Symbolic category for a 3-digit HTTP status code.  `Unknown` stands for
/// the code 0 and for every code outside the table, so that classifying a
/// response never fails.
#[derive(Clone, Copy, Debug, PartialEq, Eq, Structural)]
pub enum StatusCode {
    Continue,
    SwitchingProtocols,
    Processing,
    Okay,
    Created,
    Accepted,
    NonAuthoritativeInformation,
    NoContent,
    ResetContent,
    PartialContent,
    MultiStatus,
    AlreadyReported,
    ImUsed,
    MultipleChoices,
    MovedPermanently,
    Found,
    SeeOther,
    NotModified,
    UseProxy,
    TemporaryRedirect,
    PermanentRedirect,
    BadRequest,
    Unauthorized,
    PaymentRequired,
    Forbidden,
    NotFound,
    MethodNotAllowed,
    NotAcceptable,
    ProxyAuthenticationRequired,
    RequestTimeout,
    Conflict,
    Gone,
    LengthRequired,
    PreconditionFailed,
    PayloadTooLarge,
    UriTooLong,
    UnsupportedMediaType,
    RequestedRangeNotSatisfiable,
    ExpectationFailed,
    ImATeapot,
    MisdirectedRequest,
    UnprocessableEntity,
    Locked,
    FailedDependency,
    UpgradeRequired,
    PreconditionRequired,
    TooManyRequests,
    RequestHeaderFieldsTooLarge,
    UnavailableForLegalReasons,
    InternalServerError,
    NotImplemented,
    BadGateway,
    ServiceUnavailable,
    GatewayTimeout,
    HttpVersionNotSupported,
    VariantAlsoNegotiates,
    InsufficientStorage,
    LoopDetected,
    NotExtended,
    NetworkAuthenticationRequired,
    NetworkConnectTimeoutError,
    Unknown,
}

impl StatusCode {
    /// The category that a numeric code maps to; codes outside the table
    /// (0 among them) map to `Unknown`.
    pub open spec fn spec_from_num(code: int) -> StatusCode {
        if code == 100 {
            StatusCode::Continue
        } else if code == 101 {
            StatusCode::SwitchingProtocols
        } else if code == 102 {
            StatusCode::Processing
        } else if code == 200 {
            StatusCode::Okay
        } else if code == 201 {
            StatusCode::Created
        } else if code == 202 {
            StatusCode::Accepted
        } else if code == 203 {
            StatusCode::NonAuthoritativeInformation
        } else if code == 204 {
            StatusCode::NoContent
        } else if code == 205 {
            StatusCode::ResetContent
        } else if code == 206 {
            StatusCode::PartialContent
        } else if code == 207 {
            StatusCode::MultiStatus
        } else if code == 208 {
            StatusCode::AlreadyReported
        } else if code == 226 {
            StatusCode::ImUsed
        } else if code == 300 {
            StatusCode::MultipleChoices
        } else if code == 301 {
            StatusCode::MovedPermanently
        } else if code == 302 {
            StatusCode::Found
        } else if code == 303 {
            StatusCode::SeeOther
        } else if code == 304 {
            StatusCode::NotModified
        } else if code == 305 {
            StatusCode::UseProxy
        } else if code == 307 {
            StatusCode::TemporaryRedirect
        } else if code == 308 {
            StatusCode::PermanentRedirect
        } else if code == 400 {
            StatusCode::BadRequest
        } else if code == 401 {
            StatusCode::Unauthorized
        } else if code == 402 {
            StatusCode::PaymentRequired
        } else if code == 403 {
            StatusCode::Forbidden
        } else if code == 404 {
            StatusCode::NotFound
        } else if code == 405 {
            StatusCode::MethodNotAllowed
        } else if code == 406 {
            StatusCode::NotAcceptable
        } else if code == 407 {
            StatusCode::ProxyAuthenticationRequired
        } else if code == 408 {
            StatusCode::RequestTimeout
        } else if code == 409 {
            StatusCode::Conflict
        } else if code == 410 {
            StatusCode::Gone
        } else if code == 411 {
            StatusCode::LengthRequired
        } else if code == 412 {
            StatusCode::PreconditionFailed
        } else if code == 413 {
            StatusCode::PayloadTooLarge
        } else if code == 414 {
            StatusCode::UriTooLong
        } else if code == 415 {
            StatusCode::UnsupportedMediaType
        } else if code == 416 {
            StatusCode::RequestedRangeNotSatisfiable
        } else if code == 417 {
            StatusCode::ExpectationFailed
        } else if code == 418 {
            StatusCode::ImATeapot
        } else if code == 421 {
            StatusCode::MisdirectedRequest
        } else if code == 422 {
            StatusCode::UnprocessableEntity
        } else if code == 423 {
            StatusCode::Locked
        } else if code == 424 {
            StatusCode::FailedDependency
        } else if code == 426 {
            StatusCode::UpgradeRequired
        } else if code == 428 {
            StatusCode::PreconditionRequired
        } else if code == 429 {
            StatusCode::TooManyRequests
        } else if code == 431 {
            StatusCode::RequestHeaderFieldsTooLarge
        } else if code == 451 {
            StatusCode::UnavailableForLegalReasons
        } else if code == 500 {
            StatusCode::InternalServerError
        } else if code == 501 {
            StatusCode::NotImplemented
        } else if code == 502 {
            StatusCode::BadGateway
        } else if code == 503 {
            StatusCode::ServiceUnavailable
        } else if code == 504 {
            StatusCode::GatewayTimeout
        } else if code == 505 {
            StatusCode::HttpVersionNotSupported
        } else if code == 506 {
            StatusCode::VariantAlsoNegotiates
        } else if code == 507 {
            StatusCode::InsufficientStorage
        } else if code == 508 {
            StatusCode::LoopDetected
        } else if code == 510 {
            StatusCode::NotExtended
        } else if code == 511 {
            StatusCode::NetworkAuthenticationRequired
        } else if code == 599 {
            StatusCode::NetworkConnectTimeoutError
        } else {
            StatusCode::Unknown
        }
    }

    /// The numeric code behind a category; `Unknown` carries 0.
    pub open spec fn spec_to_num(self) -> int {
        match self {
            StatusCode::Continue => 100,
            StatusCode::SwitchingProtocols => 101,
            StatusCode::Processing => 102,
            StatusCode::Okay => 200,
            StatusCode::Created => 201,
            StatusCode::Accepted => 202,
            StatusCode::NonAuthoritativeInformation => 203,
            StatusCode::NoContent => 204,
            StatusCode::ResetContent => 205,
            StatusCode::PartialContent => 206,
            StatusCode::MultiStatus => 207,
            StatusCode::AlreadyReported => 208,
            StatusCode::ImUsed => 226,
            StatusCode::MultipleChoices => 300,
            StatusCode::MovedPermanently => 301,
            StatusCode::Found => 302,
            StatusCode::SeeOther => 303,
            StatusCode::NotModified => 304,
            StatusCode::UseProxy => 305,
            StatusCode::TemporaryRedirect => 307,
            StatusCode::PermanentRedirect => 308,
            StatusCode::BadRequest => 400,
            StatusCode::Unauthorized => 401,
            StatusCode::PaymentRequired => 402,
            StatusCode::Forbidden => 403,
            StatusCode::NotFound => 404,
            StatusCode::MethodNotAllowed => 405,
            StatusCode::NotAcceptable => 406,
            StatusCode::ProxyAuthenticationRequired => 407,
            StatusCode::RequestTimeout => 408,
            StatusCode::Conflict => 409,
            StatusCode::Gone => 410,
            StatusCode::LengthRequired => 411,
            StatusCode::PreconditionFailed => 412,
            StatusCode::PayloadTooLarge => 413,
            StatusCode::UriTooLong => 414,
            StatusCode::UnsupportedMediaType => 415,
            StatusCode::RequestedRangeNotSatisfiable => 416,
            StatusCode::ExpectationFailed => 417,
            StatusCode::ImATeapot => 418,
            StatusCode::MisdirectedRequest => 421,
            StatusCode::UnprocessableEntity => 422,
            StatusCode::Locked => 423,
            StatusCode::FailedDependency => 424,
            StatusCode::UpgradeRequired => 426,
            StatusCode::PreconditionRequired => 428,
            StatusCode::TooManyRequests => 429,
            StatusCode::RequestHeaderFieldsTooLarge => 431,
            StatusCode::UnavailableForLegalReasons => 451,
            StatusCode::InternalServerError => 500,
            StatusCode::NotImplemented => 501,
            StatusCode::BadGateway => 502,
            StatusCode::ServiceUnavailable => 503,
            StatusCode::GatewayTimeout => 504,
            StatusCode::HttpVersionNotSupported => 505,
            StatusCode::VariantAlsoNegotiates => 506,
            StatusCode::InsufficientStorage => 507,
            StatusCode::LoopDetected => 508,
            StatusCode::NotExtended => 510,
            StatusCode::NetworkAuthenticationRequired => 511,
            StatusCode::NetworkConnectTimeoutError => 599,
            StatusCode::Unknown => 0,
        }
    }

    /// The human-readable reason phrase of a category.
    pub open spec fn spec_name(self) -> Seq<char> {
        match self {
            StatusCode::Continue => "Continue"@,
            StatusCode::SwitchingProtocols => "Switching Protocols"@,
            StatusCode::Processing => "Processing"@,
            StatusCode::Okay => "OK"@,
            StatusCode::Created => "Created"@,
            StatusCode::Accepted => "Accepted"@,
            StatusCode::NonAuthoritativeInformation => "Non-Authoritative Information"@,
            StatusCode::NoContent => "No Content"@,
            StatusCode::ResetContent => "Reset Content"@,
            StatusCode::PartialContent => "Partial Content"@,
            StatusCode::MultiStatus => "Multi-Status"@,
            StatusCode::AlreadyReported => "Already Reported"@,
            StatusCode::ImUsed => "IM Used"@,
            StatusCode::MultipleChoices => "Multiple Choices"@,
            StatusCode::MovedPermanently => "Moved Permanently"@,
            StatusCode::Found => "Found"@,
            StatusCode::SeeOther => "See Other"@,
            StatusCode::NotModified => "Not Modified"@,
            StatusCode::UseProxy => "Use Proxy"@,
            StatusCode::TemporaryRedirect => "Temporary Redirect"@,
            StatusCode::PermanentRedirect => "Permanent Redirect"@,
            StatusCode::BadRequest => "Bad Request"@,
            StatusCode::Unauthorized => "Unauthorized"@,
            StatusCode::PaymentRequired => "Payment Required"@,
            StatusCode::Forbidden => "Forbidden"@,
            StatusCode::NotFound => "Not Found"@,
            StatusCode::MethodNotAllowed => "Method Not Allowed"@,
            StatusCode::NotAcceptable => "Not Acceptable"@,
            StatusCode::ProxyAuthenticationRequired => "Proxy Authentication Required"@,
            StatusCode::RequestTimeout => "Request Timeout"@,
            StatusCode::Conflict => "Conflict"@,
            StatusCode::Gone => "Gone"@,
            StatusCode::LengthRequired => "Length Required"@,
            StatusCode::PreconditionFailed => "Precondition Failed"@,
            StatusCode::PayloadTooLarge => "Payload Too Large"@,
            StatusCode::UriTooLong => "URI Too Long"@,
            StatusCode::UnsupportedMediaType => "Unsupported Media Type"@,
            StatusCode::RequestedRangeNotSatisfiable => "Requested Range Not Satisfiable"@,
            StatusCode::ExpectationFailed => "Expectation Failed"@,
            StatusCode::ImATeapot => "I'm a teapot"@,
            StatusCode::MisdirectedRequest => "Misdirected Request"@,
            StatusCode::UnprocessableEntity => "Unprocessable Entity"@,
            StatusCode::Locked => "Locked"@,
            StatusCode::FailedDependency => "Failed Dependency"@,
            StatusCode::UpgradeRequired => "Upgrade Required"@,
            StatusCode::PreconditionRequired => "Precondition Required"@,
            StatusCode::TooManyRequests => "Too Many Requests"@,
            StatusCode::RequestHeaderFieldsTooLarge => "Request Header Fields Too Large"@,
            StatusCode::UnavailableForLegalReasons => "Unavailable For Legal Reasons"@,
            StatusCode::InternalServerError => "Internal Server Error"@,
            StatusCode::NotImplemented => "Not Implemented"@,
            StatusCode::BadGateway => "Bad Gateway"@,
            StatusCode::ServiceUnavailable => "Service Unavailable"@,
            StatusCode::GatewayTimeout => "Gateway Timeout"@,
            StatusCode::HttpVersionNotSupported => "HTTP Version Not Supported"@,
            StatusCode::VariantAlsoNegotiates => "Variant Also Negotiates"@,
            StatusCode::InsufficientStorage => "Insufficient Storage"@,
            StatusCode::LoopDetected => "Loop Detected"@,
            StatusCode::NotExtended => "Not Extended"@,
            StatusCode::NetworkAuthenticationRequired => "Network Authentication Required"@,
            StatusCode::NetworkConnectTimeoutError => "Network Connect Timeout Error"@,
            StatusCode::Unknown => "Unknown"@,
        }
    }

    /// Total mapping from a numeric code to its category.
    pub fn from_num(code: usize) -> (r: StatusCode)
        ensures
            r == StatusCode::spec_from_num(code as int),
    {
        match code {
            100 => StatusCode::Continue,
            101 => StatusCode::SwitchingProtocols,
            102 => StatusCode::Processing,
            200 => StatusCode::Okay,
            201 => StatusCode::Created,
            202 => StatusCode::Accepted,
            203 => StatusCode::NonAuthoritativeInformation,
            204 => StatusCode::NoContent,
            205 => StatusCode::ResetContent,
            206 => StatusCode::PartialContent,
            207 => StatusCode::MultiStatus,
            208 => StatusCode::AlreadyReported,
            226 => StatusCode::ImUsed,
            300 => StatusCode::MultipleChoices,
            301 => StatusCode::MovedPermanently,
            302 => StatusCode::Found,
            303 => StatusCode::SeeOther,
            304 => StatusCode::NotModified,
            305 => StatusCode::UseProxy,
            307 => StatusCode::TemporaryRedirect,
            308 => StatusCode::PermanentRedirect,
            400 => StatusCode::BadRequest,
            401 => StatusCode::Unauthorized,
            402 => StatusCode::PaymentRequired,
            403 => StatusCode::Forbidden,
            404 => StatusCode::NotFound,
            405 => StatusCode::MethodNotAllowed,
            406 => StatusCode::NotAcceptable,
            407 => StatusCode::ProxyAuthenticationRequired,
            408 => StatusCode::RequestTimeout,
            409 => StatusCode::Conflict,
            410 => StatusCode::Gone,
            411 => StatusCode::LengthRequired,
            412 => StatusCode::PreconditionFailed,
            413 => StatusCode::PayloadTooLarge,
            414 => StatusCode::UriTooLong,
            415 => StatusCode::UnsupportedMediaType,
            416 => StatusCode::RequestedRangeNotSatisfiable,
            417 => StatusCode::ExpectationFailed,
            418 => StatusCode::ImATeapot,
            421 => StatusCode::MisdirectedRequest,
            422 => StatusCode::UnprocessableEntity,
            423 => StatusCode::Locked,
            424 => StatusCode::FailedDependency,
            426 => StatusCode::UpgradeRequired,
            428 => StatusCode::PreconditionRequired,
            429 => StatusCode::TooManyRequests,
            431 => StatusCode::RequestHeaderFieldsTooLarge,
            451 => StatusCode::UnavailableForLegalReasons,
            500 => StatusCode::InternalServerError,
            501 => StatusCode::NotImplemented,
            502 => StatusCode::BadGateway,
            503 => StatusCode::ServiceUnavailable,
            504 => StatusCode::GatewayTimeout,
            505 => StatusCode::HttpVersionNotSupported,
            506 => StatusCode::VariantAlsoNegotiates,
            507 => StatusCode::InsufficientStorage,
            508 => StatusCode::LoopDetected,
            510 => StatusCode::NotExtended,
            511 => StatusCode::NetworkAuthenticationRequired,
            599 => StatusCode::NetworkConnectTimeoutError,
            _ => StatusCode::Unknown,
        }
    }

    /// Total mapping from a category back to its numeric code.
    pub fn to_num(&self) -> (r: usize)
        ensures
            r == self.spec_to_num(),
    {
        match self {
            StatusCode::Continue => 100,
            StatusCode::SwitchingProtocols => 101,
            StatusCode::Processing => 102,
            StatusCode::Okay => 200,
            StatusCode::Created => 201,
            StatusCode::Accepted => 202,
            StatusCode::NonAuthoritativeInformation => 203,
            StatusCode::NoContent => 204,
            StatusCode::ResetContent => 205,
            StatusCode::PartialContent => 206,
            StatusCode::MultiStatus => 207,
            StatusCode::AlreadyReported => 208,
            StatusCode::ImUsed => 226,
            StatusCode::MultipleChoices => 300,
            StatusCode::MovedPermanently => 301,
            StatusCode::Found => 302,
            StatusCode::SeeOther => 303,
            StatusCode::NotModified => 304,
            StatusCode::UseProxy => 305,
            StatusCode::TemporaryRedirect => 307,
            StatusCode::PermanentRedirect => 308,
            StatusCode::BadRequest => 400,
            StatusCode::Unauthorized => 401,
            StatusCode::PaymentRequired => 402,
            StatusCode::Forbidden => 403,
            StatusCode::NotFound => 404,
            StatusCode::MethodNotAllowed => 405,
            StatusCode::NotAcceptable => 406,
            StatusCode::ProxyAuthenticationRequired => 407,
            StatusCode::RequestTimeout => 408,
            StatusCode::Conflict => 409,
            StatusCode::Gone => 410,
            StatusCode::LengthRequired => 411,
            StatusCode::PreconditionFailed => 412,
            StatusCode::PayloadTooLarge => 413,
            StatusCode::UriTooLong => 414,
            StatusCode::UnsupportedMediaType => 415,
            StatusCode::RequestedRangeNotSatisfiable => 416,
            StatusCode::ExpectationFailed => 417,
            StatusCode::ImATeapot => 418,
            StatusCode::MisdirectedRequest => 421,
            StatusCode::UnprocessableEntity => 422,
            StatusCode::Locked => 423,
            StatusCode::FailedDependency => 424,
            StatusCode::UpgradeRequired => 426,
            StatusCode::PreconditionRequired => 428,
            StatusCode::TooManyRequests => 429,
            StatusCode::RequestHeaderFieldsTooLarge => 431,
            StatusCode::UnavailableForLegalReasons => 451,
            StatusCode::InternalServerError => 500,
            StatusCode::NotImplemented => 501,
            StatusCode::BadGateway => 502,
            StatusCode::ServiceUnavailable => 503,
            StatusCode::GatewayTimeout => 504,
            StatusCode::HttpVersionNotSupported => 505,
            StatusCode::VariantAlsoNegotiates => 506,
            StatusCode::InsufficientStorage => 507,
            StatusCode::LoopDetected => 508,
            StatusCode::NotExtended => 510,
            StatusCode::NetworkAuthenticationRequired => 511,
            StatusCode::NetworkConnectTimeoutError => 599,
            StatusCode::Unknown => 0,
        }
    }

    /// The reason phrase of a category, for reports.
    pub fn name(&self) -> (r: &'static str)
        ensures
            r@ == self.spec_name(),
    {
        match self {
            StatusCode::Continue => "Continue",
            StatusCode::SwitchingProtocols => "Switching Protocols",
            StatusCode::Processing => "Processing",
            StatusCode::Okay => "OK",
            StatusCode::Created => "Created",
            StatusCode::Accepted => "Accepted",
            StatusCode::NonAuthoritativeInformation => "Non-Authoritative Information",
            StatusCode::NoContent => "No Content",
            StatusCode::ResetContent => "Reset Content",
            StatusCode::PartialContent => "Partial Content",
            StatusCode::MultiStatus => "Multi-Status",
            StatusCode::AlreadyReported => "Already Reported",
            StatusCode::ImUsed => "IM Used",
            StatusCode::MultipleChoices => "Multiple Choices",
            StatusCode::MovedPermanently => "Moved Permanently",
            StatusCode::Found => "Found",
            StatusCode::SeeOther => "See Other",
            StatusCode::NotModified => "Not Modified",
            StatusCode::UseProxy => "Use Proxy",
            StatusCode::TemporaryRedirect => "Temporary Redirect",
            StatusCode::PermanentRedirect => "Permanent Redirect",
            StatusCode::BadRequest => "Bad Request",
            StatusCode::Unauthorized => "Unauthorized",
            StatusCode::PaymentRequired => "Payment Required",
            StatusCode::Forbidden => "Forbidden",
            StatusCode::NotFound => "Not Found",
            StatusCode::MethodNotAllowed => "Method Not Allowed",
            StatusCode::NotAcceptable => "Not Acceptable",
            StatusCode::ProxyAuthenticationRequired => "Proxy Authentication Required",
            StatusCode::RequestTimeout => "Request Timeout",
            StatusCode::Conflict => "Conflict",
            StatusCode::Gone => "Gone",
            StatusCode::LengthRequired => "Length Required",
            StatusCode::PreconditionFailed => "Precondition Failed",
            StatusCode::PayloadTooLarge => "Payload Too Large",
            StatusCode::UriTooLong => "URI Too Long",
            StatusCode::UnsupportedMediaType => "Unsupported Media Type",
            StatusCode::RequestedRangeNotSatisfiable => "Requested Range Not Satisfiable",
            StatusCode::ExpectationFailed => "Expectation Failed",
            StatusCode::ImATeapot => "I'm a teapot",
            StatusCode::MisdirectedRequest => "Misdirected Request",
            StatusCode::UnprocessableEntity => "Unprocessable Entity",
            StatusCode::Locked => "Locked",
            StatusCode::FailedDependency => "Failed Dependency",
            StatusCode::UpgradeRequired => "Upgrade Required",
            StatusCode::PreconditionRequired => "Precondition Required",
            StatusCode::TooManyRequests => "Too Many Requests",
            StatusCode::RequestHeaderFieldsTooLarge => "Request Header Fields Too Large",
            StatusCode::UnavailableForLegalReasons => "Unavailable For Legal Reasons",
            StatusCode::InternalServerError => "Internal Server Error",
            StatusCode::NotImplemented => "Not Implemented",
            StatusCode::BadGateway => "Bad Gateway",
            StatusCode::ServiceUnavailable => "Service Unavailable",
            StatusCode::GatewayTimeout => "Gateway Timeout",
            StatusCode::HttpVersionNotSupported => "HTTP Version Not Supported",
            StatusCode::VariantAlsoNegotiates => "Variant Also Negotiates",
            StatusCode::InsufficientStorage => "Insufficient Storage",
            StatusCode::LoopDetected => "Loop Detected",
            StatusCode::NotExtended => "Not Extended",
            StatusCode::NetworkAuthenticationRequired => "Network Authentication Required",
            StatusCode::NetworkConnectTimeoutError => "Network Connect Timeout Error",
            StatusCode::Unknown => "Unknown",
        }
    }
}

/// Converting any category to its number and back yields the same category:
/// the two total conversions of the registry invert each other.
pub proof fn lemma_status_code_roundtrip(s: StatusCode)
    ensures
        StatusCode::spec_from_num(s.spec_to_num()) == s,
{
}

/// A numeric code that the table knows roundtrips through its category.
pub proof fn lemma_status_num_roundtrip(code: int)
    requires
        StatusCode::spec_from_num(code) != StatusCode::Unknown,
    ensures
        StatusCode::spec_from_num(code).spec_to_num() == code,
{
}

} // verus!
