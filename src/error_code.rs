use vstd::prelude::*;

use crate::text::str_eq;

verus! {

/// The status conditions that the data server reports, one per HTTP error or
/// redirection status.
#[derive(Clone, Copy, Debug, PartialEq, Eq, Hash, Structural)]
pub enum ErrorCode {
    MultipleChoices,
    MovedPermanently,
    Found,
    SeeOther,
    NotModified,
    UseProxy,
    TemporaryRedirect,
    PermanentRedirect,
    BadRequest,
    Unauthorized,
    PaymentRequired,
    Forbidden,
    NotFound,
    MethodNotAllowed,
    NotAcceptable,
    ProxyAuthenticationRequired,
    RequestTimeout,
    Conflict,
    Gone,
    LengthRequired,
    PreconditionFailed,
    PayloadTooLarge,
    UriTooLong,
    UnsupportedMediaType,
    RangeNotSatisfiable,
    ExpectationFailed,
    ImATeapot,
    MisdirectedRequest,
    UnprocessableEntity,
    Locked,
    FailedDependency,
    UpgradeRequired,
    PreconditionRequired,
    TooManyRequests,
    RequestHeaderFieldsTooLarge,
    UnavailableForLegalReasons,
    InternalServerError,
    NotImplemented,
    BadGateway,
    ServiceUnavailable,
    GatewayTimeout,
    HttpVersionNotSupported,
    VariantAlsoNegotiates,
    InsufficientStorage,
    LoopDetected,
    NotExtended,
    NetworkAuthenticationRequired,
}

/// What `ErrorCode::from_str` returns for a name that no code has.
#[derive(Clone, Debug, PartialEq, Eq)]
pub struct InvalidErrorCode {
    pub code: String,
}

impl ErrorCode {
    /// The name of the code, as it is written and parsed.
    pub open spec fn name(self) -> Seq<char> {
        match self {
            ErrorCode::MultipleChoices => "MultipleChoices"@,
            ErrorCode::MovedPermanently => "MovedPermanently"@,
            ErrorCode::Found => "Found"@,
            ErrorCode::SeeOther => "SeeOther"@,
            ErrorCode::NotModified => "NotModified"@,
            ErrorCode::UseProxy => "UseProxy"@,
            ErrorCode::TemporaryRedirect => "TemporaryRedirect"@,
            ErrorCode::PermanentRedirect => "PermanentRedirect"@,
            ErrorCode::BadRequest => "BadRequest"@,
            ErrorCode::Unauthorized => "Unauthorized"@,
            ErrorCode::PaymentRequired => "PaymentRequired"@,
            ErrorCode::Forbidden => "Forbidden"@,
            ErrorCode::NotFound => "NotFound"@,
            ErrorCode::MethodNotAllowed => "MethodNotAllowed"@,
            ErrorCode::NotAcceptable => "NotAcceptable"@,
            ErrorCode::ProxyAuthenticationRequired => "ProxyAuthenticationRequired"@,
            ErrorCode::RequestTimeout => "RequestTimeout"@,
            ErrorCode::Conflict => "Conflict"@,
            ErrorCode::Gone => "Gone"@,
            ErrorCode::LengthRequired => "LengthRequired"@,
            ErrorCode::PreconditionFailed => "PreconditionFailed"@,
            ErrorCode::PayloadTooLarge => "PayloadTooLarge"@,
            ErrorCode::UriTooLong => "UriTooLong"@,
            ErrorCode::UnsupportedMediaType => "UnsupportedMediaType"@,
            ErrorCode::RangeNotSatisfiable => "RangeNotSatisfiable"@,
            ErrorCode::ExpectationFailed => "ExpectationFailed"@,
            ErrorCode::ImATeapot => "ImATeapot"@,
            ErrorCode::MisdirectedRequest => "MisdirectedRequest"@,
            ErrorCode::UnprocessableEntity => "UnprocessableEntity"@,
            ErrorCode::Locked => "Locked"@,
            ErrorCode::FailedDependency => "FailedDependency"@,
            ErrorCode::UpgradeRequired => "UpgradeRequired"@,
            ErrorCode::PreconditionRequired => "PreconditionRequired"@,
            ErrorCode::TooManyRequests => "TooManyRequests"@,
            ErrorCode::RequestHeaderFieldsTooLarge => "RequestHeaderFieldsTooLarge"@,
            ErrorCode::UnavailableForLegalReasons => "UnavailableForLegalReasons"@,
            ErrorCode::InternalServerError => "InternalServerError"@,
            ErrorCode::NotImplemented => "NotImplemented"@,
            ErrorCode::BadGateway => "BadGateway"@,
            ErrorCode::ServiceUnavailable => "ServiceUnavailable"@,
            ErrorCode::GatewayTimeout => "GatewayTimeout"@,
            ErrorCode::HttpVersionNotSupported => "HttpVersionNotSupported"@,
            ErrorCode::VariantAlsoNegotiates => "VariantAlsoNegotiates"@,
            ErrorCode::InsufficientStorage => "InsufficientStorage"@,
            ErrorCode::LoopDetected => "LoopDetected"@,
            ErrorCode::NotExtended => "NotExtended"@,
            ErrorCode::NetworkAuthenticationRequired => "NetworkAuthenticationRequired"@,
        }
    }

    /// The name of the code.
    pub fn as_str(&self) -> (r: &'static str)
        ensures
            r@ == self.name(),
    {
        match self {
            ErrorCode::MultipleChoices => "MultipleChoices",
            ErrorCode::MovedPermanently => "MovedPermanently",
            ErrorCode::Found => "Found",
            ErrorCode::SeeOther => "SeeOther",
            ErrorCode::NotModified => "NotModified",
            ErrorCode::UseProxy => "UseProxy",
            ErrorCode::TemporaryRedirect => "TemporaryRedirect",
            ErrorCode::PermanentRedirect => "PermanentRedirect",
            ErrorCode::BadRequest => "BadRequest",
            ErrorCode::Unauthorized => "Unauthorized",
            ErrorCode::PaymentRequired => "PaymentRequired",
            ErrorCode::Forbidden => "Forbidden",
            ErrorCode::NotFound => "NotFound",
            ErrorCode::MethodNotAllowed => "MethodNotAllowed",
            ErrorCode::NotAcceptable => "NotAcceptable",
            ErrorCode::ProxyAuthenticationRequired => "ProxyAuthenticationRequired",
            ErrorCode::RequestTimeout => "RequestTimeout",
            ErrorCode::Conflict => "Conflict",
            ErrorCode::Gone => "Gone",
            ErrorCode::LengthRequired => "LengthRequired",
            ErrorCode::PreconditionFailed => "PreconditionFailed",
            ErrorCode::PayloadTooLarge => "PayloadTooLarge",
            ErrorCode::UriTooLong => "UriTooLong",
            ErrorCode::UnsupportedMediaType => "UnsupportedMediaType",
            ErrorCode::RangeNotSatisfiable => "RangeNotSatisfiable",
            ErrorCode::ExpectationFailed => "ExpectationFailed",
            ErrorCode::ImATeapot => "ImATeapot",
            ErrorCode::MisdirectedRequest => "MisdirectedRequest",
            ErrorCode::UnprocessableEntity => "UnprocessableEntity",
            ErrorCode::Locked => "Locked",
            ErrorCode::FailedDependency => "FailedDependency",
            ErrorCode::UpgradeRequired => "UpgradeRequired",
            ErrorCode::PreconditionRequired => "PreconditionRequired",
            ErrorCode::TooManyRequests => "TooManyRequests",
            ErrorCode::RequestHeaderFieldsTooLarge => "RequestHeaderFieldsTooLarge",
            ErrorCode::UnavailableForLegalReasons => "UnavailableForLegalReasons",
            ErrorCode::InternalServerError => "InternalServerError",
            ErrorCode::NotImplemented => "NotImplemented",
            ErrorCode::BadGateway => "BadGateway",
            ErrorCode::ServiceUnavailable => "ServiceUnavailable",
            ErrorCode::GatewayTimeout => "GatewayTimeout",
            ErrorCode::HttpVersionNotSupported => "HttpVersionNotSupported",
            ErrorCode::VariantAlsoNegotiates => "VariantAlsoNegotiates",
            ErrorCode::InsufficientStorage => "InsufficientStorage",
            ErrorCode::LoopDetected => "LoopDetected",
            ErrorCode::NotExtended => "NotExtended",
            ErrorCode::NetworkAuthenticationRequired => "NetworkAuthenticationRequired",
        }
    }

    /// The code whose name is `code`; an error for any other text.
    pub fn from_str(code: &str) -> (r: Result<ErrorCode, InvalidErrorCode>)
        ensures
            match r {
                Ok(c) => code@ == c.name(),
                Err(e) => e.code@ == code@ && forall|c: ErrorCode| code@ != c.name(),
            },
    {
        if str_eq(code, "MultipleChoices") {
            return Ok(ErrorCode::MultipleChoices);
        }
        if str_eq(code, "MovedPermanently") {
            return Ok(ErrorCode::MovedPermanently);
        }
        if str_eq(code, "Found") {
            return Ok(ErrorCode::Found);
        }
        if str_eq(code, "SeeOther") {
            return Ok(ErrorCode::SeeOther);
        }
        if str_eq(code, "NotModified") {
            return Ok(ErrorCode::NotModified);
        }
        if str_eq(code, "UseProxy") {
            return Ok(ErrorCode::UseProxy);
        }
        if str_eq(code, "TemporaryRedirect") {
            return Ok(ErrorCode::TemporaryRedirect);
        }
        if str_eq(code, "PermanentRedirect") {
            return Ok(ErrorCode::PermanentRedirect);
        }
        if str_eq(code, "BadRequest") {
            return Ok(ErrorCode::BadRequest);
        }
        if str_eq(code, "Unauthorized") {
            return Ok(ErrorCode::Unauthorized);
        }
        if str_eq(code, "PaymentRequired") {
            return Ok(ErrorCode::PaymentRequired);
        }
        if str_eq(code, "Forbidden") {
            return Ok(ErrorCode::Forbidden);
        }
        if str_eq(code, "NotFound") {
            return Ok(ErrorCode::NotFound);
        }
        if str_eq(code, "MethodNotAllowed") {
            return Ok(ErrorCode::MethodNotAllowed);
        }
        if str_eq(code, "NotAcceptable") {
            return Ok(ErrorCode::NotAcceptable);
        }
        if str_eq(code, "ProxyAuthenticationRequired") {
            return Ok(ErrorCode::ProxyAuthenticationRequired);
        }
        if str_eq(code, "RequestTimeout") {
            return Ok(ErrorCode::RequestTimeout);
        }
        if str_eq(code, "Conflict") {
            return Ok(ErrorCode::Conflict);
        }
        if str_eq(code, "Gone") {
            return Ok(ErrorCode::Gone);
        }
        if str_eq(code, "LengthRequired") {
            return Ok(ErrorCode::LengthRequired);
        }
        if str_eq(code, "PreconditionFailed") {
            return Ok(ErrorCode::PreconditionFailed);
        }
        if str_eq(code, "PayloadTooLarge") {
            return Ok(ErrorCode::PayloadTooLarge);
        }
        if str_eq(code, "UriTooLong") {
            return Ok(ErrorCode::UriTooLong);
        }
        if str_eq(code, "UnsupportedMediaType") {
            return Ok(ErrorCode::UnsupportedMediaType);
        }
        if str_eq(code, "RangeNotSatisfiable") {
            return Ok(ErrorCode::RangeNotSatisfiable);
        }
        if str_eq(code, "ExpectationFailed") {
            return Ok(ErrorCode::ExpectationFailed);
        }
        if str_eq(code, "ImATeapot") {
            return Ok(ErrorCode::ImATeapot);
        }
        if str_eq(code, "MisdirectedRequest") {
            return Ok(ErrorCode::MisdirectedRequest);
        }
        if str_eq(code, "UnprocessableEntity") {
            return Ok(ErrorCode::UnprocessableEntity);
        }
        if str_eq(code, "Locked") {
            return Ok(ErrorCode::Locked);
        }
        if str_eq(code, "FailedDependency") {
            return Ok(ErrorCode::FailedDependency);
        }
        if str_eq(code, "UpgradeRequired") {
            return Ok(ErrorCode::UpgradeRequired);
        }
        if str_eq(code, "PreconditionRequired") {
            return Ok(ErrorCode::PreconditionRequired);
        }
        if str_eq(code, "TooManyRequests") {
            return Ok(ErrorCode::TooManyRequests);
        }
        if str_eq(code, "RequestHeaderFieldsTooLarge") {
            return Ok(ErrorCode::RequestHeaderFieldsTooLarge);
        }
        if str_eq(code, "UnavailableForLegalReasons") {
            return Ok(ErrorCode::UnavailableForLegalReasons);
        }
        if str_eq(code, "InternalServerError") {
            return Ok(ErrorCode::InternalServerError);
        }
        if str_eq(code, "NotImplemented") {
            return Ok(ErrorCode::NotImplemented);
        }
        if str_eq(code, "BadGateway") {
            return Ok(ErrorCode::BadGateway);
        }
        if str_eq(code, "ServiceUnavailable") {
            return Ok(ErrorCode::ServiceUnavailable);
        }
        if str_eq(code, "GatewayTimeout") {
            return Ok(ErrorCode::GatewayTimeout);
        }
        if str_eq(code, "HttpVersionNotSupported") {
            return Ok(ErrorCode::HttpVersionNotSupported);
        }
        if str_eq(code, "VariantAlsoNegotiates") {
            return Ok(ErrorCode::VariantAlsoNegotiates);
        }
        if str_eq(code, "InsufficientStorage") {
            return Ok(ErrorCode::InsufficientStorage);
        }
        if str_eq(code, "LoopDetected") {
            return Ok(ErrorCode::LoopDetected);
        }
        if str_eq(code, "NotExtended") {
            return Ok(ErrorCode::NotExtended);
        }
        if str_eq(code, "NetworkAuthenticationRequired") {
            return Ok(ErrorCode::NetworkAuthenticationRequired);
        }
        Err(InvalidErrorCode { code: code.to_owned() })
    }
}

/// Two codes with the same name are the same code, so that the name of a code
/// parses back to that code alone.
pub proof fn lemma_name_injective(a: ErrorCode, b: ErrorCode)
    requires
        a.name() == b.name(),
    ensures
        a == b,
{
    reveal_strlit("MultipleChoices");
    reveal_strlit("MovedPermanently");
    reveal_strlit("Found");
    reveal_strlit("SeeOther");
    reveal_strlit("NotModified");
    reveal_strlit("UseProxy");
    reveal_strlit("TemporaryRedirect");
    reveal_strlit("PermanentRedirect");
    reveal_strlit("BadRequest");
    reveal_strlit("Unauthorized");
    reveal_strlit("PaymentRequired");
    reveal_strlit("Forbidden");
    reveal_strlit("NotFound");
    reveal_strlit("MethodNotAllowed");
    reveal_strlit("NotAcceptable");
    reveal_strlit("ProxyAuthenticationRequired");
    reveal_strlit("RequestTimeout");
    reveal_strlit("Conflict");
    reveal_strlit("Gone");
    reveal_strlit("LengthRequired");
    reveal_strlit("PreconditionFailed");
    reveal_strlit("PayloadTooLarge");
    reveal_strlit("UriTooLong");
    reveal_strlit("UnsupportedMediaType");
    reveal_strlit("RangeNotSatisfiable");
    reveal_strlit("ExpectationFailed");
    reveal_strlit("ImATeapot");
    reveal_strlit("MisdirectedRequest");
    reveal_strlit("UnprocessableEntity");
    reveal_strlit("Locked");
    reveal_strlit("FailedDependency");
    reveal_strlit("UpgradeRequired");
    reveal_strlit("PreconditionRequired");
    reveal_strlit("TooManyRequests");
    reveal_strlit("RequestHeaderFieldsTooLarge");
    reveal_strlit("UnavailableForLegalReasons");
    reveal_strlit("InternalServerError");
    reveal_strlit("NotImplemented");
    reveal_strlit("BadGateway");
    reveal_strlit("ServiceUnavailable");
    reveal_strlit("GatewayTimeout");
    reveal_strlit("HttpVersionNotSupported");
    reveal_strlit("VariantAlsoNegotiates");
    reveal_strlit("InsufficientStorage");
    reveal_strlit("LoopDetected");
    reveal_strlit("NotExtended");
    reveal_strlit("NetworkAuthenticationRequired");
    match a {
        ErrorCode::MultipleChoices => match b {
            ErrorCode::MultipleChoices => {},
            ErrorCode::MovedPermanently => assert("MultipleChoices"@.len() != "MovedPermanently"@.len()),
            ErrorCode::Found => assert("MultipleChoices"@.len() != "Found"@.len()),
            ErrorCode::SeeOther => assert("MultipleChoices"@.len() != "SeeOther"@.len()),
            ErrorCode::NotModified => assert("MultipleChoices"@.len() != "NotModified"@.len()),
            ErrorCode::UseProxy => assert("MultipleChoices"@.len() != "UseProxy"@.len()),
            ErrorCode::TemporaryRedirect => assert("MultipleChoices"@.len() != "TemporaryRedirect"@.len()),
            ErrorCode::PermanentRedirect => assert("MultipleChoices"@.len() != "PermanentRedirect"@.len()),
            ErrorCode::BadRequest => assert("MultipleChoices"@.len() != "BadRequest"@.len()),
            ErrorCode::Unauthorized => assert("MultipleChoices"@.len() != "Unauthorized"@.len()),
            ErrorCode::PaymentRequired => assert("MultipleChoices"@[0] != "PaymentRequired"@[0]),
            ErrorCode::Forbidden => assert("MultipleChoices"@.len() != "Forbidden"@.len()),
            ErrorCode::NotFound => assert("MultipleChoices"@.len() != "NotFound"@.len()),
            ErrorCode::MethodNotAllowed => assert("MultipleChoices"@.len() != "MethodNotAllowed"@.len()),
            ErrorCode::NotAcceptable => assert("MultipleChoices"@.len() != "NotAcceptable"@.len()),
            ErrorCode::ProxyAuthenticationRequired => assert("MultipleChoices"@.len() != "ProxyAuthenticationRequired"@.len()),
            ErrorCode::RequestTimeout => assert("MultipleChoices"@.len() != "RequestTimeout"@.len()),
            ErrorCode::Conflict => assert("MultipleChoices"@.len() != "Conflict"@.len()),
            ErrorCode::Gone => assert("MultipleChoices"@.len() != "Gone"@.len()),
            ErrorCode::LengthRequired => assert("MultipleChoices"@.len() != "LengthRequired"@.len()),
            ErrorCode::PreconditionFailed => assert("MultipleChoices"@.len() != "PreconditionFailed"@.len()),
            ErrorCode::PayloadTooLarge => assert("MultipleChoices"@[0] != "PayloadTooLarge"@[0]),
            ErrorCode::UriTooLong => assert("MultipleChoices"@.len() != "UriTooLong"@.len()),
            ErrorCode::UnsupportedMediaType => assert("MultipleChoices"@.len() != "UnsupportedMediaType"@.len()),
            ErrorCode::RangeNotSatisfiable => assert("MultipleChoices"@.len() != "RangeNotSatisfiable"@.len()),
            ErrorCode::ExpectationFailed => assert("MultipleChoices"@.len() != "ExpectationFailed"@.len()),
            ErrorCode::ImATeapot => assert("MultipleChoices"@.len() != "ImATeapot"@.len()),
            ErrorCode::MisdirectedRequest => assert("MultipleChoices"@.len() != "MisdirectedRequest"@.len()),
            ErrorCode::UnprocessableEntity => assert("MultipleChoices"@.len() != "UnprocessableEntity"@.len()),
            ErrorCode::Locked => assert("MultipleChoices"@.len() != "Locked"@.len()),
            ErrorCode::FailedDependency => assert("MultipleChoices"@.len() != "FailedDependency"@.len()),
            ErrorCode::UpgradeRequired => assert("MultipleChoices"@[0] != "UpgradeRequired"@[0]),
            ErrorCode::PreconditionRequired => assert("MultipleChoices"@.len() != "PreconditionRequired"@.len()),
            ErrorCode::TooManyRequests => assert("MultipleChoices"@[0] != "TooManyRequests"@[0]),
            ErrorCode::RequestHeaderFieldsTooLarge => assert("MultipleChoices"@.len() != "RequestHeaderFieldsTooLarge"@.len()),
            ErrorCode::UnavailableForLegalReasons => assert("MultipleChoices"@.len() != "UnavailableForLegalReasons"@.len()),
            ErrorCode::InternalServerError => assert("MultipleChoices"@.len() != "InternalServerError"@.len()),
            ErrorCode::NotImplemented => assert("MultipleChoices"@.len() != "NotImplemented"@.len()),
            ErrorCode::BadGateway => assert("MultipleChoices"@.len() != "BadGateway"@.len()),
            ErrorCode::ServiceUnavailable => assert("MultipleChoices"@.len() != "ServiceUnavailable"@.len()),
            ErrorCode::GatewayTimeout => assert("MultipleChoices"@.len() != "GatewayTimeout"@.len()),
            ErrorCode::HttpVersionNotSupported => assert("MultipleChoices"@.len() != "HttpVersionNotSupported"@.len()),
            ErrorCode::VariantAlsoNegotiates => assert("MultipleChoices"@.len() != "VariantAlsoNegotiates"@.len()),
            ErrorCode::InsufficientStorage => assert("MultipleChoices"@.len() != "InsufficientStorage"@.len()),
            ErrorCode::LoopDetected => assert("MultipleChoices"@.len() != "LoopDetected"@.len()),
            ErrorCode::NotExtended => assert("MultipleChoices"@.len() != "NotExtended"@.len()),
            ErrorCode::NetworkAuthenticationRequired => assert("MultipleChoices"@.len() != "NetworkAuthenticationRequired"@.len()),
        },
        ErrorCode::MovedPermanently => match b {
            ErrorCode::MultipleChoices => assert("MovedPermanently"@.len() != "MultipleChoices"@.len()),
            ErrorCode::MovedPermanently => {},
            ErrorCode::Found => assert("MovedPermanently"@.len() != "Found"@.len()),
            ErrorCode::SeeOther => assert("MovedPermanently"@.len() != "SeeOther"@.len()),
            ErrorCode::NotModified => assert("MovedPermanently"@.len() != "NotModified"@.len()),
            ErrorCode::UseProxy => assert("MovedPermanently"@.len() != "UseProxy"@.len()),
            ErrorCode::TemporaryRedirect => assert("MovedPermanently"@.len() != "TemporaryRedirect"@.len()),
            ErrorCode::PermanentRedirect => assert("MovedPermanently"@.len() != "PermanentRedirect"@.len()),
            ErrorCode::BadRequest => assert("MovedPermanently"@.len() != "BadRequest"@.len()),
            ErrorCode::Unauthorized => assert("MovedPermanently"@.len() != "Unauthorized"@.len()),
            ErrorCode::PaymentRequired => assert("MovedPermanently"@.len() != "PaymentRequired"@.len()),
            ErrorCode::Forbidden => assert("MovedPermanently"@.len() != "Forbidden"@.len()),
            ErrorCode::NotFound => assert("MovedPermanently"@.len() != "NotFound"@.len()),
            ErrorCode::MethodNotAllowed => assert("MovedPermanently"@[1] != "MethodNotAllowed"@[1]),
            ErrorCode::NotAcceptable => assert("MovedPermanently"@.len() != "NotAcceptable"@.len()),
            ErrorCode::ProxyAuthenticationRequired => assert("MovedPermanently"@.len() != "ProxyAuthenticationRequired"@.len()),
            ErrorCode::RequestTimeout => assert("MovedPermanently"@.len() != "RequestTimeout"@.len()),
            ErrorCode::Conflict => assert("MovedPermanently"@.len() != "Conflict"@.len()),
            ErrorCode::Gone => assert("MovedPermanently"@.len() != "Gone"@.len()),
            ErrorCode::LengthRequired => assert("MovedPermanently"@.len() != "LengthRequired"@.len()),
            ErrorCode::PreconditionFailed => assert("MovedPermanently"@.len() != "PreconditionFailed"@.len()),
            ErrorCode::PayloadTooLarge => assert("MovedPermanently"@.len() != "PayloadTooLarge"@.len()),
            ErrorCode::UriTooLong => assert("MovedPermanently"@.len() != "UriTooLong"@.len()),
            ErrorCode::UnsupportedMediaType => assert("MovedPermanently"@.len() != "UnsupportedMediaType"@.len()),
            ErrorCode::RangeNotSatisfiable => assert("MovedPermanently"@.len() != "RangeNotSatisfiable"@.len()),
            ErrorCode::ExpectationFailed => assert("MovedPermanently"@.len() != "ExpectationFailed"@.len()),
            ErrorCode::ImATeapot => assert("MovedPermanently"@.len() != "ImATeapot"@.len()),
            ErrorCode::MisdirectedRequest => assert("MovedPermanently"@.len() != "MisdirectedRequest"@.len()),
            ErrorCode::UnprocessableEntity => assert("MovedPermanently"@.len() != "UnprocessableEntity"@.len()),
            ErrorCode::Locked => assert("MovedPermanently"@.len() != "Locked"@.len()),
            ErrorCode::FailedDependency => assert("MovedPermanently"@[0] != "FailedDependency"@[0]),
            ErrorCode::UpgradeRequired => assert("MovedPermanently"@.len() != "UpgradeRequired"@.len()),
            ErrorCode::PreconditionRequired => assert("MovedPermanently"@.len() != "PreconditionRequired"@.len()),
            ErrorCode::TooManyRequests => assert("MovedPermanently"@.len() != "TooManyRequests"@.len()),
            ErrorCode::RequestHeaderFieldsTooLarge => assert("MovedPermanently"@.len() != "RequestHeaderFieldsTooLarge"@.len()),
            ErrorCode::UnavailableForLegalReasons => assert("MovedPermanently"@.len() != "UnavailableForLegalReasons"@.len()),
            ErrorCode::InternalServerError => assert("MovedPermanently"@.len() != "InternalServerError"@.len()),
            ErrorCode::NotImplemented => assert("MovedPermanently"@.len() != "NotImplemented"@.len()),
            ErrorCode::BadGateway => assert("MovedPermanently"@.len() != "BadGateway"@.len()),
            ErrorCode::ServiceUnavailable => assert("MovedPermanently"@.len() != "ServiceUnavailable"@.len()),
            ErrorCode::GatewayTimeout => assert("MovedPermanently"@.len() != "GatewayTimeout"@.len()),
            ErrorCode::HttpVersionNotSupported => assert("MovedPermanently"@.len() != "HttpVersionNotSupported"@.len()),
            ErrorCode::VariantAlsoNegotiates => assert("MovedPermanently"@.len() != "VariantAlsoNegotiates"@.len()),
            ErrorCode::InsufficientStorage => assert("MovedPermanently"@.len() != "InsufficientStorage"@.len()),
            ErrorCode::LoopDetected => assert("MovedPermanently"@.len() != "LoopDetected"@.len()),
            ErrorCode::NotExtended => assert("MovedPermanently"@.len() != "NotExtended"@.len()),
            ErrorCode::NetworkAuthenticationRequired => assert("MovedPermanently"@.len() != "NetworkAuthenticationRequired"@.len()),
        },
        ErrorCode::Found => match b {
            ErrorCode::MultipleChoices => assert("Found"@.len() != "MultipleChoices"@.len()),
            ErrorCode::MovedPermanently => assert("Found"@.len() != "MovedPermanently"@.len()),
            ErrorCode::Found => {},
            ErrorCode::SeeOther => assert("Found"@.len() != "SeeOther"@.len()),
            ErrorCode::NotModified => assert("Found"@.len() != "NotModified"@.len()),
            ErrorCode::UseProxy => assert("Found"@.len() != "UseProxy"@.len()),
            ErrorCode::TemporaryRedirect => assert("Found"@.len() != "TemporaryRedirect"@.len()),
            ErrorCode::PermanentRedirect => assert("Found"@.len() != "PermanentRedirect"@.len()),
            ErrorCode::BadRequest => assert("Found"@.len() != "BadRequest"@.len()),
            ErrorCode::Unauthorized => assert("Found"@.len() != "Unauthorized"@.len()),
            ErrorCode::PaymentRequired => assert("Found"@.len() != "PaymentRequired"@.len()),
            ErrorCode::Forbidden => assert("Found"@.len() != "Forbidden"@.len()),
            ErrorCode::NotFound => assert("Found"@.len() != "NotFound"@.len()),
            ErrorCode::MethodNotAllowed => assert("Found"@.len() != "MethodNotAllowed"@.len()),
            ErrorCode::NotAcceptable => assert("Found"@.len() != "NotAcceptable"@.len()),
            ErrorCode::ProxyAuthenticationRequired => assert("Found"@.len() != "ProxyAuthenticationRequired"@.len()),
            ErrorCode::RequestTimeout => assert("Found"@.len() != "RequestTimeout"@.len()),
            ErrorCode::Conflict => assert("Found"@.len() != "Conflict"@.len()),
            ErrorCode::Gone => assert("Found"@.len() != "Gone"@.len()),
            ErrorCode::LengthRequired => assert("Found"@.len() != "LengthRequired"@.len()),
            ErrorCode::PreconditionFailed => assert("Found"@.len() != "PreconditionFailed"@.len()),
            ErrorCode::PayloadTooLarge => assert("Found"@.len() != "PayloadTooLarge"@.len()),
            ErrorCode::UriTooLong => assert("Found"@.len() != "UriTooLong"@.len()),
            ErrorCode::UnsupportedMediaType => assert("Found"@.len() != "UnsupportedMediaType"@.len()),
            ErrorCode::RangeNotSatisfiable => assert("Found"@.len() != "RangeNotSatisfiable"@.len()),
            ErrorCode::ExpectationFailed => assert("Found"@.len() != "ExpectationFailed"@.len()),
            ErrorCode::ImATeapot => assert("Found"@.len() != "ImATeapot"@.len()),
            ErrorCode::MisdirectedRequest => assert("Found"@.len() != "MisdirectedRequest"@.len()),
            ErrorCode::UnprocessableEntity => assert("Found"@.len() != "UnprocessableEntity"@.len()),
            ErrorCode::Locked => assert("Found"@.len() != "Locked"@.len()),
            ErrorCode::FailedDependency => assert("Found"@.len() != "FailedDependency"@.len()),
            ErrorCode::UpgradeRequired => assert("Found"@.len() != "UpgradeRequired"@.len()),
            ErrorCode::PreconditionRequired => assert("Found"@.len() != "PreconditionRequired"@.len()),
            ErrorCode::TooManyRequests => assert("Found"@.len() != "TooManyRequests"@.len()),
            ErrorCode::RequestHeaderFieldsTooLarge => assert("Found"@.len() != "RequestHeaderFieldsTooLarge"@.len()),
            ErrorCode::UnavailableForLegalReasons => assert("Found"@.len() != "UnavailableForLegalReasons"@.len()),
            ErrorCode::InternalServerError => assert("Found"@.len() != "InternalServerError"@.len()),
            ErrorCode::NotImplemented => assert("Found"@.len() != "NotImplemented"@.len()),
            ErrorCode::BadGateway => assert("Found"@.len() != "BadGateway"@.len()),
            ErrorCode::ServiceUnavailable => assert("Found"@.len() != "ServiceUnavailable"@.len()),
            ErrorCode::GatewayTimeout => assert("Found"@.len() != "GatewayTimeout"@.len()),
            ErrorCode::HttpVersionNotSupported => assert("Found"@.len() != "HttpVersionNotSupported"@.len()),
            ErrorCode::VariantAlsoNegotiates => assert("Found"@.len() != "VariantAlsoNegotiates"@.len()),
            ErrorCode::InsufficientStorage => assert("Found"@.len() != "InsufficientStorage"@.len()),
            ErrorCode::LoopDetected => assert("Found"@.len() != "LoopDetected"@.len()),
            ErrorCode::NotExtended => assert("Found"@.len() != "NotExtended"@.len()),
            ErrorCode::NetworkAuthenticationRequired => assert("Found"@.len() != "NetworkAuthenticationRequired"@.len()),
        },
        ErrorCode::SeeOther => match b {
            ErrorCode::MultipleChoices => assert("SeeOther"@.len() != "MultipleChoices"@.len()),
            ErrorCode::MovedPermanently => assert("SeeOther"@.len() != "MovedPermanently"@.len()),
            ErrorCode::Found => assert("SeeOther"@.len() != "Found"@.len()),
            ErrorCode::SeeOther => {},
            ErrorCode::NotModified => assert("SeeOther"@.len() != "NotModified"@.len()),
            ErrorCode::UseProxy => assert("SeeOther"@[0] != "UseProxy"@[0]),
            ErrorCode::TemporaryRedirect => assert("SeeOther"@.len() != "TemporaryRedirect"@.len()),
            ErrorCode::PermanentRedirect => assert("SeeOther"@.len() != "PermanentRedirect"@.len()),
            ErrorCode::BadRequest => assert("SeeOther"@.len() != "BadRequest"@.len()),
            ErrorCode::Unauthorized => assert("SeeOther"@.len() != "Unauthorized"@.len()),
            ErrorCode::PaymentRequired => assert("SeeOther"@.len() != "PaymentRequired"@.len()),
            ErrorCode::Forbidden => assert("SeeOther"@.len() != "Forbidden"@.len()),
            ErrorCode::NotFound => assert("SeeOther"@[0] != "NotFound"@[0]),
            ErrorCode::MethodNotAllowed => assert("SeeOther"@.len() != "MethodNotAllowed"@.len()),
            ErrorCode::NotAcceptable => assert("SeeOther"@.len() != "NotAcceptable"@.len()),
            ErrorCode::ProxyAuthenticationRequired => assert("SeeOther"@.len() != "ProxyAuthenticationRequired"@.len()),
            ErrorCode::RequestTimeout => assert("SeeOther"@.len() != "RequestTimeout"@.len()),
            ErrorCode::Conflict => assert("SeeOther"@[0] != "Conflict"@[0]),
            ErrorCode::Gone => assert("SeeOther"@.len() != "Gone"@.len()),
            ErrorCode::LengthRequired => assert("SeeOther"@.len() != "LengthRequired"@.len()),
            ErrorCode::PreconditionFailed => assert("SeeOther"@.len() != "PreconditionFailed"@.len()),
            ErrorCode::PayloadTooLarge => assert("SeeOther"@.len() != "PayloadTooLarge"@.len()),
            ErrorCode::UriTooLong => assert("SeeOther"@.len() != "UriTooLong"@.len()),
            ErrorCode::UnsupportedMediaType => assert("SeeOther"@.len() != "UnsupportedMediaType"@.len()),
            ErrorCode::RangeNotSatisfiable => assert("SeeOther"@.len() != "RangeNotSatisfiable"@.len()),
            ErrorCode::ExpectationFailed => assert("SeeOther"@.len() != "ExpectationFailed"@.len()),
            ErrorCode::ImATeapot => assert("SeeOther"@.len() != "ImATeapot"@.len()),
            ErrorCode::MisdirectedRequest => assert("SeeOther"@.len() != "MisdirectedRequest"@.len()),
            ErrorCode::UnprocessableEntity => assert("SeeOther"@.len() != "UnprocessableEntity"@.len()),
            ErrorCode::Locked => assert("SeeOther"@.len() != "Locked"@.len()),
            ErrorCode::FailedDependency => assert("SeeOther"@.len() != "FailedDependency"@.len()),
            ErrorCode::UpgradeRequired => assert("SeeOther"@.len() != "UpgradeRequired"@.len()),
            ErrorCode::PreconditionRequired => assert("SeeOther"@.len() != "PreconditionRequired"@.len()),
            ErrorCode::TooManyRequests => assert("SeeOther"@.len() != "TooManyRequests"@.len()),
            ErrorCode::RequestHeaderFieldsTooLarge => assert("SeeOther"@.len() != "RequestHeaderFieldsTooLarge"@.len()),
            ErrorCode::UnavailableForLegalReasons => assert("SeeOther"@.len() != "UnavailableForLegalReasons"@.len()),
            ErrorCode::InternalServerError => assert("SeeOther"@.len() != "InternalServerError"@.len()),
            ErrorCode::NotImplemented => assert("SeeOther"@.len() != "NotImplemented"@.len()),
            ErrorCode::BadGateway => assert("SeeOther"@.len() != "BadGateway"@.len()),
            ErrorCode::ServiceUnavailable => assert("SeeOther"@.len() != "ServiceUnavailable"@.len()),
            ErrorCode::GatewayTimeout => assert("SeeOther"@.len() != "GatewayTimeout"@.len()),
            ErrorCode::HttpVersionNotSupported => assert("SeeOther"@.len() != "HttpVersionNotSupported"@.len()),
            ErrorCode::VariantAlsoNegotiates => assert("SeeOther"@.len() != "VariantAlsoNegotiates"@.len()),
            ErrorCode::InsufficientStorage => assert("SeeOther"@.len() != "InsufficientStorage"@.len()),
            ErrorCode::LoopDetected => assert("SeeOther"@.len() != "LoopDetected"@.len()),
            ErrorCode::NotExtended => assert("SeeOther"@.len() != "NotExtended"@.len()),
            ErrorCode::NetworkAuthenticationRequired => assert("SeeOther"@.len() != "NetworkAuthenticationRequired"@.len()),
        },
        ErrorCode::NotModified => match b {
            ErrorCode::MultipleChoices => assert("NotModified"@.len() != "MultipleChoices"@.len()),
            ErrorCode::MovedPermanently => assert("NotModified"@.len() != "MovedPermanently"@.len()),
            ErrorCode::Found => assert("NotModified"@.len() != "Found"@.len()),
            ErrorCode::SeeOther => assert("NotModified"@.len() != "SeeOther"@.len()),
            ErrorCode::NotModified => {},
            ErrorCode::UseProxy => assert("NotModified"@.len() != "UseProxy"@.len()),
            ErrorCode::TemporaryRedirect => assert("NotModified"@.len() != "TemporaryRedirect"@.len()),
            ErrorCode::PermanentRedirect => assert("NotModified"@.len() != "PermanentRedirect"@.len()),
            ErrorCode::BadRequest => assert("NotModified"@.len() != "BadRequest"@.len()),
            ErrorCode::Unauthorized => assert("NotModified"@.len() != "Unauthorized"@.len()),
            ErrorCode::PaymentRequired => assert("NotModified"@.len() != "PaymentRequired"@.len()),
            ErrorCode::Forbidden => assert("NotModified"@.len() != "Forbidden"@.len()),
            ErrorCode::NotFound => assert("NotModified"@.len() != "NotFound"@.len()),
            ErrorCode::MethodNotAllowed => assert("NotModified"@.len() != "MethodNotAllowed"@.len()),
            ErrorCode::NotAcceptable => assert("NotModified"@.len() != "NotAcceptable"@.len()),
            ErrorCode::ProxyAuthenticationRequired => assert("NotModified"@.len() != "ProxyAuthenticationRequired"@.len()),
            ErrorCode::RequestTimeout => assert("NotModified"@.len() != "RequestTimeout"@.len()),
            ErrorCode::Conflict => assert("NotModified"@.len() != "Conflict"@.len()),
            ErrorCode::Gone => assert("NotModified"@.len() != "Gone"@.len()),
            ErrorCode::LengthRequired => assert("NotModified"@.len() != "LengthRequired"@.len()),
            ErrorCode::PreconditionFailed => assert("NotModified"@.len() != "PreconditionFailed"@.len()),
            ErrorCode::PayloadTooLarge => assert("NotModified"@.len() != "PayloadTooLarge"@.len()),
            ErrorCode::UriTooLong => assert("NotModified"@.len() != "UriTooLong"@.len()),
            ErrorCode::UnsupportedMediaType => assert("NotModified"@.len() != "UnsupportedMediaType"@.len()),
            ErrorCode::RangeNotSatisfiable => assert("NotModified"@.len() != "RangeNotSatisfiable"@.len()),
            ErrorCode::ExpectationFailed => assert("NotModified"@.len() != "ExpectationFailed"@.len()),
            ErrorCode::ImATeapot => assert("NotModified"@.len() != "ImATeapot"@.len()),
            ErrorCode::MisdirectedRequest => assert("NotModified"@.len() != "MisdirectedRequest"@.len()),
            ErrorCode::UnprocessableEntity => assert("NotModified"@.len() != "UnprocessableEntity"@.len()),
            ErrorCode::Locked => assert("NotModified"@.len() != "Locked"@.len()),
            ErrorCode::FailedDependency => assert("NotModified"@.len() != "FailedDependency"@.len()),
            ErrorCode::UpgradeRequired => assert("NotModified"@.len() != "UpgradeRequired"@.len()),
            ErrorCode::PreconditionRequired => assert("NotModified"@.len() != "PreconditionRequired"@.len()),
            ErrorCode::TooManyRequests => assert("NotModified"@.len() != "TooManyRequests"@.len()),
            ErrorCode::RequestHeaderFieldsTooLarge => assert("NotModified"@.len() != "RequestHeaderFieldsTooLarge"@.len()),
            ErrorCode::UnavailableForLegalReasons => assert("NotModified"@.len() != "UnavailableForLegalReasons"@.len()),
            ErrorCode::InternalServerError => assert("NotModified"@.len() != "InternalServerError"@.len()),
            ErrorCode::NotImplemented => assert("NotModified"@.len() != "NotImplemented"@.len()),
            ErrorCode::BadGateway => assert("NotModified"@.len() != "BadGateway"@.len()),
            ErrorCode::ServiceUnavailable => assert("NotModified"@.len() != "ServiceUnavailable"@.len()),
            ErrorCode::GatewayTimeout => assert("NotModified"@.len() != "GatewayTimeout"@.len()),
            ErrorCode::HttpVersionNotSupported => assert("NotModified"@.len() != "HttpVersionNotSupported"@.len()),
            ErrorCode::VariantAlsoNegotiates => assert("NotModified"@.len() != "VariantAlsoNegotiates"@.len()),
            ErrorCode::InsufficientStorage => assert("NotModified"@.len() != "InsufficientStorage"@.len()),
            ErrorCode::LoopDetected => assert("NotModified"@.len() != "LoopDetected"@.len()),
            ErrorCode::NotExtended => assert("NotModified"@[3] != "NotExtended"@[3]),
            ErrorCode::NetworkAuthenticationRequired => assert("NotModified"@.len() != "NetworkAuthenticationRequired"@.len()),
        },
        ErrorCode::UseProxy => match b {
            ErrorCode::MultipleChoices => assert("UseProxy"@.len() != "MultipleChoices"@.len()),
            ErrorCode::MovedPermanently => assert("UseProxy"@.len() != "MovedPermanently"@.len()),
            ErrorCode::Found => assert("UseProxy"@.len() != "Found"@.len()),
            ErrorCode::SeeOther => assert("UseProxy"@[0] != "SeeOther"@[0]),
            ErrorCode::NotModified => assert("UseProxy"@.len() != "NotModified"@.len()),
            ErrorCode::UseProxy => {},
            ErrorCode::TemporaryRedirect => assert("UseProxy"@.len() != "TemporaryRedirect"@.len()),
            ErrorCode::PermanentRedirect => assert("UseProxy"@.len() != "PermanentRedirect"@.len()),
            ErrorCode::BadRequest => assert("UseProxy"@.len() != "BadRequest"@.len()),
            ErrorCode::Unauthorized => assert("UseProxy"@.len() != "Unauthorized"@.len()),
            ErrorCode::PaymentRequired => assert("UseProxy"@.len() != "PaymentRequired"@.len()),
            ErrorCode::Forbidden => assert("UseProxy"@.len() != "Forbidden"@.len()),
            ErrorCode::NotFound => assert("UseProxy"@[0] != "NotFound"@[0]),
            ErrorCode::MethodNotAllowed => assert("UseProxy"@.len() != "MethodNotAllowed"@.len()),
            ErrorCode::NotAcceptable => assert("UseProxy"@.len() != "NotAcceptable"@.len()),
            ErrorCode::ProxyAuthenticationRequired => assert("UseProxy"@.len() != "ProxyAuthenticationRequired"@.len()),
            ErrorCode::RequestTimeout => assert("UseProxy"@.len() != "RequestTimeout"@.len()),
            ErrorCode::Conflict => assert("UseProxy"@[0] != "Conflict"@[0]),
            ErrorCode::Gone => assert("UseProxy"@.len() != "Gone"@.len()),
            ErrorCode::LengthRequired => assert("UseProxy"@.len() != "LengthRequired"@.len()),
            ErrorCode::PreconditionFailed => assert("UseProxy"@.len() != "PreconditionFailed"@.len()),
            ErrorCode::PayloadTooLarge => assert("UseProxy"@.len() != "PayloadTooLarge"@.len()),
            ErrorCode::UriTooLong => assert("UseProxy"@.len() != "UriTooLong"@.len()),
            ErrorCode::UnsupportedMediaType => assert("UseProxy"@.len() != "UnsupportedMediaType"@.len()),
            ErrorCode::RangeNotSatisfiable => assert("UseProxy"@.len() != "RangeNotSatisfiable"@.len()),
            ErrorCode::ExpectationFailed => assert("UseProxy"@.len() != "ExpectationFailed"@.len()),
            ErrorCode::ImATeapot => assert("UseProxy"@.len() != "ImATeapot"@.len()),
            ErrorCode::MisdirectedRequest => assert("UseProxy"@.len() != "MisdirectedRequest"@.len()),
            ErrorCode::UnprocessableEntity => assert("UseProxy"@.len() != "UnprocessableEntity"@.len()),
            ErrorCode::Locked => assert("UseProxy"@.len() != "Locked"@.len()),
            ErrorCode::FailedDependency => assert("UseProxy"@.len() != "FailedDependency"@.len()),
            ErrorCode::UpgradeRequired => assert("UseProxy"@.len() != "UpgradeRequired"@.len()),
            ErrorCode::PreconditionRequired => assert("UseProxy"@.len() != "PreconditionRequired"@.len()),
            ErrorCode::TooManyRequests => assert("UseProxy"@.len() != "TooManyRequests"@.len()),
            ErrorCode::RequestHeaderFieldsTooLarge => assert("UseProxy"@.len() != "RequestHeaderFieldsTooLarge"@.len()),
            ErrorCode::UnavailableForLegalReasons => assert("UseProxy"@.len() != "UnavailableForLegalReasons"@.len()),
            ErrorCode::InternalServerError => assert("UseProxy"@.len() != "InternalServerError"@.len()),
            ErrorCode::NotImplemented => assert("UseProxy"@.len() != "NotImplemented"@.len()),
            ErrorCode::BadGateway => assert("UseProxy"@.len() != "BadGateway"@.len()),
            ErrorCode::ServiceUnavailable => assert("UseProxy"@.len() != "ServiceUnavailable"@.len()),
            ErrorCode::GatewayTimeout => assert("UseProxy"@.len() != "GatewayTimeout"@.len()),
            ErrorCode::HttpVersionNotSupported => assert("UseProxy"@.len() != "HttpVersionNotSupported"@.len()),
            ErrorCode::VariantAlsoNegotiates => assert("UseProxy"@.len() != "VariantAlsoNegotiates"@.len()),
            ErrorCode::InsufficientStorage => assert("UseProxy"@.len() != "InsufficientStorage"@.len()),
            ErrorCode::LoopDetected => assert("UseProxy"@.len() != "LoopDetected"@.len()),
            ErrorCode::NotExtended => assert("UseProxy"@.len() != "NotExtended"@.len()),
            ErrorCode::NetworkAuthenticationRequired => assert("UseProxy"@.len() != "NetworkAuthenticationRequired"@.len()),
        },
        ErrorCode::TemporaryRedirect => match b {
            ErrorCode::MultipleChoices => assert("TemporaryRedirect"@.len() != "MultipleChoices"@.len()),
            ErrorCode::MovedPermanently => assert("TemporaryRedirect"@.len() != "MovedPermanently"@.len()),
            ErrorCode::Found => assert("TemporaryRedirect"@.len() != "Found"@.len()),
            ErrorCode::SeeOther => assert("TemporaryRedirect"@.len() != "SeeOther"@.len()),
            ErrorCode::NotModified => assert("TemporaryRedirect"@.len() != "NotModified"@.len()),
            ErrorCode::UseProxy => assert("TemporaryRedirect"@.len() != "UseProxy"@.len()),
            ErrorCode::TemporaryRedirect => {},
            ErrorCode::PermanentRedirect => assert("TemporaryRedirect"@[0] != "PermanentRedirect"@[0]),
            ErrorCode::BadRequest => assert("TemporaryRedirect"@.len() != "BadRequest"@.len()),
            ErrorCode::Unauthorized => assert("TemporaryRedirect"@.len() != "Unauthorized"@.len()),
            ErrorCode::PaymentRequired => assert("TemporaryRedirect"@.len() != "PaymentRequired"@.len()),
            ErrorCode::Forbidden => assert("TemporaryRedirect"@.len() != "Forbidden"@.len()),
            ErrorCode::NotFound => assert("TemporaryRedirect"@.len() != "NotFound"@.len()),
            ErrorCode::MethodNotAllowed => assert("TemporaryRedirect"@.len() != "MethodNotAllowed"@.len()),
            ErrorCode::NotAcceptable => assert("TemporaryRedirect"@.len() != "NotAcceptable"@.len()),
            ErrorCode::ProxyAuthenticationRequired => assert("TemporaryRedirect"@.len() != "ProxyAuthenticationRequired"@.len()),
            ErrorCode::RequestTimeout => assert("TemporaryRedirect"@.len() != "RequestTimeout"@.len()),
            ErrorCode::Conflict => assert("TemporaryRedirect"@.len() != "Conflict"@.len()),
            ErrorCode::Gone => assert("TemporaryRedirect"@.len() != "Gone"@.len()),
            ErrorCode::LengthRequired => assert("TemporaryRedirect"@.len() != "LengthRequired"@.len()),
            ErrorCode::PreconditionFailed => assert("TemporaryRedirect"@.len() != "PreconditionFailed"@.len()),
            ErrorCode::PayloadTooLarge => assert("TemporaryRedirect"@.len() != "PayloadTooLarge"@.len()),
            ErrorCode::UriTooLong => assert("TemporaryRedirect"@.len() != "UriTooLong"@.len()),
            ErrorCode::UnsupportedMediaType => assert("TemporaryRedirect"@.len() != "UnsupportedMediaType"@.len()),
            ErrorCode::RangeNotSatisfiable => assert("TemporaryRedirect"@.len() != "RangeNotSatisfiable"@.len()),
            ErrorCode::ExpectationFailed => assert("TemporaryRedirect"@[0] != "ExpectationFailed"@[0]),
            ErrorCode::ImATeapot => assert("TemporaryRedirect"@.len() != "ImATeapot"@.len()),
            ErrorCode::MisdirectedRequest => assert("TemporaryRedirect"@.len() != "MisdirectedRequest"@.len()),
            ErrorCode::UnprocessableEntity => assert("TemporaryRedirect"@.len() != "UnprocessableEntity"@.len()),
            ErrorCode::Locked => assert("TemporaryRedirect"@.len() != "Locked"@.len()),
            ErrorCode::FailedDependency => assert("TemporaryRedirect"@.len() != "FailedDependency"@.len()),
            ErrorCode::UpgradeRequired => assert("TemporaryRedirect"@.len() != "UpgradeRequired"@.len()),
            ErrorCode::PreconditionRequired => assert("TemporaryRedirect"@.len() != "PreconditionRequired"@.len()),
            ErrorCode::TooManyRequests => assert("TemporaryRedirect"@.len() != "TooManyRequests"@.len()),
            ErrorCode::RequestHeaderFieldsTooLarge => assert("TemporaryRedirect"@.len() != "RequestHeaderFieldsTooLarge"@.len()),
            ErrorCode::UnavailableForLegalReasons => assert("TemporaryRedirect"@.len() != "UnavailableForLegalReasons"@.len()),
            ErrorCode::InternalServerError => assert("TemporaryRedirect"@.len() != "InternalServerError"@.len()),
            ErrorCode::NotImplemented => assert("TemporaryRedirect"@.len() != "NotImplemented"@.len()),
            ErrorCode::BadGateway => assert("TemporaryRedirect"@.len() != "BadGateway"@.len()),
            ErrorCode::ServiceUnavailable => assert("TemporaryRedirect"@.len() != "ServiceUnavailable"@.len()),
            ErrorCode::GatewayTimeout => assert("TemporaryRedirect"@.len() != "GatewayTimeout"@.len()),
            ErrorCode::HttpVersionNotSupported => assert("TemporaryRedirect"@.len() != "HttpVersionNotSupported"@.len()),
            ErrorCode::VariantAlsoNegotiates => assert("TemporaryRedirect"@.len() != "VariantAlsoNegotiates"@.len()),
            ErrorCode::InsufficientStorage => assert("TemporaryRedirect"@.len() != "InsufficientStorage"@.len()),
            ErrorCode::LoopDetected => assert("TemporaryRedirect"@.len() != "LoopDetected"@.len()),
            ErrorCode::NotExtended => assert("TemporaryRedirect"@.len() != "NotExtended"@.len()),
            ErrorCode::NetworkAuthenticationRequired => assert("TemporaryRedirect"@.len() != "NetworkAuthenticationRequired"@.len()),
        },
        ErrorCode::PermanentRedirect => match b {
            ErrorCode::MultipleChoices => assert("PermanentRedirect"@.len() != "MultipleChoices"@.len()),
            ErrorCode::MovedPermanently => assert("PermanentRedirect"@.len() != "MovedPermanently"@.len()),
            ErrorCode::Found => assert("PermanentRedirect"@.len() != "Found"@.len()),
            ErrorCode::SeeOther => assert("PermanentRedirect"@.len() != "SeeOther"@.len()),
            ErrorCode::NotModified => assert("PermanentRedirect"@.len() != "NotModified"@.len()),
            ErrorCode::UseProxy => assert("PermanentRedirect"@.len() != "UseProxy"@.len()),
            ErrorCode::TemporaryRedirect => assert("PermanentRedirect"@[0] != "TemporaryRedirect"@[0]),
            ErrorCode::PermanentRedirect => {},
            ErrorCode::BadRequest => assert("PermanentRedirect"@.len() != "BadRequest"@.len()),
            ErrorCode::Unauthorized => assert("PermanentRedirect"@.len() != "Unauthorized"@.len()),
            ErrorCode::PaymentRequired => assert("PermanentRedirect"@.len() != "PaymentRequired"@.len()),
            ErrorCode::Forbidden => assert("PermanentRedirect"@.len() != "Forbidden"@.len()),
            ErrorCode::NotFound => assert("PermanentRedirect"@.len() != "NotFound"@.len()),
            ErrorCode::MethodNotAllowed => assert("PermanentRedirect"@.len() != "MethodNotAllowed"@.len()),
            ErrorCode::NotAcceptable => assert("PermanentRedirect"@.len() != "NotAcceptable"@.len()),
            ErrorCode::ProxyAuthenticationRequired => assert("PermanentRedirect"@.len() != "ProxyAuthenticationRequired"@.len()),
            ErrorCode::RequestTimeout => assert("PermanentRedirect"@.len() != "RequestTimeout"@.len()),
            ErrorCode::Conflict => assert("PermanentRedirect"@.len() != "Conflict"@.len()),
            ErrorCode::Gone => assert("PermanentRedirect"@.len() != "Gone"@.len()),
            ErrorCode::LengthRequired => assert("PermanentRedirect"@.len() != "LengthRequired"@.len()),
            ErrorCode::PreconditionFailed => assert("PermanentRedirect"@.len() != "PreconditionFailed"@.len()),
            ErrorCode::PayloadTooLarge => assert("PermanentRedirect"@.len() != "PayloadTooLarge"@.len()),
            ErrorCode::UriTooLong => assert("PermanentRedirect"@.len() != "UriTooLong"@.len()),
            ErrorCode::UnsupportedMediaType => assert("PermanentRedirect"@.len() != "UnsupportedMediaType"@.len()),
            ErrorCode::RangeNotSatisfiable => assert("PermanentRedirect"@.len() != "RangeNotSatisfiable"@.len()),
            ErrorCode::ExpectationFailed => assert("PermanentRedirect"@[0] != "ExpectationFailed"@[0]),
            ErrorCode::ImATeapot => assert("PermanentRedirect"@.len() != "ImATeapot"@.len()),
            ErrorCode::MisdirectedRequest => assert("PermanentRedirect"@.len() != "MisdirectedRequest"@.len()),
            ErrorCode::UnprocessableEntity => assert("PermanentRedirect"@.len() != "UnprocessableEntity"@.len()),
            ErrorCode::Locked => assert("PermanentRedirect"@.len() != "Locked"@.len()),
            ErrorCode::FailedDependency => assert("PermanentRedirect"@.len() != "FailedDependency"@.len()),
            ErrorCode::UpgradeRequired => assert("PermanentRedirect"@.len() != "UpgradeRequired"@.len()),
            ErrorCode::PreconditionRequired => assert("PermanentRedirect"@.len() != "PreconditionRequired"@.len()),
            ErrorCode::TooManyRequests => assert("PermanentRedirect"@.len() != "TooManyRequests"@.len()),
            ErrorCode::RequestHeaderFieldsTooLarge => assert("PermanentRedirect"@.len() != "RequestHeaderFieldsTooLarge"@.len()),
            ErrorCode::UnavailableForLegalReasons => assert("PermanentRedirect"@.len() != "UnavailableForLegalReasons"@.len()),
            ErrorCode::InternalServerError => assert("PermanentRedirect"@.len() != "InternalServerError"@.len()),
            ErrorCode::NotImplemented => assert("PermanentRedirect"@.len() != "NotImplemented"@.len()),
            ErrorCode::BadGateway => assert("PermanentRedirect"@.len() != "BadGateway"@.len()),
            ErrorCode::ServiceUnavailable => assert("PermanentRedirect"@.len() != "ServiceUnavailable"@.len()),
            ErrorCode::GatewayTimeout => assert("PermanentRedirect"@.len() != "GatewayTimeout"@.len()),
            ErrorCode::HttpVersionNotSupported => assert("PermanentRedirect"@.len() != "HttpVersionNotSupported"@.len()),
            ErrorCode::VariantAlsoNegotiates => assert("PermanentRedirect"@.len() != "VariantAlsoNegotiates"@.len()),
            ErrorCode::InsufficientStorage => assert("PermanentRedirect"@.len() != "InsufficientStorage"@.len()),
            ErrorCode::LoopDetected => assert("PermanentRedirect"@.len() != "LoopDetected"@.len()),
            ErrorCode::NotExtended => assert("PermanentRedirect"@.len() != "NotExtended"@.len()),
            ErrorCode::NetworkAuthenticationRequired => assert("PermanentRedirect"@.len() != "NetworkAuthenticationRequired"@.len()),
        },
        ErrorCode::BadRequest => match b {
            ErrorCode::MultipleChoices => assert("BadRequest"@.len() != "MultipleChoices"@.len()),
            ErrorCode::MovedPermanently => assert("BadRequest"@.len() != "MovedPermanently"@.len()),
            ErrorCode::Found => assert("BadRequest"@.len() != "Found"@.len()),
            ErrorCode::SeeOther => assert("BadRequest"@.len() != "SeeOther"@.len()),
            ErrorCode::NotModified => assert("BadRequest"@.len() != "NotModified"@.len()),
            ErrorCode::UseProxy => assert("BadRequest"@.len() != "UseProxy"@.len()),
            ErrorCode::TemporaryRedirect => assert("BadRequest"@.len() != "TemporaryRedirect"@.len()),
            ErrorCode::PermanentRedirect => assert("BadRequest"@.len() != "PermanentRedirect"@.len()),
            ErrorCode::BadRequest => {},
            ErrorCode::Unauthorized => assert("BadRequest"@.len() != "Unauthorized"@.len()),
            ErrorCode::PaymentRequired => assert("BadRequest"@.len() != "PaymentRequired"@.len()),
            ErrorCode::Forbidden => assert("BadRequest"@.len() != "Forbidden"@.len()),
            ErrorCode::NotFound => assert("BadRequest"@.len() != "NotFound"@.len()),
            ErrorCode::MethodNotAllowed => assert("BadRequest"@.len() != "MethodNotAllowed"@.len()),
            ErrorCode::NotAcceptable => assert("BadRequest"@.len() != "NotAcceptable"@.len()),
            ErrorCode::ProxyAuthenticationRequired => assert("BadRequest"@.len() != "ProxyAuthenticationRequired"@.len()),
            ErrorCode::RequestTimeout => assert("BadRequest"@.len() != "RequestTimeout"@.len()),
            ErrorCode::Conflict => assert("BadRequest"@.len() != "Conflict"@.len()),
            ErrorCode::Gone => assert("BadRequest"@.len() != "Gone"@.len()),
            ErrorCode::LengthRequired => assert("BadRequest"@.len() != "LengthRequired"@.len()),
            ErrorCode::PreconditionFailed => assert("BadRequest"@.len() != "PreconditionFailed"@.len()),
            ErrorCode::PayloadTooLarge => assert("BadRequest"@.len() != "PayloadTooLarge"@.len()),
            ErrorCode::UriTooLong => assert("BadRequest"@[0] != "UriTooLong"@[0]),
            ErrorCode::UnsupportedMediaType => assert("BadRequest"@.len() != "UnsupportedMediaType"@.len()),
            ErrorCode::RangeNotSatisfiable => assert("BadRequest"@.len() != "RangeNotSatisfiable"@.len()),
            ErrorCode::ExpectationFailed => assert("BadRequest"@.len() != "ExpectationFailed"@.len()),
            ErrorCode::ImATeapot => assert("BadRequest"@.len() != "ImATeapot"@.len()),
            ErrorCode::MisdirectedRequest => assert("BadRequest"@.len() != "MisdirectedRequest"@.len()),
            ErrorCode::UnprocessableEntity => assert("BadRequest"@.len() != "UnprocessableEntity"@.len()),
            ErrorCode::Locked => assert("BadRequest"@.len() != "Locked"@.len()),
            ErrorCode::FailedDependency => assert("BadRequest"@.len() != "FailedDependency"@.len()),
            ErrorCode::UpgradeRequired => assert("BadRequest"@.len() != "UpgradeRequired"@.len()),
            ErrorCode::PreconditionRequired => assert("BadRequest"@.len() != "PreconditionRequired"@.len()),
            ErrorCode::TooManyRequests => assert("BadRequest"@.len() != "TooManyRequests"@.len()),
            ErrorCode::RequestHeaderFieldsTooLarge => assert("BadRequest"@.len() != "RequestHeaderFieldsTooLarge"@.len()),
            ErrorCode::UnavailableForLegalReasons => assert("BadRequest"@.len() != "UnavailableForLegalReasons"@.len()),
            ErrorCode::InternalServerError => assert("BadRequest"@.len() != "InternalServerError"@.len()),
            ErrorCode::NotImplemented => assert("BadRequest"@.len() != "NotImplemented"@.len()),
            ErrorCode::BadGateway => assert("BadRequest"@[3] != "BadGateway"@[3]),
            ErrorCode::ServiceUnavailable => assert("BadRequest"@.len() != "ServiceUnavailable"@.len()),
            ErrorCode::GatewayTimeout => assert("BadRequest"@.len() != "GatewayTimeout"@.len()),
            ErrorCode::HttpVersionNotSupported => assert("BadRequest"@.len() != "HttpVersionNotSupported"@.len()),
            ErrorCode::VariantAlsoNegotiates => assert("BadRequest"@.len() != "VariantAlsoNegotiates"@.len()),
            ErrorCode::InsufficientStorage => assert("BadRequest"@.len() != "InsufficientStorage"@.len()),
            ErrorCode::LoopDetected => assert("BadRequest"@.len() != "LoopDetected"@.len()),
            ErrorCode::NotExtended => assert("BadRequest"@.len() != "NotExtended"@.len()),
            ErrorCode::NetworkAuthenticationRequired => assert("BadRequest"@.len() != "NetworkAuthenticationRequired"@.len()),
        },
        ErrorCode::Unauthorized => match b {
            ErrorCode::MultipleChoices => assert("Unauthorized"@.len() != "MultipleChoices"@.len()),
            ErrorCode::MovedPermanently => assert("Unauthorized"@.len() != "MovedPermanently"@.len()),
            ErrorCode::Found => assert("Unauthorized"@.len() != "Found"@.len()),
            ErrorCode::SeeOther => assert("Unauthorized"@.len() != "SeeOther"@.len()),
            ErrorCode::NotModified => assert("Unauthorized"@.len() != "NotModified"@.len()),
            ErrorCode::UseProxy => assert("Unauthorized"@.len() != "UseProxy"@.len()),
            ErrorCode::TemporaryRedirect => assert("Unauthorized"@.len() != "TemporaryRedirect"@.len()),
            ErrorCode::PermanentRedirect => assert("Unauthorized"@.len() != "PermanentRedirect"@.len()),
            ErrorCode::BadRequest => assert("Unauthorized"@.len() != "BadRequest"@.len()),
            ErrorCode::Unauthorized => {},
            ErrorCode::PaymentRequired => assert("Unauthorized"@.len() != "PaymentRequired"@.len()),
            ErrorCode::Forbidden => assert("Unauthorized"@.len() != "Forbidden"@.len()),
            ErrorCode::NotFound => assert("Unauthorized"@.len() != "NotFound"@.len()),
            ErrorCode::MethodNotAllowed => assert("Unauthorized"@.len() != "MethodNotAllowed"@.len()),
            ErrorCode::NotAcceptable => assert("Unauthorized"@.len() != "NotAcceptable"@.len()),
            ErrorCode::ProxyAuthenticationRequired => assert("Unauthorized"@.len() != "ProxyAuthenticationRequired"@.len()),
            ErrorCode::RequestTimeout => assert("Unauthorized"@.len() != "RequestTimeout"@.len()),
            ErrorCode::Conflict => assert("Unauthorized"@.len() != "Conflict"@.len()),
            ErrorCode::Gone => assert("Unauthorized"@.len() != "Gone"@.len()),
            ErrorCode::LengthRequired => assert("Unauthorized"@.len() != "LengthRequired"@.len()),
            ErrorCode::PreconditionFailed => assert("Unauthorized"@.len() != "PreconditionFailed"@.len()),
            ErrorCode::PayloadTooLarge => assert("Unauthorized"@.len() != "PayloadTooLarge"@.len()),
            ErrorCode::UriTooLong => assert("Unauthorized"@.len() != "UriTooLong"@.len()),
            ErrorCode::UnsupportedMediaType => assert("Unauthorized"@.len() != "UnsupportedMediaType"@.len()),
            ErrorCode::RangeNotSatisfiable => assert("Unauthorized"@.len() != "RangeNotSatisfiable"@.len()),
            ErrorCode::ExpectationFailed => assert("Unauthorized"@.len() != "ExpectationFailed"@.len()),
            ErrorCode::ImATeapot => assert("Unauthorized"@.len() != "ImATeapot"@.len()),
            ErrorCode::MisdirectedRequest => assert("Unauthorized"@.len() != "MisdirectedRequest"@.len()),
            ErrorCode::UnprocessableEntity => assert("Unauthorized"@.len() != "UnprocessableEntity"@.len()),
            ErrorCode::Locked => assert("Unauthorized"@.len() != "Locked"@.len()),
            ErrorCode::FailedDependency => assert("Unauthorized"@.len() != "FailedDependency"@.len()),
            ErrorCode::UpgradeRequired => assert("Unauthorized"@.len() != "UpgradeRequired"@.len()),
            ErrorCode::PreconditionRequired => assert("Unauthorized"@.len() != "PreconditionRequired"@.len()),
            ErrorCode::TooManyRequests => assert("Unauthorized"@.len() != "TooManyRequests"@.len()),
            ErrorCode::RequestHeaderFieldsTooLarge => assert("Unauthorized"@.len() != "RequestHeaderFieldsTooLarge"@.len()),
            ErrorCode::UnavailableForLegalReasons => assert("Unauthorized"@.len() != "UnavailableForLegalReasons"@.len()),
            ErrorCode::InternalServerError => assert("Unauthorized"@.len() != "InternalServerError"@.len()),
            ErrorCode::NotImplemented => assert("Unauthorized"@.len() != "NotImplemented"@.len()),
            ErrorCode::BadGateway => assert("Unauthorized"@.len() != "BadGateway"@.len()),
            ErrorCode::ServiceUnavailable => assert("Unauthorized"@.len() != "ServiceUnavailable"@.len()),
            ErrorCode::GatewayTimeout => assert("Unauthorized"@.len() != "GatewayTimeout"@.len()),
            ErrorCode::HttpVersionNotSupported => assert("Unauthorized"@.len() != "HttpVersionNotSupported"@.len()),
            ErrorCode::VariantAlsoNegotiates => assert("Unauthorized"@.len() != "VariantAlsoNegotiates"@.len()),
            ErrorCode::InsufficientStorage => assert("Unauthorized"@.len() != "InsufficientStorage"@.len()),
            ErrorCode::LoopDetected => assert("Unauthorized"@[0] != "LoopDetected"@[0]),
            ErrorCode::NotExtended => assert("Unauthorized"@.len() != "NotExtended"@.len()),
            ErrorCode::NetworkAuthenticationRequired => assert("Unauthorized"@.len() != "NetworkAuthenticationRequired"@.len()),
        },
        ErrorCode::PaymentRequired => match b {
            ErrorCode::MultipleChoices => assert("PaymentRequired"@[0] != "MultipleChoices"@[0]),
            ErrorCode::MovedPermanently => assert("PaymentRequired"@.len() != "MovedPermanently"@.len()),
            ErrorCode::Found => assert("PaymentRequired"@.len() != "Found"@.len()),
            ErrorCode::SeeOther => assert("PaymentRequired"@.len() != "SeeOther"@.len()),
            ErrorCode::NotModified => assert("PaymentRequired"@.len() != "NotModified"@.len()),
            ErrorCode::UseProxy => assert("PaymentRequired"@.len() != "UseProxy"@.len()),
            ErrorCode::TemporaryRedirect => assert("PaymentRequired"@.len() != "TemporaryRedirect"@.len()),
            ErrorCode::PermanentRedirect => assert("PaymentRequired"@.len() != "PermanentRedirect"@.len()),
            ErrorCode::BadRequest => assert("PaymentRequired"@.len() != "BadRequest"@.len()),
            ErrorCode::Unauthorized => assert("PaymentRequired"@.len() != "Unauthorized"@.len()),
            ErrorCode::PaymentRequired => {},
            ErrorCode::Forbidden => assert("PaymentRequired"@.len() != "Forbidden"@.len()),
            ErrorCode::NotFound => assert("PaymentRequired"@.len() != "NotFound"@.len()),
            ErrorCode::MethodNotAllowed => assert("PaymentRequired"@.len() != "MethodNotAllowed"@.len()),
            ErrorCode::NotAcceptable => assert("PaymentRequired"@.len() != "NotAcceptable"@.len()),
            ErrorCode::ProxyAuthenticationRequired => assert("PaymentRequired"@.len() != "ProxyAuthenticationRequired"@.len()),
            ErrorCode::RequestTimeout => assert("PaymentRequired"@.len() != "RequestTimeout"@.len()),
            ErrorCode::Conflict => assert("PaymentRequired"@.len() != "Conflict"@.len()),
            ErrorCode::Gone => assert("PaymentRequired"@.len() != "Gone"@.len()),
            ErrorCode::LengthRequired => assert("PaymentRequired"@.len() != "LengthRequired"@.len()),
            ErrorCode::PreconditionFailed => assert("PaymentRequired"@.len() != "PreconditionFailed"@.len()),
            ErrorCode::PayloadTooLarge => assert("PaymentRequired"@[3] != "PayloadTooLarge"@[3]),
            ErrorCode::UriTooLong => assert("PaymentRequired"@.len() != "UriTooLong"@.len()),
            ErrorCode::UnsupportedMediaType => assert("PaymentRequired"@.len() != "UnsupportedMediaType"@.len()),
            ErrorCode::RangeNotSatisfiable => assert("PaymentRequired"@.len() != "RangeNotSatisfiable"@.len()),
            ErrorCode::ExpectationFailed => assert("PaymentRequired"@.len() != "ExpectationFailed"@.len()),
            ErrorCode::ImATeapot => assert("PaymentRequired"@.len() != "ImATeapot"@.len()),
            ErrorCode::MisdirectedRequest => assert("PaymentRequired"@.len() != "MisdirectedRequest"@.len()),
            ErrorCode::UnprocessableEntity => assert("PaymentRequired"@.len() != "UnprocessableEntity"@.len()),
            ErrorCode::Locked => assert("PaymentRequired"@.len() != "Locked"@.len()),
            ErrorCode::FailedDependency => assert("PaymentRequired"@.len() != "FailedDependency"@.len()),
            ErrorCode::UpgradeRequired => assert("PaymentRequired"@[0] != "UpgradeRequired"@[0]),
            ErrorCode::PreconditionRequired => assert("PaymentRequired"@.len() != "PreconditionRequired"@.len()),
            ErrorCode::TooManyRequests => assert("PaymentRequired"@[0] != "TooManyRequests"@[0]),
            ErrorCode::RequestHeaderFieldsTooLarge => assert("PaymentRequired"@.len() != "RequestHeaderFieldsTooLarge"@.len()),
            ErrorCode::UnavailableForLegalReasons => assert("PaymentRequired"@.len() != "UnavailableForLegalReasons"@.len()),
            ErrorCode::InternalServerError => assert("PaymentRequired"@.len() != "InternalServerError"@.len()),
            ErrorCode::NotImplemented => assert("PaymentRequired"@.len() != "NotImplemented"@.len()),
            ErrorCode::BadGateway => assert("PaymentRequired"@.len() != "BadGateway"@.len()),
            ErrorCode::ServiceUnavailable => assert("PaymentRequired"@.len() != "ServiceUnavailable"@.len()),
            ErrorCode::GatewayTimeout => assert("PaymentRequired"@.len() != "GatewayTimeout"@.len()),
            ErrorCode::HttpVersionNotSupported => assert("PaymentRequired"@.len() != "HttpVersionNotSupported"@.len()),
            ErrorCode::VariantAlsoNegotiates => assert("PaymentRequired"@.len() != "VariantAlsoNegotiates"@.len()),
            ErrorCode::InsufficientStorage => assert("PaymentRequired"@.len() != "InsufficientStorage"@.len()),
            ErrorCode::LoopDetected => assert("PaymentRequired"@.len() != "LoopDetected"@.len()),
            ErrorCode::NotExtended => assert("PaymentRequired"@.len() != "NotExtended"@.len()),
            ErrorCode::NetworkAuthenticationRequired => assert("PaymentRequired"@.len() != "NetworkAuthenticationRequired"@.len()),
        },
        ErrorCode::Forbidden => match b {
            ErrorCode::MultipleChoices => assert("Forbidden"@.len() != "MultipleChoices"@.len()),
            ErrorCode::MovedPermanently => assert("Forbidden"@.len() != "MovedPermanently"@.len()),
            ErrorCode::Found => assert("Forbidden"@.len() != "Found"@.len()),
            ErrorCode::SeeOther => assert("Forbidden"@.len() != "SeeOther"@.len()),
            ErrorCode::NotModified => assert("Forbidden"@.len() != "NotModified"@.len()),
            ErrorCode::UseProxy => assert("Forbidden"@.len() != "UseProxy"@.len()),
            ErrorCode::TemporaryRedirect => assert("Forbidden"@.len() != "TemporaryRedirect"@.len()),
            ErrorCode::PermanentRedirect => assert("Forbidden"@.len() != "PermanentRedirect"@.len()),
            ErrorCode::BadRequest => assert("Forbidden"@.len() != "BadRequest"@.len()),
            ErrorCode::Unauthorized => assert("Forbidden"@.len() != "Unauthorized"@.len()),
            ErrorCode::PaymentRequired => assert("Forbidden"@.len() != "PaymentRequired"@.len()),
            ErrorCode::Forbidden => {},
            ErrorCode::NotFound => assert("Forbidden"@.len() != "NotFound"@.len()),
            ErrorCode::MethodNotAllowed => assert("Forbidden"@.len() != "MethodNotAllowed"@.len()),
            ErrorCode::NotAcceptable => assert("Forbidden"@.len() != "NotAcceptable"@.len()),
            ErrorCode::ProxyAuthenticationRequired => assert("Forbidden"@.len() != "ProxyAuthenticationRequired"@.len()),
            ErrorCode::RequestTimeout => assert("Forbidden"@.len() != "RequestTimeout"@.len()),
            ErrorCode::Conflict => assert("Forbidden"@.len() != "Conflict"@.len()),
            ErrorCode::Gone => assert("Forbidden"@.len() != "Gone"@.len()),
            ErrorCode::LengthRequired => assert("Forbidden"@.len() != "LengthRequired"@.len()),
            ErrorCode::PreconditionFailed => assert("Forbidden"@.len() != "PreconditionFailed"@.len()),
            ErrorCode::PayloadTooLarge => assert("Forbidden"@.len() != "PayloadTooLarge"@.len()),
            ErrorCode::UriTooLong => assert("Forbidden"@.len() != "UriTooLong"@.len()),
            ErrorCode::UnsupportedMediaType => assert("Forbidden"@.len() != "UnsupportedMediaType"@.len()),
            ErrorCode::RangeNotSatisfiable => assert("Forbidden"@.len() != "RangeNotSatisfiable"@.len()),
            ErrorCode::ExpectationFailed => assert("Forbidden"@.len() != "ExpectationFailed"@.len()),
            ErrorCode::ImATeapot => assert("Forbidden"@[0] != "ImATeapot"@[0]),
            ErrorCode::MisdirectedRequest => assert("Forbidden"@.len() != "MisdirectedRequest"@.len()),
            ErrorCode::UnprocessableEntity => assert("Forbidden"@.len() != "UnprocessableEntity"@.len()),
            ErrorCode::Locked => assert("Forbidden"@.len() != "Locked"@.len()),
            ErrorCode::FailedDependency => assert("Forbidden"@.len() != "FailedDependency"@.len()),
            ErrorCode::UpgradeRequired => assert("Forbidden"@.len() != "UpgradeRequired"@.len()),
            ErrorCode::PreconditionRequired => assert("Forbidden"@.len() != "PreconditionRequired"@.len()),
            ErrorCode::TooManyRequests => assert("Forbidden"@.len() != "TooManyRequests"@.len()),
            ErrorCode::RequestHeaderFieldsTooLarge => assert("Forbidden"@.len() != "RequestHeaderFieldsTooLarge"@.len()),
            ErrorCode::UnavailableForLegalReasons => assert("Forbidden"@.len() != "UnavailableForLegalReasons"@.len()),
            ErrorCode::InternalServerError => assert("Forbidden"@.len() != "InternalServerError"@.len()),
            ErrorCode::NotImplemented => assert("Forbidden"@.len() != "NotImplemented"@.len()),
            ErrorCode::BadGateway => assert("Forbidden"@.len() != "BadGateway"@.len()),
            ErrorCode::ServiceUnavailable => assert("Forbidden"@.len() != "ServiceUnavailable"@.len()),
            ErrorCode::GatewayTimeout => assert("Forbidden"@.len() != "GatewayTimeout"@.len()),
            ErrorCode::HttpVersionNotSupported => assert("Forbidden"@.len() != "HttpVersionNotSupported"@.len()),
            ErrorCode::VariantAlsoNegotiates => assert("Forbidden"@.len() != "VariantAlsoNegotiates"@.len()),
            ErrorCode::InsufficientStorage => assert("Forbidden"@.len() != "InsufficientStorage"@.len()),
            ErrorCode::LoopDetected => assert("Forbidden"@.len() != "LoopDetected"@.len()),
            ErrorCode::NotExtended => assert("Forbidden"@.len() != "NotExtended"@.len()),
            ErrorCode::NetworkAuthenticationRequired => assert("Forbidden"@.len() != "NetworkAuthenticationRequired"@.len()),
        },
        ErrorCode::NotFound => match b {
            ErrorCode::MultipleChoices => assert("NotFound"@.len() != "MultipleChoices"@.len()),
            ErrorCode::MovedPermanently => assert("NotFound"@.len() != "MovedPermanently"@.len()),
            ErrorCode::Found => assert("NotFound"@.len() != "Found"@.len()),
            ErrorCode::SeeOther => assert("NotFound"@[0] != "SeeOther"@[0]),
            ErrorCode::NotModified => assert("NotFound"@.len() != "NotModified"@.len()),
            ErrorCode::UseProxy => assert("NotFound"@[0] != "UseProxy"@[0]),
            ErrorCode::TemporaryRedirect => assert("NotFound"@.len() != "TemporaryRedirect"@.len()),
            ErrorCode::PermanentRedirect => assert("NotFound"@.len() != "PermanentRedirect"@.len()),
            ErrorCode::BadRequest => assert("NotFound"@.len() != "BadRequest"@.len()),
            ErrorCode::Unauthorized => assert("NotFound"@.len() != "Unauthorized"@.len()),
            ErrorCode::PaymentRequired => assert("NotFound"@.len() != "PaymentRequired"@.len()),
            ErrorCode::Forbidden => assert("NotFound"@.len() != "Forbidden"@.len()),
            ErrorCode::NotFound => {},
            ErrorCode::MethodNotAllowed => assert("NotFound"@.len() != "MethodNotAllowed"@.len()),
            ErrorCode::NotAcceptable => assert("NotFound"@.len() != "NotAcceptable"@.len()),
            ErrorCode::ProxyAuthenticationRequired => assert("NotFound"@.len() != "ProxyAuthenticationRequired"@.len()),
            ErrorCode::RequestTimeout => assert("NotFound"@.len() != "RequestTimeout"@.len()),
            ErrorCode::Conflict => assert("NotFound"@[0] != "Conflict"@[0]),
            ErrorCode::Gone => assert("NotFound"@.len() != "Gone"@.len()),
            ErrorCode::LengthRequired => assert("NotFound"@.len() != "LengthRequired"@.len()),
            ErrorCode::PreconditionFailed => assert("NotFound"@.len() != "PreconditionFailed"@.len()),
            ErrorCode::PayloadTooLarge => assert("NotFound"@.len() != "PayloadTooLarge"@.len()),
            ErrorCode::UriTooLong => assert("NotFound"@.len() != "UriTooLong"@.len()),
            ErrorCode::UnsupportedMediaType => assert("NotFound"@.len() != "UnsupportedMediaType"@.len()),
            ErrorCode::RangeNotSatisfiable => assert("NotFound"@.len() != "RangeNotSatisfiable"@.len()),
            ErrorCode::ExpectationFailed => assert("NotFound"@.len() != "ExpectationFailed"@.len()),
            ErrorCode::ImATeapot => assert("NotFound"@.len() != "ImATeapot"@.len()),
            ErrorCode::MisdirectedRequest => assert("NotFound"@.len() != "MisdirectedRequest"@.len()),
            ErrorCode::UnprocessableEntity => assert("NotFound"@.len() != "UnprocessableEntity"@.len()),
            ErrorCode::Locked => assert("NotFound"@.len() != "Locked"@.len()),
            ErrorCode::FailedDependency => assert("NotFound"@.len() != "FailedDependency"@.len()),
            ErrorCode::UpgradeRequired => assert("NotFound"@.len() != "UpgradeRequired"@.len()),
            ErrorCode::PreconditionRequired => assert("NotFound"@.len() != "PreconditionRequired"@.len()),
            ErrorCode::TooManyRequests => assert("NotFound"@.len() != "TooManyRequests"@.len()),
            ErrorCode::RequestHeaderFieldsTooLarge => assert("NotFound"@.len() != "RequestHeaderFieldsTooLarge"@.len()),
            ErrorCode::UnavailableForLegalReasons => assert("NotFound"@.len() != "UnavailableForLegalReasons"@.len()),
            ErrorCode::InternalServerError => assert("NotFound"@.len() != "InternalServerError"@.len()),
            ErrorCode::NotImplemented => assert("NotFound"@.len() != "NotImplemented"@.len()),
            ErrorCode::BadGateway => assert("NotFound"@.len() != "BadGateway"@.len()),
            ErrorCode::ServiceUnavailable => assert("NotFound"@.len() != "ServiceUnavailable"@.len()),
            ErrorCode::GatewayTimeout => assert("NotFound"@.len() != "GatewayTimeout"@.len()),
            ErrorCode::HttpVersionNotSupported => assert("NotFound"@.len() != "HttpVersionNotSupported"@.len()),
            ErrorCode::VariantAlsoNegotiates => assert("NotFound"@.len() != "VariantAlsoNegotiates"@.len()),
            ErrorCode::InsufficientStorage => assert("NotFound"@.len() != "InsufficientStorage"@.len()),
            ErrorCode::LoopDetected => assert("NotFound"@.len() != "LoopDetected"@.len()),
            ErrorCode::NotExtended => assert("NotFound"@.len() != "NotExtended"@.len()),
            ErrorCode::NetworkAuthenticationRequired => assert("NotFound"@.len() != "NetworkAuthenticationRequired"@.len()),
        },
        ErrorCode::MethodNotAllowed => match b {
            ErrorCode::MultipleChoices => assert("MethodNotAllowed"@.len() != "MultipleChoices"@.len()),
            ErrorCode::MovedPermanently => assert("MethodNotAllowed"@[1] != "MovedPermanently"@[1]),
            ErrorCode::Found => assert("MethodNotAllowed"@.len() != "Found"@.len()),
            ErrorCode::SeeOther => assert("MethodNotAllowed"@.len() != "SeeOther"@.len()),
            ErrorCode::NotModified => assert("MethodNotAllowed"@.len() != "NotModified"@.len()),
            ErrorCode::UseProxy => assert("MethodNotAllowed"@.len() != "UseProxy"@.len()),
            ErrorCode::TemporaryRedirect => assert("MethodNotAllowed"@.len() != "TemporaryRedirect"@.len()),
            ErrorCode::PermanentRedirect => assert("MethodNotAllowed"@.len() != "PermanentRedirect"@.len()),
            ErrorCode::BadRequest => assert("MethodNotAllowed"@.len() != "BadRequest"@.len()),
            ErrorCode::Unauthorized => assert("MethodNotAllowed"@.len() != "Unauthorized"@.len()),
            ErrorCode::PaymentRequired => assert("MethodNotAllowed"@.len() != "PaymentRequired"@.len()),
            ErrorCode::Forbidden => assert("MethodNotAllowed"@.len() != "Forbidden"@.len()),
            ErrorCode::NotFound => assert("MethodNotAllowed"@.len() != "NotFound"@.len()),
            ErrorCode::MethodNotAllowed => {},
            ErrorCode::NotAcceptable => assert("MethodNotAllowed"@.len() != "NotAcceptable"@.len()),
            ErrorCode::ProxyAuthenticationRequired => assert("MethodNotAllowed"@.len() != "ProxyAuthenticationRequired"@.len()),
            ErrorCode::RequestTimeout => assert("MethodNotAllowed"@.len() != "RequestTimeout"@.len()),
            ErrorCode::Conflict => assert("MethodNotAllowed"@.len() != "Conflict"@.len()),
            ErrorCode::Gone => assert("MethodNotAllowed"@.len() != "Gone"@.len()),
            ErrorCode::LengthRequired => assert("MethodNotAllowed"@.len() != "LengthRequired"@.len()),
            ErrorCode::PreconditionFailed => assert("MethodNotAllowed"@.len() != "PreconditionFailed"@.len()),
            ErrorCode::PayloadTooLarge => assert("MethodNotAllowed"@.len() != "PayloadTooLarge"@.len()),
            ErrorCode::UriTooLong => assert("MethodNotAllowed"@.len() != "UriTooLong"@.len()),
            ErrorCode::UnsupportedMediaType => assert("MethodNotAllowed"@.len() != "UnsupportedMediaType"@.len()),
            ErrorCode::RangeNotSatisfiable => assert("MethodNotAllowed"@.len() != "RangeNotSatisfiable"@.len()),
            ErrorCode::ExpectationFailed => assert("MethodNotAllowed"@.len() != "ExpectationFailed"@.len()),
            ErrorCode::ImATeapot => assert("MethodNotAllowed"@.len() != "ImATeapot"@.len()),
            ErrorCode::MisdirectedRequest => assert("MethodNotAllowed"@.len() != "MisdirectedRequest"@.len()),
            ErrorCode::UnprocessableEntity => assert("MethodNotAllowed"@.len() != "UnprocessableEntity"@.len()),
            ErrorCode::Locked => assert("MethodNotAllowed"@.len() != "Locked"@.len()),
            ErrorCode::FailedDependency => assert("MethodNotAllowed"@[0] != "FailedDependency"@[0]),
            ErrorCode::UpgradeRequired => assert("MethodNotAllowed"@.len() != "UpgradeRequired"@.len()),
            ErrorCode::PreconditionRequired => assert("MethodNotAllowed"@.len() != "PreconditionRequired"@.len()),
            ErrorCode::TooManyRequests => assert("MethodNotAllowed"@.len() != "TooManyRequests"@.len()),
            ErrorCode::RequestHeaderFieldsTooLarge => assert("MethodNotAllowed"@.len() != "RequestHeaderFieldsTooLarge"@.len()),
            ErrorCode::UnavailableForLegalReasons => assert("MethodNotAllowed"@.len() != "UnavailableForLegalReasons"@.len()),
            ErrorCode::InternalServerError => assert("MethodNotAllowed"@.len() != "InternalServerError"@.len()),
            ErrorCode::NotImplemented => assert("MethodNotAllowed"@.len() != "NotImplemented"@.len()),
            ErrorCode::BadGateway => assert("MethodNotAllowed"@.len() != "BadGateway"@.len()),
            ErrorCode::ServiceUnavailable => assert("MethodNotAllowed"@.len() != "ServiceUnavailable"@.len()),
            ErrorCode::GatewayTimeout => assert("MethodNotAllowed"@.len() != "GatewayTimeout"@.len()),
            ErrorCode::HttpVersionNotSupported => assert("MethodNotAllowed"@.len() != "HttpVersionNotSupported"@.len()),
            ErrorCode::VariantAlsoNegotiates => assert("MethodNotAllowed"@.len() != "VariantAlsoNegotiates"@.len()),
            ErrorCode::InsufficientStorage => assert("MethodNotAllowed"@.len() != "InsufficientStorage"@.len()),
            ErrorCode::LoopDetected => assert("MethodNotAllowed"@.len() != "LoopDetected"@.len()),
            ErrorCode::NotExtended => assert("MethodNotAllowed"@.len() != "NotExtended"@.len()),
            ErrorCode::NetworkAuthenticationRequired => assert("MethodNotAllowed"@.len() != "NetworkAuthenticationRequired"@.len()),
        },
        ErrorCode::NotAcceptable => match b {
            ErrorCode::MultipleChoices => assert("NotAcceptable"@.len() != "MultipleChoices"@.len()),
            ErrorCode::MovedPermanently => assert("NotAcceptable"@.len() != "MovedPermanently"@.len()),
            ErrorCode::Found => assert("NotAcceptable"@.len() != "Found"@.len()),
            ErrorCode::SeeOther => assert("NotAcceptable"@.len() != "SeeOther"@.len()),
            ErrorCode::NotModified => assert("NotAcceptable"@.len() != "NotModified"@.len()),
            ErrorCode::UseProxy => assert("NotAcceptable"@.len() != "UseProxy"@.len()),
            ErrorCode::TemporaryRedirect => assert("NotAcceptable"@.len() != "TemporaryRedirect"@.len()),
            ErrorCode::PermanentRedirect => assert("NotAcceptable"@.len() != "PermanentRedirect"@.len()),
            ErrorCode::BadRequest => assert("NotAcceptable"@.len() != "BadRequest"@.len()),
            ErrorCode::Unauthorized => assert("NotAcceptable"@.len() != "Unauthorized"@.len()),
            ErrorCode::PaymentRequired => assert("NotAcceptable"@.len() != "PaymentRequired"@.len()),
            ErrorCode::Forbidden => assert("NotAcceptable"@.len() != "Forbidden"@.len()),
            ErrorCode::NotFound => assert("NotAcceptable"@.len() != "NotFound"@.len()),
            ErrorCode::MethodNotAllowed => assert("NotAcceptable"@.len() != "MethodNotAllowed"@.len()),
            ErrorCode::NotAcceptable => {},
            ErrorCode::ProxyAuthenticationRequired => assert("NotAcceptable"@.len() != "ProxyAuthenticationRequired"@.len()),
            ErrorCode::RequestTimeout => assert("NotAcceptable"@.len() != "RequestTimeout"@.len()),
            ErrorCode::Conflict => assert("NotAcceptable"@.len() != "Conflict"@.len()),
            ErrorCode::Gone => assert("NotAcceptable"@.len() != "Gone"@.len()),
            ErrorCode::LengthRequired => assert("NotAcceptable"@.len() != "LengthRequired"@.len()),
            ErrorCode::PreconditionFailed => assert("NotAcceptable"@.len() != "PreconditionFailed"@.len()),
            ErrorCode::PayloadTooLarge => assert("NotAcceptable"@.len() != "PayloadTooLarge"@.len()),
            ErrorCode::UriTooLong => assert("NotAcceptable"@.len() != "UriTooLong"@.len()),
            ErrorCode::UnsupportedMediaType => assert("NotAcceptable"@.len() != "UnsupportedMediaType"@.len()),
            ErrorCode::RangeNotSatisfiable => assert("NotAcceptable"@.len() != "RangeNotSatisfiable"@.len()),
            ErrorCode::ExpectationFailed => assert("NotAcceptable"@.len() != "ExpectationFailed"@.len()),
            ErrorCode::ImATeapot => assert("NotAcceptable"@.len() != "ImATeapot"@.len()),
            ErrorCode::MisdirectedRequest => assert("NotAcceptable"@.len() != "MisdirectedRequest"@.len()),
            ErrorCode::UnprocessableEntity => assert("NotAcceptable"@.len() != "UnprocessableEntity"@.len()),
            ErrorCode::Locked => assert("NotAcceptable"@.len() != "Locked"@.len()),
            ErrorCode::FailedDependency => assert("NotAcceptable"@.len() != "FailedDependency"@.len()),
            ErrorCode::UpgradeRequired => assert("NotAcceptable"@.len() != "UpgradeRequired"@.len()),
            ErrorCode::PreconditionRequired => assert("NotAcceptable"@.len() != "PreconditionRequired"@.len()),
            ErrorCode::TooManyRequests => assert("NotAcceptable"@.len() != "TooManyRequests"@.len()),
            ErrorCode::RequestHeaderFieldsTooLarge => assert("NotAcceptable"@.len() != "RequestHeaderFieldsTooLarge"@.len()),
            ErrorCode::UnavailableForLegalReasons => assert("NotAcceptable"@.len() != "UnavailableForLegalReasons"@.len()),
            ErrorCode::InternalServerError => assert("NotAcceptable"@.len() != "InternalServerError"@.len()),
            ErrorCode::NotImplemented => assert("NotAcceptable"@.len() != "NotImplemented"@.len()),
            ErrorCode::BadGateway => assert("NotAcceptable"@.len() != "BadGateway"@.len()),
            ErrorCode::ServiceUnavailable => assert("NotAcceptable"@.len() != "ServiceUnavailable"@.len()),
            ErrorCode::GatewayTimeout => assert("NotAcceptable"@.len() != "GatewayTimeout"@.len()),
            ErrorCode::HttpVersionNotSupported => assert("NotAcceptable"@.len() != "HttpVersionNotSupported"@.len()),
            ErrorCode::VariantAlsoNegotiates => assert("NotAcceptable"@.len() != "VariantAlsoNegotiates"@.len()),
            ErrorCode::InsufficientStorage => assert("NotAcceptable"@.len() != "InsufficientStorage"@.len()),
            ErrorCode::LoopDetected => assert("NotAcceptable"@.len() != "LoopDetected"@.len()),
            ErrorCode::NotExtended => assert("NotAcceptable"@.len() != "NotExtended"@.len()),
            ErrorCode::NetworkAuthenticationRequired => assert("NotAcceptable"@.len() != "NetworkAuthenticationRequired"@.len()),
        },
        ErrorCode::ProxyAuthenticationRequired => match b {
            ErrorCode::MultipleChoices => assert("ProxyAuthenticationRequired"@.len() != "MultipleChoices"@.len()),
            ErrorCode::MovedPermanently => assert("ProxyAuthenticationRequired"@.len() != "MovedPermanently"@.len()),
            ErrorCode::Found => assert("ProxyAuthenticationRequired"@.len() != "Found"@.len()),
            ErrorCode::SeeOther => assert("ProxyAuthenticationRequired"@.len() != "SeeOther"@.len()),
            ErrorCode::NotModified => assert("ProxyAuthenticationRequired"@.len() != "NotModified"@.len()),
            ErrorCode::UseProxy => assert("ProxyAuthenticationRequired"@.len() != "UseProxy"@.len()),
            ErrorCode::TemporaryRedirect => assert("ProxyAuthenticationRequired"@.len() != "TemporaryRedirect"@.len()),
            ErrorCode::PermanentRedirect => assert("ProxyAuthenticationRequired"@.len() != "PermanentRedirect"@.len()),
            ErrorCode::BadRequest => assert("ProxyAuthenticationRequired"@.len() != "BadRequest"@.len()),
            ErrorCode::Unauthorized => assert("ProxyAuthenticationRequired"@.len() != "Unauthorized"@.len()),
            ErrorCode::PaymentRequired => assert("ProxyAuthenticationRequired"@.len() != "PaymentRequired"@.len()),
            ErrorCode::Forbidden => assert("ProxyAuthenticationRequired"@.len() != "Forbidden"@.len()),
            ErrorCode::NotFound => assert("ProxyAuthenticationRequired"@.len() != "NotFound"@.len()),
            ErrorCode::MethodNotAllowed => assert("ProxyAuthenticationRequired"@.len() != "MethodNotAllowed"@.len()),
            ErrorCode::NotAcceptable => assert("ProxyAuthenticationRequired"@.len() != "NotAcceptable"@.len()),
            ErrorCode::ProxyAuthenticationRequired => {},
            ErrorCode::RequestTimeout => assert("ProxyAuthenticationRequired"@.len() != "RequestTimeout"@.len()),
            ErrorCode::Conflict => assert("ProxyAuthenticationRequired"@.len() != "Conflict"@.len()),
            ErrorCode::Gone => assert("ProxyAuthenticationRequired"@.len() != "Gone"@.len()),
            ErrorCode::LengthRequired => assert("ProxyAuthenticationRequired"@.len() != "LengthRequired"@.len()),
            ErrorCode::PreconditionFailed => assert("ProxyAuthenticationRequired"@.len() != "PreconditionFailed"@.len()),
            ErrorCode::PayloadTooLarge => assert("ProxyAuthenticationRequired"@.len() != "PayloadTooLarge"@.len()),
            ErrorCode::UriTooLong => assert("ProxyAuthenticationRequired"@.len() != "UriTooLong"@.len()),
            ErrorCode::UnsupportedMediaType => assert("ProxyAuthenticationRequired"@.len() != "UnsupportedMediaType"@.len()),
            ErrorCode::RangeNotSatisfiable => assert("ProxyAuthenticationRequired"@.len() != "RangeNotSatisfiable"@.len()),
            ErrorCode::ExpectationFailed => assert("ProxyAuthenticationRequired"@.len() != "ExpectationFailed"@.len()),
            ErrorCode::ImATeapot => assert("ProxyAuthenticationRequired"@.len() != "ImATeapot"@.len()),
            ErrorCode::MisdirectedRequest => assert("ProxyAuthenticationRequired"@.len() != "MisdirectedRequest"@.len()),
            ErrorCode::UnprocessableEntity => assert("ProxyAuthenticationRequired"@.len() != "UnprocessableEntity"@.len()),
            ErrorCode::Locked => assert("ProxyAuthenticationRequired"@.len() != "Locked"@.len()),
            ErrorCode::FailedDependency => assert("ProxyAuthenticationRequired"@.len() != "FailedDependency"@.len()),
            ErrorCode::UpgradeRequired => assert("ProxyAuthenticationRequired"@.len() != "UpgradeRequired"@.len()),
            ErrorCode::PreconditionRequired => assert("ProxyAuthenticationRequired"@.len() != "PreconditionRequired"@.len()),
            ErrorCode::TooManyRequests => assert("ProxyAuthenticationRequired"@.len() != "TooManyRequests"@.len()),
            ErrorCode::RequestHeaderFieldsTooLarge => assert("ProxyAuthenticationRequired"@[0] != "RequestHeaderFieldsTooLarge"@[0]),
            ErrorCode::UnavailableForLegalReasons => assert("ProxyAuthenticationRequired"@.len() != "UnavailableForLegalReasons"@.len()),
            ErrorCode::InternalServerError => assert("ProxyAuthenticationRequired"@.len() != "InternalServerError"@.len()),
            ErrorCode::NotImplemented => assert("ProxyAuthenticationRequired"@.len() != "NotImplemented"@.len()),
            ErrorCode::BadGateway => assert("ProxyAuthenticationRequired"@.len() != "BadGateway"@.len()),
            ErrorCode::ServiceUnavailable => assert("ProxyAuthenticationRequired"@.len() != "ServiceUnavailable"@.len()),
            ErrorCode::GatewayTimeout => assert("ProxyAuthenticationRequired"@.len() != "GatewayTimeout"@.len()),
            ErrorCode::HttpVersionNotSupported => assert("ProxyAuthenticationRequired"@.len() != "HttpVersionNotSupported"@.len()),
            ErrorCode::VariantAlsoNegotiates => assert("ProxyAuthenticationRequired"@.len() != "VariantAlsoNegotiates"@.len()),
            ErrorCode::InsufficientStorage => assert("ProxyAuthenticationRequired"@.len() != "InsufficientStorage"@.len()),
            ErrorCode::LoopDetected => assert("ProxyAuthenticationRequired"@.len() != "LoopDetected"@.len()),
            ErrorCode::NotExtended => assert("ProxyAuthenticationRequired"@.len() != "NotExtended"@.len()),
            ErrorCode::NetworkAuthenticationRequired => assert("ProxyAuthenticationRequired"@.len() != "NetworkAuthenticationRequired"@.len()),
        },
        ErrorCode::RequestTimeout => match b {
            ErrorCode::MultipleChoices => assert("RequestTimeout"@.len() != "MultipleChoices"@.len()),
            ErrorCode::MovedPermanently => assert("RequestTimeout"@.len() != "MovedPermanently"@.len()),
            ErrorCode::Found => assert("RequestTimeout"@.len() != "Found"@.len()),
            ErrorCode::SeeOther => assert("RequestTimeout"@.len() != "SeeOther"@.len()),
            ErrorCode::NotModified => assert("RequestTimeout"@.len() != "NotModified"@.len()),
            ErrorCode::UseProxy => assert("RequestTimeout"@.len() != "UseProxy"@.len()),
            ErrorCode::TemporaryRedirect => assert("RequestTimeout"@.len() != "TemporaryRedirect"@.len()),
            ErrorCode::PermanentRedirect => assert("RequestTimeout"@.len() != "PermanentRedirect"@.len()),
            ErrorCode::BadRequest => assert("RequestTimeout"@.len() != "BadRequest"@.len()),
            ErrorCode::Unauthorized => assert("RequestTimeout"@.len() != "Unauthorized"@.len()),
            ErrorCode::PaymentRequired => assert("RequestTimeout"@.len() != "PaymentRequired"@.len()),
            ErrorCode::Forbidden => assert("RequestTimeout"@.len() != "Forbidden"@.len()),
            ErrorCode::NotFound => assert("RequestTimeout"@.len() != "NotFound"@.len()),
            ErrorCode::MethodNotAllowed => assert("RequestTimeout"@.len() != "MethodNotAllowed"@.len()),
            ErrorCode::NotAcceptable => assert("RequestTimeout"@.len() != "NotAcceptable"@.len()),
            ErrorCode::ProxyAuthenticationRequired => assert("RequestTimeout"@.len() != "ProxyAuthenticationRequired"@.len()),
            ErrorCode::RequestTimeout => {},
            ErrorCode::Conflict => assert("RequestTimeout"@.len() != "Conflict"@.len()),
            ErrorCode::Gone => assert("RequestTimeout"@.len() != "Gone"@.len()),
            ErrorCode::LengthRequired => assert("RequestTimeout"@[0] != "LengthRequired"@[0]),
            ErrorCode::PreconditionFailed => assert("RequestTimeout"@.len() != "PreconditionFailed"@.len()),
            ErrorCode::PayloadTooLarge => assert("RequestTimeout"@.len() != "PayloadTooLarge"@.len()),
            ErrorCode::UriTooLong => assert("RequestTimeout"@.len() != "UriTooLong"@.len()),
            ErrorCode::UnsupportedMediaType => assert("RequestTimeout"@.len() != "UnsupportedMediaType"@.len()),
            ErrorCode::RangeNotSatisfiable => assert("RequestTimeout"@.len() != "RangeNotSatisfiable"@.len()),
            ErrorCode::ExpectationFailed => assert("RequestTimeout"@.len() != "ExpectationFailed"@.len()),
            ErrorCode::ImATeapot => assert("RequestTimeout"@.len() != "ImATeapot"@.len()),
            ErrorCode::MisdirectedRequest => assert("RequestTimeout"@.len() != "MisdirectedRequest"@.len()),
            ErrorCode::UnprocessableEntity => assert("RequestTimeout"@.len() != "UnprocessableEntity"@.len()),
            ErrorCode::Locked => assert("RequestTimeout"@.len() != "Locked"@.len()),
            ErrorCode::FailedDependency => assert("RequestTimeout"@.len() != "FailedDependency"@.len()),
            ErrorCode::UpgradeRequired => assert("RequestTimeout"@.len() != "UpgradeRequired"@.len()),
            ErrorCode::PreconditionRequired => assert("RequestTimeout"@.len() != "PreconditionRequired"@.len()),
            ErrorCode::TooManyRequests => assert("RequestTimeout"@.len() != "TooManyRequests"@.len()),
            ErrorCode::RequestHeaderFieldsTooLarge => assert("RequestTimeout"@.len() != "RequestHeaderFieldsTooLarge"@.len()),
            ErrorCode::UnavailableForLegalReasons => assert("RequestTimeout"@.len() != "UnavailableForLegalReasons"@.len()),
            ErrorCode::InternalServerError => assert("RequestTimeout"@.len() != "InternalServerError"@.len()),
            ErrorCode::NotImplemented => assert("RequestTimeout"@[0] != "NotImplemented"@[0]),
            ErrorCode::BadGateway => assert("RequestTimeout"@.len() != "BadGateway"@.len()),
            ErrorCode::ServiceUnavailable => assert("RequestTimeout"@.len() != "ServiceUnavailable"@.len()),
            ErrorCode::GatewayTimeout => assert("RequestTimeout"@[0] != "GatewayTimeout"@[0]),
            ErrorCode::HttpVersionNotSupported => assert("RequestTimeout"@.len() != "HttpVersionNotSupported"@.len()),
            ErrorCode::VariantAlsoNegotiates => assert("RequestTimeout"@.len() != "VariantAlsoNegotiates"@.len()),
            ErrorCode::InsufficientStorage => assert("RequestTimeout"@.len() != "InsufficientStorage"@.len()),
            ErrorCode::LoopDetected => assert("RequestTimeout"@.len() != "LoopDetected"@.len()),
            ErrorCode::NotExtended => assert("RequestTimeout"@.len() != "NotExtended"@.len()),
            ErrorCode::NetworkAuthenticationRequired => assert("RequestTimeout"@.len() != "NetworkAuthenticationRequired"@.len()),
        },
        ErrorCode::Conflict => match b {
            ErrorCode::MultipleChoices => assert("Conflict"@.len() != "MultipleChoices"@.len()),
            ErrorCode::MovedPermanently => assert("Conflict"@.len() != "MovedPermanently"@.len()),
            ErrorCode::Found => assert("Conflict"@.len() != "Found"@.len()),
            ErrorCode::SeeOther => assert("Conflict"@[0] != "SeeOther"@[0]),
            ErrorCode::NotModified => assert("Conflict"@.len() != "NotModified"@.len()),
            ErrorCode::UseProxy => assert("Conflict"@[0] != "UseProxy"@[0]),
            ErrorCode::TemporaryRedirect => assert("Conflict"@.len() != "TemporaryRedirect"@.len()),
            ErrorCode::PermanentRedirect => assert("Conflict"@.len() != "PermanentRedirect"@.len()),
            ErrorCode::BadRequest => assert("Conflict"@.len() != "BadRequest"@.len()),
            ErrorCode::Unauthorized => assert("Conflict"@.len() != "Unauthorized"@.len()),
            ErrorCode::PaymentRequired => assert("Conflict"@.len() != "PaymentRequired"@.len()),
            ErrorCode::Forbidden => assert("Conflict"@.len() != "Forbidden"@.len()),
            ErrorCode::NotFound => assert("Conflict"@[0] != "NotFound"@[0]),
            ErrorCode::MethodNotAllowed => assert("Conflict"@.len() != "MethodNotAllowed"@.len()),
            ErrorCode::NotAcceptable => assert("Conflict"@.len() != "NotAcceptable"@.len()),
            ErrorCode::ProxyAuthenticationRequired => assert("Conflict"@.len() != "ProxyAuthenticationRequired"@.len()),
            ErrorCode::RequestTimeout => assert("Conflict"@.len() != "RequestTimeout"@.len()),
            ErrorCode::Conflict => {},
            ErrorCode::Gone => assert("Conflict"@.len() != "Gone"@.len()),
            ErrorCode::LengthRequired => assert("Conflict"@.len() != "LengthRequired"@.len()),
            ErrorCode::PreconditionFailed => assert("Conflict"@.len() != "PreconditionFailed"@.len()),
            ErrorCode::PayloadTooLarge => assert("Conflict"@.len() != "PayloadTooLarge"@.len()),
            ErrorCode::UriTooLong => assert("Conflict"@.len() != "UriTooLong"@.len()),
            ErrorCode::UnsupportedMediaType => assert("Conflict"@.len() != "UnsupportedMediaType"@.len()),
            ErrorCode::RangeNotSatisfiable => assert("Conflict"@.len() != "RangeNotSatisfiable"@.len()),
            ErrorCode::ExpectationFailed => assert("Conflict"@.len() != "ExpectationFailed"@.len()),
            ErrorCode::ImATeapot => assert("Conflict"@.len() != "ImATeapot"@.len()),
            ErrorCode::MisdirectedRequest => assert("Conflict"@.len() != "MisdirectedRequest"@.len()),
            ErrorCode::UnprocessableEntity => assert("Conflict"@.len() != "UnprocessableEntity"@.len()),
            ErrorCode::Locked => assert("Conflict"@.len() != "Locked"@.len()),
            ErrorCode::FailedDependency => assert("Conflict"@.len() != "FailedDependency"@.len()),
            ErrorCode::UpgradeRequired => assert("Conflict"@.len() != "UpgradeRequired"@.len()),
            ErrorCode::PreconditionRequired => assert("Conflict"@.len() != "PreconditionRequired"@.len()),
            ErrorCode::TooManyRequests => assert("Conflict"@.len() != "TooManyRequests"@.len()),
            ErrorCode::RequestHeaderFieldsTooLarge => assert("Conflict"@.len() != "RequestHeaderFieldsTooLarge"@.len()),
            ErrorCode::UnavailableForLegalReasons => assert("Conflict"@.len() != "UnavailableForLegalReasons"@.len()),
            ErrorCode::InternalServerError => assert("Conflict"@.len() != "InternalServerError"@.len()),
            ErrorCode::NotImplemented => assert("Conflict"@.len() != "NotImplemented"@.len()),
            ErrorCode::BadGateway => assert("Conflict"@.len() != "BadGateway"@.len()),
            ErrorCode::ServiceUnavailable => assert("Conflict"@.len() != "ServiceUnavailable"@.len()),
            ErrorCode::GatewayTimeout => assert("Conflict"@.len() != "GatewayTimeout"@.len()),
            ErrorCode::HttpVersionNotSupported => assert("Conflict"@.len() != "HttpVersionNotSupported"@.len()),
            ErrorCode::VariantAlsoNegotiates => assert("Conflict"@.len() != "VariantAlsoNegotiates"@.len()),
            ErrorCode::InsufficientStorage => assert("Conflict"@.len() != "InsufficientStorage"@.len()),
            ErrorCode::LoopDetected => assert("Conflict"@.len() != "LoopDetected"@.len()),
            ErrorCode::NotExtended => assert("Conflict"@.len() != "NotExtended"@.len()),
            ErrorCode::NetworkAuthenticationRequired => assert("Conflict"@.len() != "NetworkAuthenticationRequired"@.len()),
        },
        ErrorCode::Gone => match b {
            ErrorCode::MultipleChoices => assert("Gone"@.len() != "MultipleChoices"@.len()),
            ErrorCode::MovedPermanently => assert("Gone"@.len() != "MovedPermanently"@.len()),
            ErrorCode::Found => assert("Gone"@.len() != "Found"@.len()),
            ErrorCode::SeeOther => assert("Gone"@.len() != "SeeOther"@.len()),
            ErrorCode::NotModified => assert("Gone"@.len() != "NotModified"@.len()),
            ErrorCode::UseProxy => assert("Gone"@.len() != "UseProxy"@.len()),
            ErrorCode::TemporaryRedirect => assert("Gone"@.len() != "TemporaryRedirect"@.len()),
            ErrorCode::PermanentRedirect => assert("Gone"@.len() != "PermanentRedirect"@.len()),
            ErrorCode::BadRequest => assert("Gone"@.len() != "BadRequest"@.len()),
            ErrorCode::Unauthorized => assert("Gone"@.len() != "Unauthorized"@.len()),
            ErrorCode::PaymentRequired => assert("Gone"@.len() != "PaymentRequired"@.len()),
            ErrorCode::Forbidden => assert("Gone"@.len() != "Forbidden"@.len()),
            ErrorCode::NotFound => assert("Gone"@.len() != "NotFound"@.len()),
            ErrorCode::MethodNotAllowed => assert("Gone"@.len() != "MethodNotAllowed"@.len()),
            ErrorCode::NotAcceptable => assert("Gone"@.len() != "NotAcceptable"@.len()),
            ErrorCode::ProxyAuthenticationRequired => assert("Gone"@.len() != "ProxyAuthenticationRequired"@.len()),
            ErrorCode::RequestTimeout => assert("Gone"@.len() != "RequestTimeout"@.len()),
            ErrorCode::Conflict => assert("Gone"@.len() != "Conflict"@.len()),
            ErrorCode::Gone => {},
            ErrorCode::LengthRequired => assert("Gone"@.len() != "LengthRequired"@.len()),
            ErrorCode::PreconditionFailed => assert("Gone"@.len() != "PreconditionFailed"@.len()),
            ErrorCode::PayloadTooLarge => assert("Gone"@.len() != "PayloadTooLarge"@.len()),
            ErrorCode::UriTooLong => assert("Gone"@.len() != "UriTooLong"@.len()),
            ErrorCode::UnsupportedMediaType => assert("Gone"@.len() != "UnsupportedMediaType"@.len()),
            ErrorCode::RangeNotSatisfiable => assert("Gone"@.len() != "RangeNotSatisfiable"@.len()),
            ErrorCode::ExpectationFailed => assert("Gone"@.len() != "ExpectationFailed"@.len()),
            ErrorCode::ImATeapot => assert("Gone"@.len() != "ImATeapot"@.len()),
            ErrorCode::MisdirectedRequest => assert("Gone"@.len() != "MisdirectedRequest"@.len()),
            ErrorCode::UnprocessableEntity => assert("Gone"@.len() != "UnprocessableEntity"@.len()),
            ErrorCode::Locked => assert("Gone"@.len() != "Locked"@.len()),
            ErrorCode::FailedDependency => assert("Gone"@.len() != "FailedDependency"@.len()),
            ErrorCode::UpgradeRequired => assert("Gone"@.len() != "UpgradeRequired"@.len()),
            ErrorCode::PreconditionRequired => assert("Gone"@.len() != "PreconditionRequired"@.len()),
            ErrorCode::TooManyRequests => assert("Gone"@.len() != "TooManyRequests"@.len()),
            ErrorCode::RequestHeaderFieldsTooLarge => assert("Gone"@.len() != "RequestHeaderFieldsTooLarge"@.len()),
            ErrorCode::UnavailableForLegalReasons => assert("Gone"@.len() != "UnavailableForLegalReasons"@.len()),
            ErrorCode::InternalServerError => assert("Gone"@.len() != "InternalServerError"@.len()),
            ErrorCode::NotImplemented => assert("Gone"@.len() != "NotImplemented"@.len()),
            ErrorCode::BadGateway => assert("Gone"@.len() != "BadGateway"@.len()),
            ErrorCode::ServiceUnavailable => assert("Gone"@.len() != "ServiceUnavailable"@.len()),
            ErrorCode::GatewayTimeout => assert("Gone"@.len() != "GatewayTimeout"@.len()),
            ErrorCode::HttpVersionNotSupported => assert("Gone"@.len() != "HttpVersionNotSupported"@.len()),
            ErrorCode::VariantAlsoNegotiates => assert("Gone"@.len() != "VariantAlsoNegotiates"@.len()),
            ErrorCode::InsufficientStorage => assert("Gone"@.len() != "InsufficientStorage"@.len()),
            ErrorCode::LoopDetected => assert("Gone"@.len() != "LoopDetected"@.len()),
            ErrorCode::NotExtended => assert("Gone"@.len() != "NotExtended"@.len()),
            ErrorCode::NetworkAuthenticationRequired => assert("Gone"@.len() != "NetworkAuthenticationRequired"@.len()),
        },
        ErrorCode::LengthRequired => match b {
            ErrorCode::MultipleChoices => assert("LengthRequired"@.len() != "MultipleChoices"@.len()),
            ErrorCode::MovedPermanently => assert("LengthRequired"@.len() != "MovedPermanently"@.len()),
            ErrorCode::Found => assert("LengthRequired"@.len() != "Found"@.len()),
            ErrorCode::SeeOther => assert("LengthRequired"@.len() != "SeeOther"@.len()),
            ErrorCode::NotModified => assert("LengthRequired"@.len() != "NotModified"@.len()),
            ErrorCode::UseProxy => assert("LengthRequired"@.len() != "UseProxy"@.len()),
            ErrorCode::TemporaryRedirect => assert("LengthRequired"@.len() != "TemporaryRedirect"@.len()),
            ErrorCode::PermanentRedirect => assert("LengthRequired"@.len() != "PermanentRedirect"@.len()),
            ErrorCode::BadRequest => assert("LengthRequired"@.len() != "BadRequest"@.len()),
            ErrorCode::Unauthorized => assert("LengthRequired"@.len() != "Unauthorized"@.len()),
            ErrorCode::PaymentRequired => assert("LengthRequired"@.len() != "PaymentRequired"@.len()),
            ErrorCode::Forbidden => assert("LengthRequired"@.len() != "Forbidden"@.len()),
            ErrorCode::NotFound => assert("LengthRequired"@.len() != "NotFound"@.len()),
            ErrorCode::MethodNotAllowed => assert("LengthRequired"@.len() != "MethodNotAllowed"@.len()),
            ErrorCode::NotAcceptable => assert("LengthRequired"@.len() != "NotAcceptable"@.len()),
            ErrorCode::ProxyAuthenticationRequired => assert("LengthRequired"@.len() != "ProxyAuthenticationRequired"@.len()),
            ErrorCode::RequestTimeout => assert("LengthRequired"@[0] != "RequestTimeout"@[0]),
            ErrorCode::Conflict => assert("LengthRequired"@.len() != "Conflict"@.len()),
            ErrorCode::Gone => assert("LengthRequired"@.len() != "Gone"@.len()),
            ErrorCode::LengthRequired => {},
            ErrorCode::PreconditionFailed => assert("LengthRequired"@.len() != "PreconditionFailed"@.len()),
            ErrorCode::PayloadTooLarge => assert("LengthRequired"@.len() != "PayloadTooLarge"@.len()),
            ErrorCode::UriTooLong => assert("LengthRequired"@.len() != "UriTooLong"@.len()),
            ErrorCode::UnsupportedMediaType => assert("LengthRequired"@.len() != "UnsupportedMediaType"@.len()),
            ErrorCode::RangeNotSatisfiable => assert("LengthRequired"@.len() != "RangeNotSatisfiable"@.len()),
            ErrorCode::ExpectationFailed => assert("LengthRequired"@.len() != "ExpectationFailed"@.len()),
            ErrorCode::ImATeapot => assert("LengthRequired"@.len() != "ImATeapot"@.len()),
            ErrorCode::MisdirectedRequest => assert("LengthRequired"@.len() != "MisdirectedRequest"@.len()),
            ErrorCode::UnprocessableEntity => assert("LengthRequired"@.len() != "UnprocessableEntity"@.len()),
            ErrorCode::Locked => assert("LengthRequired"@.len() != "Locked"@.len()),
            ErrorCode::FailedDependency => assert("LengthRequired"@.len() != "FailedDependency"@.len()),
            ErrorCode::UpgradeRequired => assert("LengthRequired"@.len() != "UpgradeRequired"@.len()),
            ErrorCode::PreconditionRequired => assert("LengthRequired"@.len() != "PreconditionRequired"@.len()),
            ErrorCode::TooManyRequests => assert("LengthRequired"@.len() != "TooManyRequests"@.len()),
            ErrorCode::RequestHeaderFieldsTooLarge => assert("LengthRequired"@.len() != "RequestHeaderFieldsTooLarge"@.len()),
            ErrorCode::UnavailableForLegalReasons => assert("LengthRequired"@.len() != "UnavailableForLegalReasons"@.len()),
            ErrorCode::InternalServerError => assert("LengthRequired"@.len() != "InternalServerError"@.len()),
            ErrorCode::NotImplemented => assert("LengthRequired"@[0] != "NotImplemented"@[0]),
            ErrorCode::BadGateway => assert("LengthRequired"@.len() != "BadGateway"@.len()),
            ErrorCode::ServiceUnavailable => assert("LengthRequired"@.len() != "ServiceUnavailable"@.len()),
            ErrorCode::GatewayTimeout => assert("LengthRequired"@[0] != "GatewayTimeout"@[0]),
            ErrorCode::HttpVersionNotSupported => assert("LengthRequired"@.len() != "HttpVersionNotSupported"@.len()),
            ErrorCode::VariantAlsoNegotiates => assert("LengthRequired"@.len() != "VariantAlsoNegotiates"@.len()),
            ErrorCode::InsufficientStorage => assert("LengthRequired"@.len() != "InsufficientStorage"@.len()),
            ErrorCode::LoopDetected => assert("LengthRequired"@.len() != "LoopDetected"@.len()),
            ErrorCode::NotExtended => assert("LengthRequired"@.len() != "NotExtended"@.len()),
            ErrorCode::NetworkAuthenticationRequired => assert("LengthRequired"@.len() != "NetworkAuthenticationRequired"@.len()),
        },
        ErrorCode::PreconditionFailed => match b {
            ErrorCode::MultipleChoices => assert("PreconditionFailed"@.len() != "MultipleChoices"@.len()),
            ErrorCode::MovedPermanently => assert("PreconditionFailed"@.len() != "MovedPermanently"@.len()),
            ErrorCode::Found => assert("PreconditionFailed"@.len() != "Found"@.len()),
            ErrorCode::SeeOther => assert("PreconditionFailed"@.len() != "SeeOther"@.len()),
            ErrorCode::NotModified => assert("PreconditionFailed"@.len() != "NotModified"@.len()),
            ErrorCode::UseProxy => assert("PreconditionFailed"@.len() != "UseProxy"@.len()),
            ErrorCode::TemporaryRedirect => assert("PreconditionFailed"@.len() != "TemporaryRedirect"@.len()),
            ErrorCode::PermanentRedirect => assert("PreconditionFailed"@.len() != "PermanentRedirect"@.len()),
            ErrorCode::BadRequest => assert("PreconditionFailed"@.len() != "BadRequest"@.len()),
            ErrorCode::Unauthorized => assert("PreconditionFailed"@.len() != "Unauthorized"@.len()),
            ErrorCode::PaymentRequired => assert("PreconditionFailed"@.len() != "PaymentRequired"@.len()),
            ErrorCode::Forbidden => assert("PreconditionFailed"@.len() != "Forbidden"@.len()),
            ErrorCode::NotFound => assert("PreconditionFailed"@.len() != "NotFound"@.len()),
            ErrorCode::MethodNotAllowed => assert("PreconditionFailed"@.len() != "MethodNotAllowed"@.len()),
            ErrorCode::NotAcceptable => assert("PreconditionFailed"@.len() != "NotAcceptable"@.len()),
            ErrorCode::ProxyAuthenticationRequired => assert("PreconditionFailed"@.len() != "ProxyAuthenticationRequired"@.len()),
            ErrorCode::RequestTimeout => assert("PreconditionFailed"@.len() != "RequestTimeout"@.len()),
            ErrorCode::Conflict => assert("PreconditionFailed"@.len() != "Conflict"@.len()),
            ErrorCode::Gone => assert("PreconditionFailed"@.len() != "Gone"@.len()),
            ErrorCode::LengthRequired => assert("PreconditionFailed"@.len() != "LengthRequired"@.len()),
            ErrorCode::PreconditionFailed => {},
            ErrorCode::PayloadTooLarge => assert("PreconditionFailed"@.len() != "PayloadTooLarge"@.len()),
            ErrorCode::UriTooLong => assert("PreconditionFailed"@.len() != "UriTooLong"@.len()),
            ErrorCode::UnsupportedMediaType => assert("PreconditionFailed"@.len() != "UnsupportedMediaType"@.len()),
            ErrorCode::RangeNotSatisfiable => assert("PreconditionFailed"@.len() != "RangeNotSatisfiable"@.len()),
            ErrorCode::ExpectationFailed => assert("PreconditionFailed"@.len() != "ExpectationFailed"@.len()),
            ErrorCode::ImATeapot => assert("PreconditionFailed"@.len() != "ImATeapot"@.len()),
            ErrorCode::MisdirectedRequest => assert("PreconditionFailed"@[0] != "MisdirectedRequest"@[0]),
            ErrorCode::UnprocessableEntity => assert("PreconditionFailed"@.len() != "UnprocessableEntity"@.len()),
            ErrorCode::Locked => assert("PreconditionFailed"@.len() != "Locked"@.len()),
            ErrorCode::FailedDependency => assert("PreconditionFailed"@.len() != "FailedDependency"@.len()),
            ErrorCode::UpgradeRequired => assert("PreconditionFailed"@.len() != "UpgradeRequired"@.len()),
            ErrorCode::PreconditionRequired => assert("PreconditionFailed"@.len() != "PreconditionRequired"@.len()),
            ErrorCode::TooManyRequests => assert("PreconditionFailed"@.len() != "TooManyRequests"@.len()),
            ErrorCode::RequestHeaderFieldsTooLarge => assert("PreconditionFailed"@.len() != "RequestHeaderFieldsTooLarge"@.len()),
            ErrorCode::UnavailableForLegalReasons => assert("PreconditionFailed"@.len() != "UnavailableForLegalReasons"@.len()),
            ErrorCode::InternalServerError => assert("PreconditionFailed"@.len() != "InternalServerError"@.len()),
            ErrorCode::NotImplemented => assert("PreconditionFailed"@.len() != "NotImplemented"@.len()),
            ErrorCode::BadGateway => assert("PreconditionFailed"@.len() != "BadGateway"@.len()),
            ErrorCode::ServiceUnavailable => assert("PreconditionFailed"@[0] != "ServiceUnavailable"@[0]),
            ErrorCode::GatewayTimeout => assert("PreconditionFailed"@.len() != "GatewayTimeout"@.len()),
            ErrorCode::HttpVersionNotSupported => assert("PreconditionFailed"@.len() != "HttpVersionNotSupported"@.len()),
            ErrorCode::VariantAlsoNegotiates => assert("PreconditionFailed"@.len() != "VariantAlsoNegotiates"@.len()),
            ErrorCode::InsufficientStorage => assert("PreconditionFailed"@.len() != "InsufficientStorage"@.len()),
            ErrorCode::LoopDetected => assert("PreconditionFailed"@.len() != "LoopDetected"@.len()),
            ErrorCode::NotExtended => assert("PreconditionFailed"@.len() != "NotExtended"@.len()),
            ErrorCode::NetworkAuthenticationRequired => assert("PreconditionFailed"@.len() != "NetworkAuthenticationRequired"@.len()),
        },
        ErrorCode::PayloadTooLarge => match b {
            ErrorCode::MultipleChoices => assert("PayloadTooLarge"@[0] != "MultipleChoices"@[0]),
            ErrorCode::MovedPermanently => assert("PayloadTooLarge"@.len() != "MovedPermanently"@.len()),
            ErrorCode::Found => assert("PayloadTooLarge"@.len() != "Found"@.len()),
            ErrorCode::SeeOther => assert("PayloadTooLarge"@.len() != "SeeOther"@.len()),
            ErrorCode::NotModified => assert("PayloadTooLarge"@.len() != "NotModified"@.len()),
            ErrorCode::UseProxy => assert("PayloadTooLarge"@.len() != "UseProxy"@.len()),
            ErrorCode::TemporaryRedirect => assert("PayloadTooLarge"@.len() != "TemporaryRedirect"@.len()),
            ErrorCode::PermanentRedirect => assert("PayloadTooLarge"@.len() != "PermanentRedirect"@.len()),
            ErrorCode::BadRequest => assert("PayloadTooLarge"@.len() != "BadRequest"@.len()),
            ErrorCode::Unauthorized => assert("PayloadTooLarge"@.len() != "Unauthorized"@.len()),
            ErrorCode::PaymentRequired => assert("PayloadTooLarge"@[3] != "PaymentRequired"@[3]),
            ErrorCode::Forbidden => assert("PayloadTooLarge"@.len() != "Forbidden"@.len()),
            ErrorCode::NotFound => assert("PayloadTooLarge"@.len() != "NotFound"@.len()),
            ErrorCode::MethodNotAllowed => assert("PayloadTooLarge"@.len() != "MethodNotAllowed"@.len()),
            ErrorCode::NotAcceptable => assert("PayloadTooLarge"@.len() != "NotAcceptable"@.len()),
            ErrorCode::ProxyAuthenticationRequired => assert("PayloadTooLarge"@.len() != "ProxyAuthenticationRequired"@.len()),
            ErrorCode::RequestTimeout => assert("PayloadTooLarge"@.len() != "RequestTimeout"@.len()),
            ErrorCode::Conflict => assert("PayloadTooLarge"@.len() != "Conflict"@.len()),
            ErrorCode::Gone => assert("PayloadTooLarge"@.len() != "Gone"@.len()),
            ErrorCode::LengthRequired => assert("PayloadTooLarge"@.len() != "LengthRequired"@.len()),
            ErrorCode::PreconditionFailed => assert("PayloadTooLarge"@.len() != "PreconditionFailed"@.len()),
            ErrorCode::PayloadTooLarge => {},
            ErrorCode::UriTooLong => assert("PayloadTooLarge"@.len() != "UriTooLong"@.len()),
            ErrorCode::UnsupportedMediaType => assert("PayloadTooLarge"@.len() != "UnsupportedMediaType"@.len()),
            ErrorCode::RangeNotSatisfiable => assert("PayloadTooLarge"@.len() != "RangeNotSatisfiable"@.len()),
            ErrorCode::ExpectationFailed => assert("PayloadTooLarge"@.len() != "ExpectationFailed"@.len()),
            ErrorCode::ImATeapot => assert("PayloadTooLarge"@.len() != "ImATeapot"@.len()),
            ErrorCode::MisdirectedRequest => assert("PayloadTooLarge"@.len() != "MisdirectedRequest"@.len()),
            ErrorCode::UnprocessableEntity => assert("PayloadTooLarge"@.len() != "UnprocessableEntity"@.len()),
            ErrorCode::Locked => assert("PayloadTooLarge"@.len() != "Locked"@.len()),
            ErrorCode::FailedDependency => assert("PayloadTooLarge"@.len() != "FailedDependency"@.len()),
            ErrorCode::UpgradeRequired => assert("PayloadTooLarge"@[0] != "UpgradeRequired"@[0]),
            ErrorCode::PreconditionRequired => assert("PayloadTooLarge"@.len() != "PreconditionRequired"@.len()),
            ErrorCode::TooManyRequests => assert("PayloadTooLarge"@[0] != "TooManyRequests"@[0]),
            ErrorCode::RequestHeaderFieldsTooLarge => assert("PayloadTooLarge"@.len() != "RequestHeaderFieldsTooLarge"@.len()),
            ErrorCode::UnavailableForLegalReasons => assert("PayloadTooLarge"@.len() != "UnavailableForLegalReasons"@.len()),
            ErrorCode::InternalServerError => assert("PayloadTooLarge"@.len() != "InternalServerError"@.len()),
            ErrorCode::NotImplemented => assert("PayloadTooLarge"@.len() != "NotImplemented"@.len()),
            ErrorCode::BadGateway => assert("PayloadTooLarge"@.len() != "BadGateway"@.len()),
            ErrorCode::ServiceUnavailable => assert("PayloadTooLarge"@.len() != "ServiceUnavailable"@.len()),
            ErrorCode::GatewayTimeout => assert("PayloadTooLarge"@.len() != "GatewayTimeout"@.len()),
            ErrorCode::HttpVersionNotSupported => assert("PayloadTooLarge"@.len() != "HttpVersionNotSupported"@.len()),
            ErrorCode::VariantAlsoNegotiates => assert("PayloadTooLarge"@.len() != "VariantAlsoNegotiates"@.len()),
            ErrorCode::InsufficientStorage => assert("PayloadTooLarge"@.len() != "InsufficientStorage"@.len()),
            ErrorCode::LoopDetected => assert("PayloadTooLarge"@.len() != "LoopDetected"@.len()),
            ErrorCode::NotExtended => assert("PayloadTooLarge"@.len() != "NotExtended"@.len()),
            ErrorCode::NetworkAuthenticationRequired => assert("PayloadTooLarge"@.len() != "NetworkAuthenticationRequired"@.len()),
        },
        ErrorCode::UriTooLong => match b {
            ErrorCode::MultipleChoices => assert("UriTooLong"@.len() != "MultipleChoices"@.len()),
            ErrorCode::MovedPermanently => assert("UriTooLong"@.len() != "MovedPermanently"@.len()),
            ErrorCode::Found => assert("UriTooLong"@.len() != "Found"@.len()),
            ErrorCode::SeeOther => assert("UriTooLong"@.len() != "SeeOther"@.len()),
            ErrorCode::NotModified => assert("UriTooLong"@.len() != "NotModified"@.len()),
            ErrorCode::UseProxy => assert("UriTooLong"@.len() != "UseProxy"@.len()),
            ErrorCode::TemporaryRedirect => assert("UriTooLong"@.len() != "TemporaryRedirect"@.len()),
            ErrorCode::PermanentRedirect => assert("UriTooLong"@.len() != "PermanentRedirect"@.len()),
            ErrorCode::BadRequest => assert("UriTooLong"@[0] != "BadRequest"@[0]),
            ErrorCode::Unauthorized => assert("UriTooLong"@.len() != "Unauthorized"@.len()),
            ErrorCode::PaymentRequired => assert("UriTooLong"@.len() != "PaymentRequired"@.len()),
            ErrorCode::Forbidden => assert("UriTooLong"@.len() != "Forbidden"@.len()),
            ErrorCode::NotFound => assert("UriTooLong"@.len() != "NotFound"@.len()),
            ErrorCode::MethodNotAllowed => assert("UriTooLong"@.len() != "MethodNotAllowed"@.len()),
            ErrorCode::NotAcceptable => assert("UriTooLong"@.len() != "NotAcceptable"@.len()),
            ErrorCode::ProxyAuthenticationRequired => assert("UriTooLong"@.len() != "ProxyAuthenticationRequired"@.len()),
            ErrorCode::RequestTimeout => assert("UriTooLong"@.len() != "RequestTimeout"@.len()),
            ErrorCode::Conflict => assert("UriTooLong"@.len() != "Conflict"@.len()),
            ErrorCode::Gone => assert("UriTooLong"@.len() != "Gone"@.len()),
            ErrorCode::LengthRequired => assert("UriTooLong"@.len() != "LengthRequired"@.len()),
            ErrorCode::PreconditionFailed => assert("UriTooLong"@.len() != "PreconditionFailed"@.len()),
            ErrorCode::PayloadTooLarge => assert("UriTooLong"@.len() != "PayloadTooLarge"@.len()),
            ErrorCode::UriTooLong => {},
            ErrorCode::UnsupportedMediaType => assert("UriTooLong"@.len() != "UnsupportedMediaType"@.len()),
            ErrorCode::RangeNotSatisfiable => assert("UriTooLong"@.len() != "RangeNotSatisfiable"@.len()),
            ErrorCode::ExpectationFailed => assert("UriTooLong"@.len() != "ExpectationFailed"@.len()),
            ErrorCode::ImATeapot => assert("UriTooLong"@.len() != "ImATeapot"@.len()),
            ErrorCode::MisdirectedRequest => assert("UriTooLong"@.len() != "MisdirectedRequest"@.len()),
            ErrorCode::UnprocessableEntity => assert("UriTooLong"@.len() != "UnprocessableEntity"@.len()),
            ErrorCode::Locked => assert("UriTooLong"@.len() != "Locked"@.len()),
            ErrorCode::FailedDependency => assert("UriTooLong"@.len() != "FailedDependency"@.len()),
            ErrorCode::UpgradeRequired => assert("UriTooLong"@.len() != "UpgradeRequired"@.len()),
            ErrorCode::PreconditionRequired => assert("UriTooLong"@.len() != "PreconditionRequired"@.len()),
            ErrorCode::TooManyRequests => assert("UriTooLong"@.len() != "TooManyRequests"@.len()),
            ErrorCode::RequestHeaderFieldsTooLarge => assert("UriTooLong"@.len() != "RequestHeaderFieldsTooLarge"@.len()),
            ErrorCode::UnavailableForLegalReasons => assert("UriTooLong"@.len() != "UnavailableForLegalReasons"@.len()),
            ErrorCode::InternalServerError => assert("UriTooLong"@.len() != "InternalServerError"@.len()),
            ErrorCode::NotImplemented => assert("UriTooLong"@.len() != "NotImplemented"@.len()),
            ErrorCode::BadGateway => assert("UriTooLong"@[0] != "BadGateway"@[0]),
            ErrorCode::ServiceUnavailable => assert("UriTooLong"@.len() != "ServiceUnavailable"@.len()),
            ErrorCode::GatewayTimeout => assert("UriTooLong"@.len() != "GatewayTimeout"@.len()),
            ErrorCode::HttpVersionNotSupported => assert("UriTooLong"@.len() != "HttpVersionNotSupported"@.len()),
            ErrorCode::VariantAlsoNegotiates => assert("UriTooLong"@.len() != "VariantAlsoNegotiates"@.len()),
            ErrorCode::InsufficientStorage => assert("UriTooLong"@.len() != "InsufficientStorage"@.len()),
            ErrorCode::LoopDetected => assert("UriTooLong"@.len() != "LoopDetected"@.len()),
            ErrorCode::NotExtended => assert("UriTooLong"@.len() != "NotExtended"@.len()),
            ErrorCode::NetworkAuthenticationRequired => assert("UriTooLong"@.len() != "NetworkAuthenticationRequired"@.len()),
        },
        ErrorCode::UnsupportedMediaType => match b {
            ErrorCode::MultipleChoices => assert("UnsupportedMediaType"@.len() != "MultipleChoices"@.len()),
            ErrorCode::MovedPermanently => assert("UnsupportedMediaType"@.len() != "MovedPermanently"@.len()),
            ErrorCode::Found => assert("UnsupportedMediaType"@.len() != "Found"@.len()),
            ErrorCode::SeeOther => assert("UnsupportedMediaType"@.len() != "SeeOther"@.len()),
            ErrorCode::NotModified => assert("UnsupportedMediaType"@.len() != "NotModified"@.len()),
            ErrorCode::UseProxy => assert("UnsupportedMediaType"@.len() != "UseProxy"@.len()),
            ErrorCode::TemporaryRedirect => assert("UnsupportedMediaType"@.len() != "TemporaryRedirect"@.len()),
            ErrorCode::PermanentRedirect => assert("UnsupportedMediaType"@.len() != "PermanentRedirect"@.len()),
            ErrorCode::BadRequest => assert("UnsupportedMediaType"@.len() != "BadRequest"@.len()),
            ErrorCode::Unauthorized => assert("UnsupportedMediaType"@.len() != "Unauthorized"@.len()),
            ErrorCode::PaymentRequired => assert("UnsupportedMediaType"@.len() != "PaymentRequired"@.len()),
            ErrorCode::Forbidden => assert("UnsupportedMediaType"@.len() != "Forbidden"@.len()),
            ErrorCode::NotFound => assert("UnsupportedMediaType"@.len() != "NotFound"@.len()),
            ErrorCode::MethodNotAllowed => assert("UnsupportedMediaType"@.len() != "MethodNotAllowed"@.len()),
            ErrorCode::NotAcceptable => assert("UnsupportedMediaType"@.len() != "NotAcceptable"@.len()),
            ErrorCode::ProxyAuthenticationRequired => assert("UnsupportedMediaType"@.len() != "ProxyAuthenticationRequired"@.len()),
            ErrorCode::RequestTimeout => assert("UnsupportedMediaType"@.len() != "RequestTimeout"@.len()),
            ErrorCode::Conflict => assert("UnsupportedMediaType"@.len() != "Conflict"@.len()),
            ErrorCode::Gone => assert("UnsupportedMediaType"@.len() != "Gone"@.len()),
            ErrorCode::LengthRequired => assert("UnsupportedMediaType"@.len() != "LengthRequired"@.len()),
            ErrorCode::PreconditionFailed => assert("UnsupportedMediaType"@.len() != "PreconditionFailed"@.len()),
            ErrorCode::PayloadTooLarge => assert("UnsupportedMediaType"@.len() != "PayloadTooLarge"@.len()),
            ErrorCode::UriTooLong => assert("UnsupportedMediaType"@.len() != "UriTooLong"@.len()),
            ErrorCode::UnsupportedMediaType => {},
            ErrorCode::RangeNotSatisfiable => assert("UnsupportedMediaType"@.len() != "RangeNotSatisfiable"@.len()),
            ErrorCode::ExpectationFailed => assert("UnsupportedMediaType"@.len() != "ExpectationFailed"@.len()),
            ErrorCode::ImATeapot => assert("UnsupportedMediaType"@.len() != "ImATeapot"@.len()),
            ErrorCode::MisdirectedRequest => assert("UnsupportedMediaType"@.len() != "MisdirectedRequest"@.len()),
            ErrorCode::UnprocessableEntity => assert("UnsupportedMediaType"@.len() != "UnprocessableEntity"@.len()),
            ErrorCode::Locked => assert("UnsupportedMediaType"@.len() != "Locked"@.len()),
            ErrorCode::FailedDependency => assert("UnsupportedMediaType"@.len() != "FailedDependency"@.len()),
            ErrorCode::UpgradeRequired => assert("UnsupportedMediaType"@.len() != "UpgradeRequired"@.len()),
            ErrorCode::PreconditionRequired => assert("UnsupportedMediaType"@[0] != "PreconditionRequired"@[0]),
            ErrorCode::TooManyRequests => assert("UnsupportedMediaType"@.len() != "TooManyRequests"@.len()),
            ErrorCode::RequestHeaderFieldsTooLarge => assert("UnsupportedMediaType"@.len() != "RequestHeaderFieldsTooLarge"@.len()),
            ErrorCode::UnavailableForLegalReasons => assert("UnsupportedMediaType"@.len() != "UnavailableForLegalReasons"@.len()),
            ErrorCode::InternalServerError => assert("UnsupportedMediaType"@.len() != "InternalServerError"@.len()),
            ErrorCode::NotImplemented => assert("UnsupportedMediaType"@.len() != "NotImplemented"@.len()),
            ErrorCode::BadGateway => assert("UnsupportedMediaType"@.len() != "BadGateway"@.len()),
            ErrorCode::ServiceUnavailable => assert("UnsupportedMediaType"@.len() != "ServiceUnavailable"@.len()),
            ErrorCode::GatewayTimeout => assert("UnsupportedMediaType"@.len() != "GatewayTimeout"@.len()),
            ErrorCode::HttpVersionNotSupported => assert("UnsupportedMediaType"@.len() != "HttpVersionNotSupported"@.len()),
            ErrorCode::VariantAlsoNegotiates => assert("UnsupportedMediaType"@.len() != "VariantAlsoNegotiates"@.len()),
            ErrorCode::InsufficientStorage => assert("UnsupportedMediaType"@.len() != "InsufficientStorage"@.len()),
            ErrorCode::LoopDetected => assert("UnsupportedMediaType"@.len() != "LoopDetected"@.len()),
            ErrorCode::NotExtended => assert("UnsupportedMediaType"@.len() != "NotExtended"@.len()),
            ErrorCode::NetworkAuthenticationRequired => assert("UnsupportedMediaType"@.len() != "NetworkAuthenticationRequired"@.len()),
        },
        ErrorCode::RangeNotSatisfiable => match b {
            ErrorCode::MultipleChoices => assert("RangeNotSatisfiable"@.len() != "MultipleChoices"@.len()),
            ErrorCode::MovedPermanently => assert("RangeNotSatisfiable"@.len() != "MovedPermanently"@.len()),
            ErrorCode::Found => assert("RangeNotSatisfiable"@.len() != "Found"@.len()),
            ErrorCode::SeeOther => assert("RangeNotSatisfiable"@.len() != "SeeOther"@.len()),
            ErrorCode::NotModified => assert("RangeNotSatisfiable"@.len() != "NotModified"@.len()),
            ErrorCode::UseProxy => assert("RangeNotSatisfiable"@.len() != "UseProxy"@.len()),
            ErrorCode::TemporaryRedirect => assert("RangeNotSatisfiable"@.len() != "TemporaryRedirect"@.len()),
            ErrorCode::PermanentRedirect => assert("RangeNotSatisfiable"@.len() != "PermanentRedirect"@.len()),
            ErrorCode::BadRequest => assert("RangeNotSatisfiable"@.len() != "BadRequest"@.len()),
            ErrorCode::Unauthorized => assert("RangeNotSatisfiable"@.len() != "Unauthorized"@.len()),
            ErrorCode::PaymentRequired => assert("RangeNotSatisfiable"@.len() != "PaymentRequired"@.len()),
            ErrorCode::Forbidden => assert("RangeNotSatisfiable"@.len() != "Forbidden"@.len()),
            ErrorCode::NotFound => assert("RangeNotSatisfiable"@.len() != "NotFound"@.len()),
            ErrorCode::MethodNotAllowed => assert("RangeNotSatisfiable"@.len() != "MethodNotAllowed"@.len()),
            ErrorCode::NotAcceptable => assert("RangeNotSatisfiable"@.len() != "NotAcceptable"@.len()),
            ErrorCode::ProxyAuthenticationRequired => assert("RangeNotSatisfiable"@.len() != "ProxyAuthenticationRequired"@.len()),
            ErrorCode::RequestTimeout => assert("RangeNotSatisfiable"@.len() != "RequestTimeout"@.len()),
            ErrorCode::Conflict => assert("RangeNotSatisfiable"@.len() != "Conflict"@.len()),
            ErrorCode::Gone => assert("RangeNotSatisfiable"@.len() != "Gone"@.len()),
            ErrorCode::LengthRequired => assert("RangeNotSatisfiable"@.len() != "LengthRequired"@.len()),
            ErrorCode::PreconditionFailed => assert("RangeNotSatisfiable"@.len() != "PreconditionFailed"@.len()),
            ErrorCode::PayloadTooLarge => assert("RangeNotSatisfiable"@.len() != "PayloadTooLarge"@.len()),
            ErrorCode::UriTooLong => assert("RangeNotSatisfiable"@.len() != "UriTooLong"@.len()),
            ErrorCode::UnsupportedMediaType => assert("RangeNotSatisfiable"@.len() != "UnsupportedMediaType"@.len()),
            ErrorCode::RangeNotSatisfiable => {},
            ErrorCode::ExpectationFailed => assert("RangeNotSatisfiable"@.len() != "ExpectationFailed"@.len()),
            ErrorCode::ImATeapot => assert("RangeNotSatisfiable"@.len() != "ImATeapot"@.len()),
            ErrorCode::MisdirectedRequest => assert("RangeNotSatisfiable"@.len() != "MisdirectedRequest"@.len()),
            ErrorCode::UnprocessableEntity => assert("RangeNotSatisfiable"@[0] != "UnprocessableEntity"@[0]),
            ErrorCode::Locked => assert("RangeNotSatisfiable"@.len() != "Locked"@.len()),
            ErrorCode::FailedDependency => assert("RangeNotSatisfiable"@.len() != "FailedDependency"@.len()),
            ErrorCode::UpgradeRequired => assert("RangeNotSatisfiable"@.len() != "UpgradeRequired"@.len()),
            ErrorCode::PreconditionRequired => assert("RangeNotSatisfiable"@.len() != "PreconditionRequired"@.len()),
            ErrorCode::TooManyRequests => assert("RangeNotSatisfiable"@.len() != "TooManyRequests"@.len()),
            ErrorCode::RequestHeaderFieldsTooLarge => assert("RangeNotSatisfiable"@.len() != "RequestHeaderFieldsTooLarge"@.len()),
            ErrorCode::UnavailableForLegalReasons => assert("RangeNotSatisfiable"@.len() != "UnavailableForLegalReasons"@.len()),
            ErrorCode::InternalServerError => assert("RangeNotSatisfiable"@[0] != "InternalServerError"@[0]),
            ErrorCode::NotImplemented => assert("RangeNotSatisfiable"@.len() != "NotImplemented"@.len()),
            ErrorCode::BadGateway => assert("RangeNotSatisfiable"@.len() != "BadGateway"@.len()),
            ErrorCode::ServiceUnavailable => assert("RangeNotSatisfiable"@.len() != "ServiceUnavailable"@.len()),
            ErrorCode::GatewayTimeout => assert("RangeNotSatisfiable"@.len() != "GatewayTimeout"@.len()),
            ErrorCode::HttpVersionNotSupported => assert("RangeNotSatisfiable"@.len() != "HttpVersionNotSupported"@.len()),
            ErrorCode::VariantAlsoNegotiates => assert("RangeNotSatisfiable"@.len() != "VariantAlsoNegotiates"@.len()),
            ErrorCode::InsufficientStorage => assert("RangeNotSatisfiable"@[0] != "InsufficientStorage"@[0]),
            ErrorCode::LoopDetected => assert("RangeNotSatisfiable"@.len() != "LoopDetected"@.len()),
            ErrorCode::NotExtended => assert("RangeNotSatisfiable"@.len() != "NotExtended"@.len()),
            ErrorCode::NetworkAuthenticationRequired => assert("RangeNotSatisfiable"@.len() != "NetworkAuthenticationRequired"@.len()),
        },
        ErrorCode::ExpectationFailed => match b {
            ErrorCode::MultipleChoices => assert("ExpectationFailed"@.len() != "MultipleChoices"@.len()),
            ErrorCode::MovedPermanently => assert("ExpectationFailed"@.len() != "MovedPermanently"@.len()),
            ErrorCode::Found => assert("ExpectationFailed"@.len() != "Found"@.len()),
            ErrorCode::SeeOther => assert("ExpectationFailed"@.len() != "SeeOther"@.len()),
            ErrorCode::NotModified => assert("ExpectationFailed"@.len() != "NotModified"@.len()),
            ErrorCode::UseProxy => assert("ExpectationFailed"@.len() != "UseProxy"@.len()),
            ErrorCode::TemporaryRedirect => assert("ExpectationFailed"@[0] != "TemporaryRedirect"@[0]),
            ErrorCode::PermanentRedirect => assert("ExpectationFailed"@[0] != "PermanentRedirect"@[0]),
            ErrorCode::BadRequest => assert("ExpectationFailed"@.len() != "BadRequest"@.len()),
            ErrorCode::Unauthorized => assert("ExpectationFailed"@.len() != "Unauthorized"@.len()),
            ErrorCode::PaymentRequired => assert("ExpectationFailed"@.len() != "PaymentRequired"@.len()),
            ErrorCode::Forbidden => assert("ExpectationFailed"@.len() != "Forbidden"@.len()),
            ErrorCode::NotFound => assert("ExpectationFailed"@.len() != "NotFound"@.len()),
            ErrorCode::MethodNotAllowed => assert("ExpectationFailed"@.len() != "MethodNotAllowed"@.len()),
            ErrorCode::NotAcceptable => assert("ExpectationFailed"@.len() != "NotAcceptable"@.len()),
            ErrorCode::ProxyAuthenticationRequired => assert("ExpectationFailed"@.len() != "ProxyAuthenticationRequired"@.len()),
            ErrorCode::RequestTimeout => assert("ExpectationFailed"@.len() != "RequestTimeout"@.len()),
            ErrorCode::Conflict => assert("ExpectationFailed"@.len() != "Conflict"@.len()),
            ErrorCode::Gone => assert("ExpectationFailed"@.len() != "Gone"@.len()),
            ErrorCode::LengthRequired => assert("ExpectationFailed"@.len() != "LengthRequired"@.len()),
            ErrorCode::PreconditionFailed => assert("ExpectationFailed"@.len() != "PreconditionFailed"@.len()),
            ErrorCode::PayloadTooLarge => assert("ExpectationFailed"@.len() != "PayloadTooLarge"@.len()),
            ErrorCode::UriTooLong => assert("ExpectationFailed"@.len() != "UriTooLong"@.len()),
            ErrorCode::UnsupportedMediaType => assert("ExpectationFailed"@.len() != "UnsupportedMediaType"@.len()),
            ErrorCode::RangeNotSatisfiable => assert("ExpectationFailed"@.len() != "RangeNotSatisfiable"@.len()),
            ErrorCode::ExpectationFailed => {},
            ErrorCode::ImATeapot => assert("ExpectationFailed"@.len() != "ImATeapot"@.len()),
            ErrorCode::MisdirectedRequest => assert("ExpectationFailed"@.len() != "MisdirectedRequest"@.len()),
            ErrorCode::UnprocessableEntity => assert("ExpectationFailed"@.len() != "UnprocessableEntity"@.len()),
            ErrorCode::Locked => assert("ExpectationFailed"@.len() != "Locked"@.len()),
            ErrorCode::FailedDependency => assert("ExpectationFailed"@.len() != "FailedDependency"@.len()),
            ErrorCode::UpgradeRequired => assert("ExpectationFailed"@.len() != "UpgradeRequired"@.len()),
            ErrorCode::PreconditionRequired => assert("ExpectationFailed"@.len() != "PreconditionRequired"@.len()),
            ErrorCode::TooManyRequests => assert("ExpectationFailed"@.len() != "TooManyRequests"@.len()),
            ErrorCode::RequestHeaderFieldsTooLarge => assert("ExpectationFailed"@.len() != "RequestHeaderFieldsTooLarge"@.len()),
            ErrorCode::UnavailableForLegalReasons => assert("ExpectationFailed"@.len() != "UnavailableForLegalReasons"@.len()),
            ErrorCode::InternalServerError => assert("ExpectationFailed"@.len() != "InternalServerError"@.len()),
            ErrorCode::NotImplemented => assert("ExpectationFailed"@.len() != "NotImplemented"@.len()),
            ErrorCode::BadGateway => assert("ExpectationFailed"@.len() != "BadGateway"@.len()),
            ErrorCode::ServiceUnavailable => assert("ExpectationFailed"@.len() != "ServiceUnavailable"@.len()),
            ErrorCode::GatewayTimeout => assert("ExpectationFailed"@.len() != "GatewayTimeout"@.len()),
            ErrorCode::HttpVersionNotSupported => assert("ExpectationFailed"@.len() != "HttpVersionNotSupported"@.len()),
            ErrorCode::VariantAlsoNegotiates => assert("ExpectationFailed"@.len() != "VariantAlsoNegotiates"@.len()),
            ErrorCode::InsufficientStorage => assert("ExpectationFailed"@.len() != "InsufficientStorage"@.len()),
            ErrorCode::LoopDetected => assert("ExpectationFailed"@.len() != "LoopDetected"@.len()),
            ErrorCode::NotExtended => assert("ExpectationFailed"@.len() != "NotExtended"@.len()),
            ErrorCode::NetworkAuthenticationRequired => assert("ExpectationFailed"@.len() != "NetworkAuthenticationRequired"@.len()),
        },
        ErrorCode::ImATeapot => match b {
            ErrorCode::MultipleChoices => assert("ImATeapot"@.len() != "MultipleChoices"@.len()),
            ErrorCode::MovedPermanently => assert("ImATeapot"@.len() != "MovedPermanently"@.len()),
            ErrorCode::Found => assert("ImATeapot"@.len() != "Found"@.len()),
            ErrorCode::SeeOther => assert("ImATeapot"@.len() != "SeeOther"@.len()),
            ErrorCode::NotModified => assert("ImATeapot"@.len() != "NotModified"@.len()),
            ErrorCode::UseProxy => assert("ImATeapot"@.len() != "UseProxy"@.len()),
            ErrorCode::TemporaryRedirect => assert("ImATeapot"@.len() != "TemporaryRedirect"@.len()),
            ErrorCode::PermanentRedirect => assert("ImATeapot"@.len() != "PermanentRedirect"@.len()),
            ErrorCode::BadRequest => assert("ImATeapot"@.len() != "BadRequest"@.len()),
            ErrorCode::Unauthorized => assert("ImATeapot"@.len() != "Unauthorized"@.len()),
            ErrorCode::PaymentRequired => assert("ImATeapot"@.len() != "PaymentRequired"@.len()),
            ErrorCode::Forbidden => assert("ImATeapot"@[0] != "Forbidden"@[0]),
            ErrorCode::NotFound => assert("ImATeapot"@.len() != "NotFound"@.len()),
            ErrorCode::MethodNotAllowed => assert("ImATeapot"@.len() != "MethodNotAllowed"@.len()),
            ErrorCode::NotAcceptable => assert("ImATeapot"@.len() != "NotAcceptable"@.len()),
            ErrorCode::ProxyAuthenticationRequired => assert("ImATeapot"@.len() != "ProxyAuthenticationRequired"@.len()),
            ErrorCode::RequestTimeout => assert("ImATeapot"@.len() != "RequestTimeout"@.len()),
            ErrorCode::Conflict => assert("ImATeapot"@.len() != "Conflict"@.len()),
            ErrorCode::Gone => assert("ImATeapot"@.len() != "Gone"@.len()),
            ErrorCode::LengthRequired => assert("ImATeapot"@.len() != "LengthRequired"@.len()),
            ErrorCode::PreconditionFailed => assert("ImATeapot"@.len() != "PreconditionFailed"@.len()),
            ErrorCode::PayloadTooLarge => assert("ImATeapot"@.len() != "PayloadTooLarge"@.len()),
            ErrorCode::UriTooLong => assert("ImATeapot"@.len() != "UriTooLong"@.len()),
            ErrorCode::UnsupportedMediaType => assert("ImATeapot"@.len() != "UnsupportedMediaType"@.len()),
            ErrorCode::RangeNotSatisfiable => assert("ImATeapot"@.len() != "RangeNotSatisfiable"@.len()),
            ErrorCode::ExpectationFailed => assert("ImATeapot"@.len() != "ExpectationFailed"@.len()),
            ErrorCode::ImATeapot => {},
            ErrorCode::MisdirectedRequest => assert("ImATeapot"@.len() != "MisdirectedRequest"@.len()),
            ErrorCode::UnprocessableEntity => assert("ImATeapot"@.len() != "UnprocessableEntity"@.len()),
            ErrorCode::Locked => assert("ImATeapot"@.len() != "Locked"@.len()),
            ErrorCode::FailedDependency => assert("ImATeapot"@.len() != "FailedDependency"@.len()),
            ErrorCode::UpgradeRequired => assert("ImATeapot"@.len() != "UpgradeRequired"@.len()),
            ErrorCode::PreconditionRequired => assert("ImATeapot"@.len() != "PreconditionRequired"@.len()),
            ErrorCode::TooManyRequests => assert("ImATeapot"@.len() != "TooManyRequests"@.len()),
            ErrorCode::RequestHeaderFieldsTooLarge => assert("ImATeapot"@.len() != "RequestHeaderFieldsTooLarge"@.len()),
            ErrorCode::UnavailableForLegalReasons => assert("ImATeapot"@.len() != "UnavailableForLegalReasons"@.len()),
            ErrorCode::InternalServerError => assert("ImATeapot"@.len() != "InternalServerError"@.len()),
            ErrorCode::NotImplemented => assert("ImATeapot"@.len() != "NotImplemented"@.len()),
            ErrorCode::BadGateway => assert("ImATeapot"@.len() != "BadGateway"@.len()),
            ErrorCode::ServiceUnavailable => assert("ImATeapot"@.len() != "ServiceUnavailable"@.len()),
            ErrorCode::GatewayTimeout => assert("ImATeapot"@.len() != "GatewayTimeout"@.len()),
            ErrorCode::HttpVersionNotSupported => assert("ImATeapot"@.len() != "HttpVersionNotSupported"@.len()),
            ErrorCode::VariantAlsoNegotiates => assert("ImATeapot"@.len() != "VariantAlsoNegotiates"@.len()),
            ErrorCode::InsufficientStorage => assert("ImATeapot"@.len() != "InsufficientStorage"@.len()),
            ErrorCode::LoopDetected => assert("ImATeapot"@.len() != "LoopDetected"@.len()),
            ErrorCode::NotExtended => assert("ImATeapot"@.len() != "NotExtended"@.len()),
            ErrorCode::NetworkAuthenticationRequired => assert("ImATeapot"@.len() != "NetworkAuthenticationRequired"@.len()),
        },
        ErrorCode::MisdirectedRequest => match b {
            ErrorCode::MultipleChoices => assert("MisdirectedRequest"@.len() != "MultipleChoices"@.len()),
            ErrorCode::MovedPermanently => assert("MisdirectedRequest"@.len() != "MovedPermanently"@.len()),
            ErrorCode::Found => assert("MisdirectedRequest"@.len() != "Found"@.len()),
            ErrorCode::SeeOther => assert("MisdirectedRequest"@.len() != "SeeOther"@.len()),
            ErrorCode::NotModified => assert("MisdirectedRequest"@.len() != "NotModified"@.len()),
            ErrorCode::UseProxy => assert("MisdirectedRequest"@.len() != "UseProxy"@.len()),
            ErrorCode::TemporaryRedirect => assert("MisdirectedRequest"@.len() != "TemporaryRedirect"@.len()),
            ErrorCode::PermanentRedirect => assert("MisdirectedRequest"@.len() != "PermanentRedirect"@.len()),
            ErrorCode::BadRequest => assert("MisdirectedRequest"@.len() != "BadRequest"@.len()),
            ErrorCode::Unauthorized => assert("MisdirectedRequest"@.len() != "Unauthorized"@.len()),
            ErrorCode::PaymentRequired => assert("MisdirectedRequest"@.len() != "PaymentRequired"@.len()),
            ErrorCode::Forbidden => assert("MisdirectedRequest"@.len() != "Forbidden"@.len()),
            ErrorCode::NotFound => assert("MisdirectedRequest"@.len() != "NotFound"@.len()),
            ErrorCode::MethodNotAllowed => assert("MisdirectedRequest"@.len() != "MethodNotAllowed"@.len()),
            ErrorCode::NotAcceptable => assert("MisdirectedRequest"@.len() != "NotAcceptable"@.len()),
            ErrorCode::ProxyAuthenticationRequired => assert("MisdirectedRequest"@.len() != "ProxyAuthenticationRequired"@.len()),
            ErrorCode::RequestTimeout => assert("MisdirectedRequest"@.len() != "RequestTimeout"@.len()),
            ErrorCode::Conflict => assert("MisdirectedRequest"@.len() != "Conflict"@.len()),
            ErrorCode::Gone => assert("MisdirectedRequest"@.len() != "Gone"@.len()),
            ErrorCode::LengthRequired => assert("MisdirectedRequest"@.len() != "LengthRequired"@.len()),
            ErrorCode::PreconditionFailed => assert("MisdirectedRequest"@[0] != "PreconditionFailed"@[0]),
            ErrorCode::PayloadTooLarge => assert("MisdirectedRequest"@.len() != "PayloadTooLarge"@.len()),
            ErrorCode::UriTooLong => assert("MisdirectedRequest"@.len() != "UriTooLong"@.len()),
            ErrorCode::UnsupportedMediaType => assert("MisdirectedRequest"@.len() != "UnsupportedMediaType"@.len()),
            ErrorCode::RangeNotSatisfiable => assert("MisdirectedRequest"@.len() != "RangeNotSatisfiable"@.len()),
            ErrorCode::ExpectationFailed => assert("MisdirectedRequest"@.len() != "ExpectationFailed"@.len()),
            ErrorCode::ImATeapot => assert("MisdirectedRequest"@.len() != "ImATeapot"@.len()),
            ErrorCode::MisdirectedRequest => {},
            ErrorCode::UnprocessableEntity => assert("MisdirectedRequest"@.len() != "UnprocessableEntity"@.len()),
            ErrorCode::Locked => assert("MisdirectedRequest"@.len() != "Locked"@.len()),
            ErrorCode::FailedDependency => assert("MisdirectedRequest"@.len() != "FailedDependency"@.len()),
            ErrorCode::UpgradeRequired => assert("MisdirectedRequest"@.len() != "UpgradeRequired"@.len()),
            ErrorCode::PreconditionRequired => assert("MisdirectedRequest"@.len() != "PreconditionRequired"@.len()),
            ErrorCode::TooManyRequests => assert("MisdirectedRequest"@.len() != "TooManyRequests"@.len()),
            ErrorCode::RequestHeaderFieldsTooLarge => assert("MisdirectedRequest"@.len() != "RequestHeaderFieldsTooLarge"@.len()),
            ErrorCode::UnavailableForLegalReasons => assert("MisdirectedRequest"@.len() != "UnavailableForLegalReasons"@.len()),
            ErrorCode::InternalServerError => assert("MisdirectedRequest"@.len() != "InternalServerError"@.len()),
            ErrorCode::NotImplemented => assert("MisdirectedRequest"@.len() != "NotImplemented"@.len()),
            ErrorCode::BadGateway => assert("MisdirectedRequest"@.len() != "BadGateway"@.len()),
            ErrorCode::ServiceUnavailable => assert("MisdirectedRequest"@[0] != "ServiceUnavailable"@[0]),
            ErrorCode::GatewayTimeout => assert("MisdirectedRequest"@.len() != "GatewayTimeout"@.len()),
            ErrorCode::HttpVersionNotSupported => assert("MisdirectedRequest"@.len() != "HttpVersionNotSupported"@.len()),
            ErrorCode::VariantAlsoNegotiates => assert("MisdirectedRequest"@.len() != "VariantAlsoNegotiates"@.len()),
            ErrorCode::InsufficientStorage => assert("MisdirectedRequest"@.len() != "InsufficientStorage"@.len()),
            ErrorCode::LoopDetected => assert("MisdirectedRequest"@.len() != "LoopDetected"@.len()),
            ErrorCode::NotExtended => assert("MisdirectedRequest"@.len() != "NotExtended"@.len()),
            ErrorCode::NetworkAuthenticationRequired => assert("MisdirectedRequest"@.len() != "NetworkAuthenticationRequired"@.len()),
        },
        ErrorCode::UnprocessableEntity => match b {
            ErrorCode::MultipleChoices => assert("UnprocessableEntity"@.len() != "MultipleChoices"@.len()),
            ErrorCode::MovedPermanently => assert("UnprocessableEntity"@.len() != "MovedPermanently"@.len()),
            ErrorCode::Found => assert("UnprocessableEntity"@.len() != "Found"@.len()),
            ErrorCode::SeeOther => assert("UnprocessableEntity"@.len() != "SeeOther"@.len()),
            ErrorCode::NotModified => assert("UnprocessableEntity"@.len() != "NotModified"@.len()),
            ErrorCode::UseProxy => assert("UnprocessableEntity"@.len() != "UseProxy"@.len()),
            ErrorCode::TemporaryRedirect => assert("UnprocessableEntity"@.len() != "TemporaryRedirect"@.len()),
            ErrorCode::PermanentRedirect => assert("UnprocessableEntity"@.len() != "PermanentRedirect"@.len()),
            ErrorCode::BadRequest => assert("UnprocessableEntity"@.len() != "BadRequest"@.len()),
            ErrorCode::Unauthorized => assert("UnprocessableEntity"@.len() != "Unauthorized"@.len()),
            ErrorCode::PaymentRequired => assert("UnprocessableEntity"@.len() != "PaymentRequired"@.len()),
            ErrorCode::Forbidden => assert("UnprocessableEntity"@.len() != "Forbidden"@.len()),
            ErrorCode::NotFound => assert("UnprocessableEntity"@.len() != "NotFound"@.len()),
            ErrorCode::MethodNotAllowed => assert("UnprocessableEntity"@.len() != "MethodNotAllowed"@.len()),
            ErrorCode::NotAcceptable => assert("UnprocessableEntity"@.len() != "NotAcceptable"@.len()),
            ErrorCode::ProxyAuthenticationRequired => assert("UnprocessableEntity"@.len() != "ProxyAuthenticationRequired"@.len()),
            ErrorCode::RequestTimeout => assert("UnprocessableEntity"@.len() != "RequestTimeout"@.len()),
            ErrorCode::Conflict => assert("UnprocessableEntity"@.len() != "Conflict"@.len()),
            ErrorCode::Gone => assert("UnprocessableEntity"@.len() != "Gone"@.len()),
            ErrorCode::LengthRequired => assert("UnprocessableEntity"@.len() != "LengthRequired"@.len()),
            ErrorCode::PreconditionFailed => assert("UnprocessableEntity"@.len() != "PreconditionFailed"@.len()),
            ErrorCode::PayloadTooLarge => assert("UnprocessableEntity"@.len() != "PayloadTooLarge"@.len()),
            ErrorCode::UriTooLong => assert("UnprocessableEntity"@.len() != "UriTooLong"@.len()),
            ErrorCode::UnsupportedMediaType => assert("UnprocessableEntity"@.len() != "UnsupportedMediaType"@.len()),
            ErrorCode::RangeNotSatisfiable => assert("UnprocessableEntity"@[0] != "RangeNotSatisfiable"@[0]),
            ErrorCode::ExpectationFailed => assert("UnprocessableEntity"@.len() != "ExpectationFailed"@.len()),
            ErrorCode::ImATeapot => assert("UnprocessableEntity"@.len() != "ImATeapot"@.len()),
            ErrorCode::MisdirectedRequest => assert("UnprocessableEntity"@.len() != "MisdirectedRequest"@.len()),
            ErrorCode::UnprocessableEntity => {},
            ErrorCode::Locked => assert("UnprocessableEntity"@.len() != "Locked"@.len()),
            ErrorCode::FailedDependency => assert("UnprocessableEntity"@.len() != "FailedDependency"@.len()),
            ErrorCode::UpgradeRequired => assert("UnprocessableEntity"@.len() != "UpgradeRequired"@.len()),
            ErrorCode::PreconditionRequired => assert("UnprocessableEntity"@.len() != "PreconditionRequired"@.len()),
            ErrorCode::TooManyRequests => assert("UnprocessableEntity"@.len() != "TooManyRequests"@.len()),
            ErrorCode::RequestHeaderFieldsTooLarge => assert("UnprocessableEntity"@.len() != "RequestHeaderFieldsTooLarge"@.len()),
            ErrorCode::UnavailableForLegalReasons => assert("UnprocessableEntity"@.len() != "UnavailableForLegalReasons"@.len()),
            ErrorCode::InternalServerError => assert("UnprocessableEntity"@[0] != "InternalServerError"@[0]),
            ErrorCode::NotImplemented => assert("UnprocessableEntity"@.len() != "NotImplemented"@.len()),
            ErrorCode::BadGateway => assert("UnprocessableEntity"@.len() != "BadGateway"@.len()),
            ErrorCode::ServiceUnavailable => assert("UnprocessableEntity"@.len() != "ServiceUnavailable"@.len()),
            ErrorCode::GatewayTimeout => assert("UnprocessableEntity"@.len() != "GatewayTimeout"@.len()),
            ErrorCode::HttpVersionNotSupported => assert("UnprocessableEntity"@.len() != "HttpVersionNotSupported"@.len()),
            ErrorCode::VariantAlsoNegotiates => assert("UnprocessableEntity"@.len() != "VariantAlsoNegotiates"@.len()),
            ErrorCode::InsufficientStorage => assert("UnprocessableEntity"@[0] != "InsufficientStorage"@[0]),
            ErrorCode::LoopDetected => assert("UnprocessableEntity"@.len() != "LoopDetected"@.len()),
            ErrorCode::NotExtended => assert("UnprocessableEntity"@.len() != "NotExtended"@.len()),
            ErrorCode::NetworkAuthenticationRequired => assert("UnprocessableEntity"@.len() != "NetworkAuthenticationRequired"@.len()),
        },
        ErrorCode::Locked => match b {
            ErrorCode::MultipleChoices => assert("Locked"@.len() != "MultipleChoices"@.len()),
            ErrorCode::MovedPermanently => assert("Locked"@.len() != "MovedPermanently"@.len()),
            ErrorCode::Found => assert("Locked"@.len() != "Found"@.len()),
            ErrorCode::SeeOther => assert("Locked"@.len() != "SeeOther"@.len()),
            ErrorCode::NotModified => assert("Locked"@.len() != "NotModified"@.len()),
            ErrorCode::UseProxy => assert("Locked"@.len() != "UseProxy"@.len()),
            ErrorCode::TemporaryRedirect => assert("Locked"@.len() != "TemporaryRedirect"@.len()),
            ErrorCode::PermanentRedirect => assert("Locked"@.len() != "PermanentRedirect"@.len()),
            ErrorCode::BadRequest => assert("Locked"@.len() != "BadRequest"@.len()),
            ErrorCode::Unauthorized => assert("Locked"@.len() != "Unauthorized"@.len()),
            ErrorCode::PaymentRequired => assert("Locked"@.len() != "PaymentRequired"@.len()),
            ErrorCode::Forbidden => assert("Locked"@.len() != "Forbidden"@.len()),
            ErrorCode::NotFound => assert("Locked"@.len() != "NotFound"@.len()),
            ErrorCode::MethodNotAllowed => assert("Locked"@.len() != "MethodNotAllowed"@.len()),
            ErrorCode::NotAcceptable => assert("Locked"@.len() != "NotAcceptable"@.len()),
            ErrorCode::ProxyAuthenticationRequired => assert("Locked"@.len() != "ProxyAuthenticationRequired"@.len()),
            ErrorCode::RequestTimeout => assert("Locked"@.len() != "RequestTimeout"@.len()),
            ErrorCode::Conflict => assert("Locked"@.len() != "Conflict"@.len()),
            ErrorCode::Gone => assert("Locked"@.len() != "Gone"@.len()),
            ErrorCode::LengthRequired => assert("Locked"@.len() != "LengthRequired"@.len()),
            ErrorCode::PreconditionFailed => assert("Locked"@.len() != "PreconditionFailed"@.len()),
            ErrorCode::PayloadTooLarge => assert("Locked"@.len() != "PayloadTooLarge"@.len()),
            ErrorCode::UriTooLong => assert("Locked"@.len() != "UriTooLong"@.len()),
            ErrorCode::UnsupportedMediaType => assert("Locked"@.len() != "UnsupportedMediaType"@.len()),
            ErrorCode::RangeNotSatisfiable => assert("Locked"@.len() != "RangeNotSatisfiable"@.len()),
            ErrorCode::ExpectationFailed => assert("Locked"@.len() != "ExpectationFailed"@.len()),
            ErrorCode::ImATeapot => assert("Locked"@.len() != "ImATeapot"@.len()),
            ErrorCode::MisdirectedRequest => assert("Locked"@.len() != "MisdirectedRequest"@.len()),
            ErrorCode::UnprocessableEntity => assert("Locked"@.len() != "UnprocessableEntity"@.len()),
            ErrorCode::Locked => {},
            ErrorCode::FailedDependency => assert("Locked"@.len() != "FailedDependency"@.len()),
            ErrorCode::UpgradeRequired => assert("Locked"@.len() != "UpgradeRequired"@.len()),
            ErrorCode::PreconditionRequired => assert("Locked"@.len() != "PreconditionRequired"@.len()),
            ErrorCode::TooManyRequests => assert("Locked"@.len() != "TooManyRequests"@.len()),
            ErrorCode::RequestHeaderFieldsTooLarge => assert("Locked"@.len() != "RequestHeaderFieldsTooLarge"@.len()),
            ErrorCode::UnavailableForLegalReasons => assert("Locked"@.len() != "UnavailableForLegalReasons"@.len()),
            ErrorCode::InternalServerError => assert("Locked"@.len() != "InternalServerError"@.len()),
            ErrorCode::NotImplemented => assert("Locked"@.len() != "NotImplemented"@.len()),
            ErrorCode::BadGateway => assert("Locked"@.len() != "BadGateway"@.len()),
            ErrorCode::ServiceUnavailable => assert("Locked"@.len() != "ServiceUnavailable"@.len()),
            ErrorCode::GatewayTimeout => assert("Locked"@.len() != "GatewayTimeout"@.len()),
            ErrorCode::HttpVersionNotSupported => assert("Locked"@.len() != "HttpVersionNotSupported"@.len()),
            ErrorCode::VariantAlsoNegotiates => assert("Locked"@.len() != "VariantAlsoNegotiates"@.len()),
            ErrorCode::InsufficientStorage => assert("Locked"@.len() != "InsufficientStorage"@.len()),
            ErrorCode::LoopDetected => assert("Locked"@.len() != "LoopDetected"@.len()),
            ErrorCode::NotExtended => assert("Locked"@.len() != "NotExtended"@.len()),
            ErrorCode::NetworkAuthenticationRequired => assert("Locked"@.len() != "NetworkAuthenticationRequired"@.len()),
        },
        ErrorCode::FailedDependency => match b {
            ErrorCode::MultipleChoices => assert("FailedDependency"@.len() != "MultipleChoices"@.len()),
            ErrorCode::MovedPermanently => assert("FailedDependency"@[0] != "MovedPermanently"@[0]),
            ErrorCode::Found => assert("FailedDependency"@.len() != "Found"@.len()),
            ErrorCode::SeeOther => assert("FailedDependency"@.len() != "SeeOther"@.len()),
            ErrorCode::NotModified => assert("FailedDependency"@.len() != "NotModified"@.len()),
            ErrorCode::UseProxy => assert("FailedDependency"@.len() != "UseProxy"@.len()),
            ErrorCode::TemporaryRedirect => assert("FailedDependency"@.len() != "TemporaryRedirect"@.len()),
            ErrorCode::PermanentRedirect => assert("FailedDependency"@.len() != "PermanentRedirect"@.len()),
            ErrorCode::BadRequest => assert("FailedDependency"@.len() != "BadRequest"@.len()),
            ErrorCode::Unauthorized => assert("FailedDependency"@.len() != "Unauthorized"@.len()),
            ErrorCode::PaymentRequired => assert("FailedDependency"@.len() != "PaymentRequired"@.len()),
            ErrorCode::Forbidden => assert("FailedDependency"@.len() != "Forbidden"@.len()),
            ErrorCode::NotFound => assert("FailedDependency"@.len() != "NotFound"@.len()),
            ErrorCode::MethodNotAllowed => assert("FailedDependency"@[0] != "MethodNotAllowed"@[0]),
            ErrorCode::NotAcceptable => assert("FailedDependency"@.len() != "NotAcceptable"@.len()),
            ErrorCode::ProxyAuthenticationRequired => assert("FailedDependency"@.len() != "ProxyAuthenticationRequired"@.len()),
            ErrorCode::RequestTimeout => assert("FailedDependency"@.len() != "RequestTimeout"@.len()),
            ErrorCode::Conflict => assert("FailedDependency"@.len() != "Conflict"@.len()),
            ErrorCode::Gone => assert("FailedDependency"@.len() != "Gone"@.len()),
            ErrorCode::LengthRequired => assert("FailedDependency"@.len() != "LengthRequired"@.len()),
            ErrorCode::PreconditionFailed => assert("FailedDependency"@.len() != "PreconditionFailed"@.len()),
            ErrorCode::PayloadTooLarge => assert("FailedDependency"@.len() != "PayloadTooLarge"@.len()),
            ErrorCode::UriTooLong => assert("FailedDependency"@.len() != "UriTooLong"@.len()),
            ErrorCode::UnsupportedMediaType => assert("FailedDependency"@.len() != "UnsupportedMediaType"@.len()),
            ErrorCode::RangeNotSatisfiable => assert("FailedDependency"@.len() != "RangeNotSatisfiable"@.len()),
            ErrorCode::ExpectationFailed => assert("FailedDependency"@.len() != "ExpectationFailed"@.len()),
            ErrorCode::ImATeapot => assert("FailedDependency"@.len() != "ImATeapot"@.len()),
            ErrorCode::MisdirectedRequest => assert("FailedDependency"@.len() != "MisdirectedRequest"@.len()),
            ErrorCode::UnprocessableEntity => assert("FailedDependency"@.len() != "UnprocessableEntity"@.len()),
            ErrorCode::Locked => assert("FailedDependency"@.len() != "Locked"@.len()),
            ErrorCode::FailedDependency => {},
            ErrorCode::UpgradeRequired => assert("FailedDependency"@.len() != "UpgradeRequired"@.len()),
            ErrorCode::PreconditionRequired => assert("FailedDependency"@.len() != "PreconditionRequired"@.len()),
            ErrorCode::TooManyRequests => assert("FailedDependency"@.len() != "TooManyRequests"@.len()),
            ErrorCode::RequestHeaderFieldsTooLarge => assert("FailedDependency"@.len() != "RequestHeaderFieldsTooLarge"@.len()),
            ErrorCode::UnavailableForLegalReasons => assert("FailedDependency"@.len() != "UnavailableForLegalReasons"@.len()),
            ErrorCode::InternalServerError => assert("FailedDependency"@.len() != "InternalServerError"@.len()),
            ErrorCode::NotImplemented => assert("FailedDependency"@.len() != "NotImplemented"@.len()),
            ErrorCode::BadGateway => assert("FailedDependency"@.len() != "BadGateway"@.len()),
            ErrorCode::ServiceUnavailable => assert("FailedDependency"@.len() != "ServiceUnavailable"@.len()),
            ErrorCode::GatewayTimeout => assert("FailedDependency"@.len() != "GatewayTimeout"@.len()),
            ErrorCode::HttpVersionNotSupported => assert("FailedDependency"@.len() != "HttpVersionNotSupported"@.len()),
            ErrorCode::VariantAlsoNegotiates => assert("FailedDependency"@.len() != "VariantAlsoNegotiates"@.len()),
            ErrorCode::InsufficientStorage => assert("FailedDependency"@.len() != "InsufficientStorage"@.len()),
            ErrorCode::LoopDetected => assert("FailedDependency"@.len() != "LoopDetected"@.len()),
            ErrorCode::NotExtended => assert("FailedDependency"@.len() != "NotExtended"@.len()),
            ErrorCode::NetworkAuthenticationRequired => assert("FailedDependency"@.len() != "NetworkAuthenticationRequired"@.len()),
        },
        ErrorCode::UpgradeRequired => match b {
            ErrorCode::MultipleChoices => assert("UpgradeRequired"@[0] != "MultipleChoices"@[0]),
            ErrorCode::MovedPermanently => assert("UpgradeRequired"@.len() != "MovedPermanently"@.len()),
            ErrorCode::Found => assert("UpgradeRequired"@.len() != "Found"@.len()),
            ErrorCode::SeeOther => assert("UpgradeRequired"@.len() != "SeeOther"@.len()),
            ErrorCode::NotModified => assert("UpgradeRequired"@.len() != "NotModified"@.len()),
            ErrorCode::UseProxy => assert("UpgradeRequired"@.len() != "UseProxy"@.len()),
            ErrorCode::TemporaryRedirect => assert("UpgradeRequired"@.len() != "TemporaryRedirect"@.len()),
            ErrorCode::PermanentRedirect => assert("UpgradeRequired"@.len() != "PermanentRedirect"@.len()),
            ErrorCode::BadRequest => assert("UpgradeRequired"@.len() != "BadRequest"@.len()),
            ErrorCode::Unauthorized => assert("UpgradeRequired"@.len() != "Unauthorized"@.len()),
            ErrorCode::PaymentRequired => assert("UpgradeRequired"@[0] != "PaymentRequired"@[0]),
            ErrorCode::Forbidden => assert("UpgradeRequired"@.len() != "Forbidden"@.len()),
            ErrorCode::NotFound => assert("UpgradeRequired"@.len() != "NotFound"@.len()),
            ErrorCode::MethodNotAllowed => assert("UpgradeRequired"@.len() != "MethodNotAllowed"@.len()),
            ErrorCode::NotAcceptable => assert("UpgradeRequired"@.len() != "NotAcceptable"@.len()),
            ErrorCode::ProxyAuthenticationRequired => assert("UpgradeRequired"@.len() != "ProxyAuthenticationRequired"@.len()),
            ErrorCode::RequestTimeout => assert("UpgradeRequired"@.len() != "RequestTimeout"@.len()),
            ErrorCode::Conflict => assert("UpgradeRequired"@.len() != "Conflict"@.len()),
            ErrorCode::Gone => assert("UpgradeRequired"@.len() != "Gone"@.len()),
            ErrorCode::LengthRequired => assert("UpgradeRequired"@.len() != "LengthRequired"@.len()),
            ErrorCode::PreconditionFailed => assert("UpgradeRequired"@.len() != "PreconditionFailed"@.len()),
            ErrorCode::PayloadTooLarge => assert("UpgradeRequired"@[0] != "PayloadTooLarge"@[0]),
            ErrorCode::UriTooLong => assert("UpgradeRequired"@.len() != "UriTooLong"@.len()),
            ErrorCode::UnsupportedMediaType => assert("UpgradeRequired"@.len() != "UnsupportedMediaType"@.len()),
            ErrorCode::RangeNotSatisfiable => assert("UpgradeRequired"@.len() != "RangeNotSatisfiable"@.len()),
            ErrorCode::ExpectationFailed => assert("UpgradeRequired"@.len() != "ExpectationFailed"@.len()),
            ErrorCode::ImATeapot => assert("UpgradeRequired"@.len() != "ImATeapot"@.len()),
            ErrorCode::MisdirectedRequest => assert("UpgradeRequired"@.len() != "MisdirectedRequest"@.len()),
            ErrorCode::UnprocessableEntity => assert("UpgradeRequired"@.len() != "UnprocessableEntity"@.len()),
            ErrorCode::Locked => assert("UpgradeRequired"@.len() != "Locked"@.len()),
            ErrorCode::FailedDependency => assert("UpgradeRequired"@.len() != "FailedDependency"@.len()),
            ErrorCode::UpgradeRequired => {},
            ErrorCode::PreconditionRequired => assert("UpgradeRequired"@.len() != "PreconditionRequired"@.len()),
            ErrorCode::TooManyRequests => assert("UpgradeRequired"@[0] != "TooManyRequests"@[0]),
            ErrorCode::RequestHeaderFieldsTooLarge => assert("UpgradeRequired"@.len() != "RequestHeaderFieldsTooLarge"@.len()),
            ErrorCode::UnavailableForLegalReasons => assert("UpgradeRequired"@.len() != "UnavailableForLegalReasons"@.len()),
            ErrorCode::InternalServerError => assert("UpgradeRequired"@.len() != "InternalServerError"@.len()),
            ErrorCode::NotImplemented => assert("UpgradeRequired"@.len() != "NotImplemented"@.len()),
            ErrorCode::BadGateway => assert("UpgradeRequired"@.len() != "BadGateway"@.len()),
            ErrorCode::ServiceUnavailable => assert("UpgradeRequired"@.len() != "ServiceUnavailable"@.len()),
            ErrorCode::GatewayTimeout => assert("UpgradeRequired"@.len() != "GatewayTimeout"@.len()),
            ErrorCode::HttpVersionNotSupported => assert("UpgradeRequired"@.len() != "HttpVersionNotSupported"@.len()),
            ErrorCode::VariantAlsoNegotiates => assert("UpgradeRequired"@.len() != "VariantAlsoNegotiates"@.len()),
            ErrorCode::InsufficientStorage => assert("UpgradeRequired"@.len() != "InsufficientStorage"@.len()),
            ErrorCode::LoopDetected => assert("UpgradeRequired"@.len() != "LoopDetected"@.len()),
            ErrorCode::NotExtended => assert("UpgradeRequired"@.len() != "NotExtended"@.len()),
            ErrorCode::NetworkAuthenticationRequired => assert("UpgradeRequired"@.len() != "NetworkAuthenticationRequired"@.len()),
        },
        ErrorCode::PreconditionRequired => match b {
            ErrorCode::MultipleChoices => assert("PreconditionRequired"@.len() != "MultipleChoices"@.len()),
            ErrorCode::MovedPermanently => assert("PreconditionRequired"@.len() != "MovedPermanently"@.len()),
            ErrorCode::Found => assert("PreconditionRequired"@.len() != "Found"@.len()),
            ErrorCode::SeeOther => assert("PreconditionRequired"@.len() != "SeeOther"@.len()),
            ErrorCode::NotModified => assert("PreconditionRequired"@.len() != "NotModified"@.len()),
            ErrorCode::UseProxy => assert("PreconditionRequired"@.len() != "UseProxy"@.len()),
            ErrorCode::TemporaryRedirect => assert("PreconditionRequired"@.len() != "TemporaryRedirect"@.len()),
            ErrorCode::PermanentRedirect => assert("PreconditionRequired"@.len() != "PermanentRedirect"@.len()),
            ErrorCode::BadRequest => assert("PreconditionRequired"@.len() != "BadRequest"@.len()),
            ErrorCode::Unauthorized => assert("PreconditionRequired"@.len() != "Unauthorized"@.len()),
            ErrorCode::PaymentRequired => assert("PreconditionRequired"@.len() != "PaymentRequired"@.len()),
            ErrorCode::Forbidden => assert("PreconditionRequired"@.len() != "Forbidden"@.len()),
            ErrorCode::NotFound => assert("PreconditionRequired"@.len() != "NotFound"@.len()),
            ErrorCode::MethodNotAllowed => assert("PreconditionRequired"@.len() != "MethodNotAllowed"@.len()),
            ErrorCode::NotAcceptable => assert("PreconditionRequired"@.len() != "NotAcceptable"@.len()),
            ErrorCode::ProxyAuthenticationRequired => assert("PreconditionRequired"@.len() != "ProxyAuthenticationRequired"@.len()),
            ErrorCode::RequestTimeout => assert("PreconditionRequired"@.len() != "RequestTimeout"@.len()),
            ErrorCode::Conflict => assert("PreconditionRequired"@.len() != "Conflict"@.len()),
            ErrorCode::Gone => assert("PreconditionRequired"@.len() != "Gone"@.len()),
            ErrorCode::LengthRequired => assert("PreconditionRequired"@.len() != "LengthRequired"@.len()),
            ErrorCode::PreconditionFailed => assert("PreconditionRequired"@.len() != "PreconditionFailed"@.len()),
            ErrorCode::PayloadTooLarge => assert("PreconditionRequired"@.len() != "PayloadTooLarge"@.len()),
            ErrorCode::UriTooLong => assert("PreconditionRequired"@.len() != "UriTooLong"@.len()),
            ErrorCode::UnsupportedMediaType => assert("PreconditionRequired"@[0] != "UnsupportedMediaType"@[0]),
            ErrorCode::RangeNotSatisfiable => assert("PreconditionRequired"@.len() != "RangeNotSatisfiable"@.len()),
            ErrorCode::ExpectationFailed => assert("PreconditionRequired"@.len() != "ExpectationFailed"@.len()),
            ErrorCode::ImATeapot => assert("PreconditionRequired"@.len() != "ImATeapot"@.len()),
            ErrorCode::MisdirectedRequest => assert("PreconditionRequired"@.len() != "MisdirectedRequest"@.len()),
            ErrorCode::UnprocessableEntity => assert("PreconditionRequired"@.len() != "UnprocessableEntity"@.len()),
            ErrorCode::Locked => assert("PreconditionRequired"@.len() != "Locked"@.len()),
            ErrorCode::FailedDependency => assert("PreconditionRequired"@.len() != "FailedDependency"@.len()),
            ErrorCode::UpgradeRequired => assert("PreconditionRequired"@.len() != "UpgradeRequired"@.len()),
            ErrorCode::PreconditionRequired => {},
            ErrorCode::TooManyRequests => assert("PreconditionRequired"@.len() != "TooManyRequests"@.len()),
            ErrorCode::RequestHeaderFieldsTooLarge => assert("PreconditionRequired"@.len() != "RequestHeaderFieldsTooLarge"@.len()),
            ErrorCode::UnavailableForLegalReasons => assert("PreconditionRequired"@.len() != "UnavailableForLegalReasons"@.len()),
            ErrorCode::InternalServerError => assert("PreconditionRequired"@.len() != "InternalServerError"@.len()),
            ErrorCode::NotImplemented => assert("PreconditionRequired"@.len() != "NotImplemented"@.len()),
            ErrorCode::BadGateway => assert("PreconditionRequired"@.len() != "BadGateway"@.len()),
            ErrorCode::ServiceUnavailable => assert("PreconditionRequired"@.len() != "ServiceUnavailable"@.len()),
            ErrorCode::GatewayTimeout => assert("PreconditionRequired"@.len() != "GatewayTimeout"@.len()),
            ErrorCode::HttpVersionNotSupported => assert("PreconditionRequired"@.len() != "HttpVersionNotSupported"@.len()),
            ErrorCode::VariantAlsoNegotiates => assert("PreconditionRequired"@.len() != "VariantAlsoNegotiates"@.len()),
            ErrorCode::InsufficientStorage => assert("PreconditionRequired"@.len() != "InsufficientStorage"@.len()),
            ErrorCode::LoopDetected => assert("PreconditionRequired"@.len() != "LoopDetected"@.len()),
            ErrorCode::NotExtended => assert("PreconditionRequired"@.len() != "NotExtended"@.len()),
            ErrorCode::NetworkAuthenticationRequired => assert("PreconditionRequired"@.len() != "NetworkAuthenticationRequired"@.len()),
        },
        ErrorCode::TooManyRequests => match b {
            ErrorCode::MultipleChoices => assert("TooManyRequests"@[0] != "MultipleChoices"@[0]),
            ErrorCode::MovedPermanently => assert("TooManyRequests"@.len() != "MovedPermanently"@.len()),
            ErrorCode::Found => assert("TooManyRequests"@.len() != "Found"@.len()),
            ErrorCode::SeeOther => assert("TooManyRequests"@.len() != "SeeOther"@.len()),
            ErrorCode::NotModified => assert("TooManyRequests"@.len() != "NotModified"@.len()),
            ErrorCode::UseProxy => assert("TooManyRequests"@.len() != "UseProxy"@.len()),
            ErrorCode::TemporaryRedirect => assert("TooManyRequests"@.len() != "TemporaryRedirect"@.len()),
            ErrorCode::PermanentRedirect => assert("TooManyRequests"@.len() != "PermanentRedirect"@.len()),
            ErrorCode::BadRequest => assert("TooManyRequests"@.len() != "BadRequest"@.len()),
            ErrorCode::Unauthorized => assert("TooManyRequests"@.len() != "Unauthorized"@.len()),
            ErrorCode::PaymentRequired => assert("TooManyRequests"@[0] != "PaymentRequired"@[0]),
            ErrorCode::Forbidden => assert("TooManyRequests"@.len() != "Forbidden"@.len()),
            ErrorCode::NotFound => assert("TooManyRequests"@.len() != "NotFound"@.len()),
            ErrorCode::MethodNotAllowed => assert("TooManyRequests"@.len() != "MethodNotAllowed"@.len()),
            ErrorCode::NotAcceptable => assert("TooManyRequests"@.len() != "NotAcceptable"@.len()),
            ErrorCode::ProxyAuthenticationRequired => assert("TooManyRequests"@.len() != "ProxyAuthenticationRequired"@.len()),
            ErrorCode::RequestTimeout => assert("TooManyRequests"@.len() != "RequestTimeout"@.len()),
            ErrorCode::Conflict => assert("TooManyRequests"@.len() != "Conflict"@.len()),
            ErrorCode::Gone => assert("TooManyRequests"@.len() != "Gone"@.len()),
            ErrorCode::LengthRequired => assert("TooManyRequests"@.len() != "LengthRequired"@.len()),
            ErrorCode::PreconditionFailed => assert("TooManyRequests"@.len() != "PreconditionFailed"@.len()),
            ErrorCode::PayloadTooLarge => assert("TooManyRequests"@[0] != "PayloadTooLarge"@[0]),
            ErrorCode::UriTooLong => assert("TooManyRequests"@.len() != "UriTooLong"@.len()),
            ErrorCode::UnsupportedMediaType => assert("TooManyRequests"@.len() != "UnsupportedMediaType"@.len()),
            ErrorCode::RangeNotSatisfiable => assert("TooManyRequests"@.len() != "RangeNotSatisfiable"@.len()),
            ErrorCode::ExpectationFailed => assert("TooManyRequests"@.len() != "ExpectationFailed"@.len()),
            ErrorCode::ImATeapot => assert("TooManyRequests"@.len() != "ImATeapot"@.len()),
            ErrorCode::MisdirectedRequest => assert("TooManyRequests"@.len() != "MisdirectedRequest"@.len()),
            ErrorCode::UnprocessableEntity => assert("TooManyRequests"@.len() != "UnprocessableEntity"@.len()),
            ErrorCode::Locked => assert("TooManyRequests"@.len() != "Locked"@.len()),
            ErrorCode::FailedDependency => assert("TooManyRequests"@.len() != "FailedDependency"@.len()),
            ErrorCode::UpgradeRequired => assert("TooManyRequests"@[0] != "UpgradeRequired"@[0]),
            ErrorCode::PreconditionRequired => assert("TooManyRequests"@.len() != "PreconditionRequired"@.len()),
            ErrorCode::TooManyRequests => {},
            ErrorCode::RequestHeaderFieldsTooLarge => assert("TooManyRequests"@.len() != "RequestHeaderFieldsTooLarge"@.len()),
            ErrorCode::UnavailableForLegalReasons => assert("TooManyRequests"@.len() != "UnavailableForLegalReasons"@.len()),
            ErrorCode::InternalServerError => assert("TooManyRequests"@.len() != "InternalServerError"@.len()),
            ErrorCode::NotImplemented => assert("TooManyRequests"@.len() != "NotImplemented"@.len()),
            ErrorCode::BadGateway => assert("TooManyRequests"@.len() != "BadGateway"@.len()),
            ErrorCode::ServiceUnavailable => assert("TooManyRequests"@.len() != "ServiceUnavailable"@.len()),
            ErrorCode::GatewayTimeout => assert("TooManyRequests"@.len() != "GatewayTimeout"@.len()),
            ErrorCode::HttpVersionNotSupported => assert("TooManyRequests"@.len() != "HttpVersionNotSupported"@.len()),
            ErrorCode::VariantAlsoNegotiates => assert("TooManyRequests"@.len() != "VariantAlsoNegotiates"@.len()),
            ErrorCode::InsufficientStorage => assert("TooManyRequests"@.len() != "InsufficientStorage"@.len()),
            ErrorCode::LoopDetected => assert("TooManyRequests"@.len() != "LoopDetected"@.len()),
            ErrorCode::NotExtended => assert("TooManyRequests"@.len() != "NotExtended"@.len()),
            ErrorCode::NetworkAuthenticationRequired => assert("TooManyRequests"@.len() != "NetworkAuthenticationRequired"@.len()),
        },
        ErrorCode::RequestHeaderFieldsTooLarge => match b {
            ErrorCode::MultipleChoices => assert("RequestHeaderFieldsTooLarge"@.len() != "MultipleChoices"@.len()),
            ErrorCode::MovedPermanently => assert("RequestHeaderFieldsTooLarge"@.len() != "MovedPermanently"@.len()),
            ErrorCode::Found => assert("RequestHeaderFieldsTooLarge"@.len() != "Found"@.len()),
            ErrorCode::SeeOther => assert("RequestHeaderFieldsTooLarge"@.len() != "SeeOther"@.len()),
            ErrorCode::NotModified => assert("RequestHeaderFieldsTooLarge"@.len() != "NotModified"@.len()),
            ErrorCode::UseProxy => assert("RequestHeaderFieldsTooLarge"@.len() != "UseProxy"@.len()),
            ErrorCode::TemporaryRedirect => assert("RequestHeaderFieldsTooLarge"@.len() != "TemporaryRedirect"@.len()),
            ErrorCode::PermanentRedirect => assert("RequestHeaderFieldsTooLarge"@.len() != "PermanentRedirect"@.len()),
            ErrorCode::BadRequest => assert("RequestHeaderFieldsTooLarge"@.len() != "BadRequest"@.len()),
            ErrorCode::Unauthorized => assert("RequestHeaderFieldsTooLarge"@.len() != "Unauthorized"@.len()),
            ErrorCode::PaymentRequired => assert("RequestHeaderFieldsTooLarge"@.len() != "PaymentRequired"@.len()),
            ErrorCode::Forbidden => assert("RequestHeaderFieldsTooLarge"@.len() != "Forbidden"@.len()),
            ErrorCode::NotFound => assert("RequestHeaderFieldsTooLarge"@.len() != "NotFound"@.len()),
            ErrorCode::MethodNotAllowed => assert("RequestHeaderFieldsTooLarge"@.len() != "MethodNotAllowed"@.len()),
            ErrorCode::NotAcceptable => assert("RequestHeaderFieldsTooLarge"@.len() != "NotAcceptable"@.len()),
            ErrorCode::ProxyAuthenticationRequired => assert("RequestHeaderFieldsTooLarge"@[0] != "ProxyAuthenticationRequired"@[0]),
            ErrorCode::RequestTimeout => assert("RequestHeaderFieldsTooLarge"@.len() != "RequestTimeout"@.len()),
            ErrorCode::Conflict => assert("RequestHeaderFieldsTooLarge"@.len() != "Conflict"@.len()),
            ErrorCode::Gone => assert("RequestHeaderFieldsTooLarge"@.len() != "Gone"@.len()),
            ErrorCode::LengthRequired => assert("RequestHeaderFieldsTooLarge"@.len() != "LengthRequired"@.len()),
            ErrorCode::PreconditionFailed => assert("RequestHeaderFieldsTooLarge"@.len() != "PreconditionFailed"@.len()),
            ErrorCode::PayloadTooLarge => assert("RequestHeaderFieldsTooLarge"@.len() != "PayloadTooLarge"@.len()),
            ErrorCode::UriTooLong => assert("RequestHeaderFieldsTooLarge"@.len() != "UriTooLong"@.len()),
            ErrorCode::UnsupportedMediaType => assert("RequestHeaderFieldsTooLarge"@.len() != "UnsupportedMediaType"@.len()),
            ErrorCode::RangeNotSatisfiable => assert("RequestHeaderFieldsTooLarge"@.len() != "RangeNotSatisfiable"@.len()),
            ErrorCode::ExpectationFailed => assert("RequestHeaderFieldsTooLarge"@.len() != "ExpectationFailed"@.len()),
            ErrorCode::ImATeapot => assert("RequestHeaderFieldsTooLarge"@.len() != "ImATeapot"@.len()),
            ErrorCode::MisdirectedRequest => assert("RequestHeaderFieldsTooLarge"@.len() != "MisdirectedRequest"@.len()),
            ErrorCode::UnprocessableEntity => assert("RequestHeaderFieldsTooLarge"@.len() != "UnprocessableEntity"@.len()),
            ErrorCode::Locked => assert("RequestHeaderFieldsTooLarge"@.len() != "Locked"@.len()),
            ErrorCode::FailedDependency => assert("RequestHeaderFieldsTooLarge"@.len() != "FailedDependency"@.len()),
            ErrorCode::UpgradeRequired => assert("RequestHeaderFieldsTooLarge"@.len() != "UpgradeRequired"@.len()),
            ErrorCode::PreconditionRequired => assert("RequestHeaderFieldsTooLarge"@.len() != "PreconditionRequired"@.len()),
            ErrorCode::TooManyRequests => assert("RequestHeaderFieldsTooLarge"@.len() != "TooManyRequests"@.len()),
            ErrorCode::RequestHeaderFieldsTooLarge => {},
            ErrorCode::UnavailableForLegalReasons => assert("RequestHeaderFieldsTooLarge"@.len() != "UnavailableForLegalReasons"@.len()),
            ErrorCode::InternalServerError => assert("RequestHeaderFieldsTooLarge"@.len() != "InternalServerError"@.len()),
            ErrorCode::NotImplemented => assert("RequestHeaderFieldsTooLarge"@.len() != "NotImplemented"@.len()),
            ErrorCode::BadGateway => assert("RequestHeaderFieldsTooLarge"@.len() != "BadGateway"@.len()),
            ErrorCode::ServiceUnavailable => assert("RequestHeaderFieldsTooLarge"@.len() != "ServiceUnavailable"@.len()),
            ErrorCode::GatewayTimeout => assert("RequestHeaderFieldsTooLarge"@.len() != "GatewayTimeout"@.len()),
            ErrorCode::HttpVersionNotSupported => assert("RequestHeaderFieldsTooLarge"@.len() != "HttpVersionNotSupported"@.len()),
            ErrorCode::VariantAlsoNegotiates => assert("RequestHeaderFieldsTooLarge"@.len() != "VariantAlsoNegotiates"@.len()),
            ErrorCode::InsufficientStorage => assert("RequestHeaderFieldsTooLarge"@.len() != "InsufficientStorage"@.len()),
            ErrorCode::LoopDetected => assert("RequestHeaderFieldsTooLarge"@.len() != "LoopDetected"@.len()),
            ErrorCode::NotExtended => assert("RequestHeaderFieldsTooLarge"@.len() != "NotExtended"@.len()),
            ErrorCode::NetworkAuthenticationRequired => assert("RequestHeaderFieldsTooLarge"@.len() != "NetworkAuthenticationRequired"@.len()),
        },
        ErrorCode::UnavailableForLegalReasons => match b {
            ErrorCode::MultipleChoices => assert("UnavailableForLegalReasons"@.len() != "MultipleChoices"@.len()),
            ErrorCode::MovedPermanently => assert("UnavailableForLegalReasons"@.len() != "MovedPermanently"@.len()),
            ErrorCode::Found => assert("UnavailableForLegalReasons"@.len() != "Found"@.len()),
            ErrorCode::SeeOther => assert("UnavailableForLegalReasons"@.len() != "SeeOther"@.len()),
            ErrorCode::NotModified => assert("UnavailableForLegalReasons"@.len() != "NotModified"@.len()),
            ErrorCode::UseProxy => assert("UnavailableForLegalReasons"@.len() != "UseProxy"@.len()),
            ErrorCode::TemporaryRedirect => assert("UnavailableForLegalReasons"@.len() != "TemporaryRedirect"@.len()),
            ErrorCode::PermanentRedirect => assert("UnavailableForLegalReasons"@.len() != "PermanentRedirect"@.len()),
            ErrorCode::BadRequest => assert("UnavailableForLegalReasons"@.len() != "BadRequest"@.len()),
            ErrorCode::Unauthorized => assert("UnavailableForLegalReasons"@.len() != "Unauthorized"@.len()),
            ErrorCode::PaymentRequired => assert("UnavailableForLegalReasons"@.len() != "PaymentRequired"@.len()),
            ErrorCode::Forbidden => assert("UnavailableForLegalReasons"@.len() != "Forbidden"@.len()),
            ErrorCode::NotFound => assert("UnavailableForLegalReasons"@.len() != "NotFound"@.len()),
            ErrorCode::MethodNotAllowed => assert("UnavailableForLegalReasons"@.len() != "MethodNotAllowed"@.len()),
            ErrorCode::NotAcceptable => assert("UnavailableForLegalReasons"@.len() != "NotAcceptable"@.len()),
            ErrorCode::ProxyAuthenticationRequired => assert("UnavailableForLegalReasons"@.len() != "ProxyAuthenticationRequired"@.len()),
            ErrorCode::RequestTimeout => assert("UnavailableForLegalReasons"@.len() != "RequestTimeout"@.len()),
            ErrorCode::Conflict => assert("UnavailableForLegalReasons"@.len() != "Conflict"@.len()),
            ErrorCode::Gone => assert("UnavailableForLegalReasons"@.len() != "Gone"@.len()),
            ErrorCode::LengthRequired => assert("UnavailableForLegalReasons"@.len() != "LengthRequired"@.len()),
            ErrorCode::PreconditionFailed => assert("UnavailableForLegalReasons"@.len() != "PreconditionFailed"@.len()),
            ErrorCode::PayloadTooLarge => assert("UnavailableForLegalReasons"@.len() != "PayloadTooLarge"@.len()),
            ErrorCode::UriTooLong => assert("UnavailableForLegalReasons"@.len() != "UriTooLong"@.len()),
            ErrorCode::UnsupportedMediaType => assert("UnavailableForLegalReasons"@.len() != "UnsupportedMediaType"@.len()),
            ErrorCode::RangeNotSatisfiable => assert("UnavailableForLegalReasons"@.len() != "RangeNotSatisfiable"@.len()),
            ErrorCode::ExpectationFailed => assert("UnavailableForLegalReasons"@.len() != "ExpectationFailed"@.len()),
            ErrorCode::ImATeapot => assert("UnavailableForLegalReasons"@.len() != "ImATeapot"@.len()),
            ErrorCode::MisdirectedRequest => assert("UnavailableForLegalReasons"@.len() != "MisdirectedRequest"@.len()),
            ErrorCode::UnprocessableEntity => assert("UnavailableForLegalReasons"@.len() != "UnprocessableEntity"@.len()),
            ErrorCode::Locked => assert("UnavailableForLegalReasons"@.len() != "Locked"@.len()),
            ErrorCode::FailedDependency => assert("UnavailableForLegalReasons"@.len() != "FailedDependency"@.len()),
            ErrorCode::UpgradeRequired => assert("UnavailableForLegalReasons"@.len() != "UpgradeRequired"@.len()),
            ErrorCode::PreconditionRequired => assert("UnavailableForLegalReasons"@.len() != "PreconditionRequired"@.len()),
            ErrorCode::TooManyRequests => assert("UnavailableForLegalReasons"@.len() != "TooManyRequests"@.len()),
            ErrorCode::RequestHeaderFieldsTooLarge => assert("UnavailableForLegalReasons"@.len() != "RequestHeaderFieldsTooLarge"@.len()),
            ErrorCode::UnavailableForLegalReasons => {},
            ErrorCode::InternalServerError => assert("UnavailableForLegalReasons"@.len() != "InternalServerError"@.len()),
            ErrorCode::NotImplemented => assert("UnavailableForLegalReasons"@.len() != "NotImplemented"@.len()),
            ErrorCode::BadGateway => assert("UnavailableForLegalReasons"@.len() != "BadGateway"@.len()),
            ErrorCode::ServiceUnavailable => assert("UnavailableForLegalReasons"@.len() != "ServiceUnavailable"@.len()),
            ErrorCode::GatewayTimeout => assert("UnavailableForLegalReasons"@.len() != "GatewayTimeout"@.len()),
            ErrorCode::HttpVersionNotSupported => assert("UnavailableForLegalReasons"@.len() != "HttpVersionNotSupported"@.len()),
            ErrorCode::VariantAlsoNegotiates => assert("UnavailableForLegalReasons"@.len() != "VariantAlsoNegotiates"@.len()),
            ErrorCode::InsufficientStorage => assert("UnavailableForLegalReasons"@.len() != "InsufficientStorage"@.len()),
            ErrorCode::LoopDetected => assert("UnavailableForLegalReasons"@.len() != "LoopDetected"@.len()),
            ErrorCode::NotExtended => assert("UnavailableForLegalReasons"@.len() != "NotExtended"@.len()),
            ErrorCode::NetworkAuthenticationRequired => assert("UnavailableForLegalReasons"@.len() != "NetworkAuthenticationRequired"@.len()),
        },
        ErrorCode::InternalServerError => match b {
            ErrorCode::MultipleChoices => assert("InternalServerError"@.len() != "MultipleChoices"@.len()),
            ErrorCode::MovedPermanently => assert("InternalServerError"@.len() != "MovedPermanently"@.len()),
            ErrorCode::Found => assert("InternalServerError"@.len() != "Found"@.len()),
            ErrorCode::SeeOther => assert("InternalServerError"@.len() != "SeeOther"@.len()),
            ErrorCode::NotModified => assert("InternalServerError"@.len() != "NotModified"@.len()),
            ErrorCode::UseProxy => assert("InternalServerError"@.len() != "UseProxy"@.len()),
            ErrorCode::TemporaryRedirect => assert("InternalServerError"@.len() != "TemporaryRedirect"@.len()),
            ErrorCode::PermanentRedirect => assert("InternalServerError"@.len() != "PermanentRedirect"@.len()),
            ErrorCode::BadRequest => assert("InternalServerError"@.len() != "BadRequest"@.len()),
            ErrorCode::Unauthorized => assert("InternalServerError"@.len() != "Unauthorized"@.len()),
            ErrorCode::PaymentRequired => assert("InternalServerError"@.len() != "PaymentRequired"@.len()),
            ErrorCode::Forbidden => assert("InternalServerError"@.len() != "Forbidden"@.len()),
            ErrorCode::NotFound => assert("InternalServerError"@.len() != "NotFound"@.len()),
            ErrorCode::MethodNotAllowed => assert("InternalServerError"@.len() != "MethodNotAllowed"@.len()),
            ErrorCode::NotAcceptable => assert("InternalServerError"@.len() != "NotAcceptable"@.len()),
            ErrorCode::ProxyAuthenticationRequired => assert("InternalServerError"@.len() != "ProxyAuthenticationRequired"@.len()),
            ErrorCode::RequestTimeout => assert("InternalServerError"@.len() != "RequestTimeout"@.len()),
            ErrorCode::Conflict => assert("InternalServerError"@.len() != "Conflict"@.len()),
            ErrorCode::Gone => assert("InternalServerError"@.len() != "Gone"@.len()),
            ErrorCode::LengthRequired => assert("InternalServerError"@.len() != "LengthRequired"@.len()),
            ErrorCode::PreconditionFailed => assert("InternalServerError"@.len() != "PreconditionFailed"@.len()),
            ErrorCode::PayloadTooLarge => assert("InternalServerError"@.len() != "PayloadTooLarge"@.len()),
            ErrorCode::UriTooLong => assert("InternalServerError"@.len() != "UriTooLong"@.len()),
            ErrorCode::UnsupportedMediaType => assert("InternalServerError"@.len() != "UnsupportedMediaType"@.len()),
            ErrorCode::RangeNotSatisfiable => assert("InternalServerError"@[0] != "RangeNotSatisfiable"@[0]),
            ErrorCode::ExpectationFailed => assert("InternalServerError"@.len() != "ExpectationFailed"@.len()),
            ErrorCode::ImATeapot => assert("InternalServerError"@.len() != "ImATeapot"@.len()),
            ErrorCode::MisdirectedRequest => assert("InternalServerError"@.len() != "MisdirectedRequest"@.len()),
            ErrorCode::UnprocessableEntity => assert("InternalServerError"@[0] != "UnprocessableEntity"@[0]),
            ErrorCode::Locked => assert("InternalServerError"@.len() != "Locked"@.len()),
            ErrorCode::FailedDependency => assert("InternalServerError"@.len() != "FailedDependency"@.len()),
            ErrorCode::UpgradeRequired => assert("InternalServerError"@.len() != "UpgradeRequired"@.len()),
            ErrorCode::PreconditionRequired => assert("InternalServerError"@.len() != "PreconditionRequired"@.len()),
            ErrorCode::TooManyRequests => assert("InternalServerError"@.len() != "TooManyRequests"@.len()),
            ErrorCode::RequestHeaderFieldsTooLarge => assert("InternalServerError"@.len() != "RequestHeaderFieldsTooLarge"@.len()),
            ErrorCode::UnavailableForLegalReasons => assert("InternalServerError"@.len() != "UnavailableForLegalReasons"@.len()),
            ErrorCode::InternalServerError => {},
            ErrorCode::NotImplemented => assert("InternalServerError"@.len() != "NotImplemented"@.len()),
            ErrorCode::BadGateway => assert("InternalServerError"@.len() != "BadGateway"@.len()),
            ErrorCode::ServiceUnavailable => assert("InternalServerError"@.len() != "ServiceUnavailable"@.len()),
            ErrorCode::GatewayTimeout => assert("InternalServerError"@.len() != "GatewayTimeout"@.len()),
            ErrorCode::HttpVersionNotSupported => assert("InternalServerError"@.len() != "HttpVersionNotSupported"@.len()),
            ErrorCode::VariantAlsoNegotiates => assert("InternalServerError"@.len() != "VariantAlsoNegotiates"@.len()),
            ErrorCode::InsufficientStorage => assert("InternalServerError"@[2] != "InsufficientStorage"@[2]),
            ErrorCode::LoopDetected => assert("InternalServerError"@.len() != "LoopDetected"@.len()),
            ErrorCode::NotExtended => assert("InternalServerError"@.len() != "NotExtended"@.len()),
            ErrorCode::NetworkAuthenticationRequired => assert("InternalServerError"@.len() != "NetworkAuthenticationRequired"@.len()),
        },
        ErrorCode::NotImplemented => match b {
            ErrorCode::MultipleChoices => assert("NotImplemented"@.len() != "MultipleChoices"@.len()),
            ErrorCode::MovedPermanently => assert("NotImplemented"@.len() != "MovedPermanently"@.len()),
            ErrorCode::Found => assert("NotImplemented"@.len() != "Found"@.len()),
            ErrorCode::SeeOther => assert("NotImplemented"@.len() != "SeeOther"@.len()),
            ErrorCode::NotModified => assert("NotImplemented"@.len() != "NotModified"@.len()),
            ErrorCode::UseProxy => assert("NotImplemented"@.len() != "UseProxy"@.len()),
            ErrorCode::TemporaryRedirect => assert("NotImplemented"@.len() != "TemporaryRedirect"@.len()),
            ErrorCode::PermanentRedirect => assert("NotImplemented"@.len() != "PermanentRedirect"@.len()),
            ErrorCode::BadRequest => assert("NotImplemented"@.len() != "BadRequest"@.len()),
            ErrorCode::Unauthorized => assert("NotImplemented"@.len() != "Unauthorized"@.len()),
            ErrorCode::PaymentRequired => assert("NotImplemented"@.len() != "PaymentRequired"@.len()),
            ErrorCode::Forbidden => assert("NotImplemented"@.len() != "Forbidden"@.len()),
            ErrorCode::NotFound => assert("NotImplemented"@.len() != "NotFound"@.len()),
            ErrorCode::MethodNotAllowed => assert("NotImplemented"@.len() != "MethodNotAllowed"@.len()),
            ErrorCode::NotAcceptable => assert("NotImplemented"@.len() != "NotAcceptable"@.len()),
            ErrorCode::ProxyAuthenticationRequired => assert("NotImplemented"@.len() != "ProxyAuthenticationRequired"@.len()),
            ErrorCode::RequestTimeout => assert("NotImplemented"@[0] != "RequestTimeout"@[0]),
            ErrorCode::Conflict => assert("NotImplemented"@.len() != "Conflict"@.len()),
            ErrorCode::Gone => assert("NotImplemented"@.len() != "Gone"@.len()),
            ErrorCode::LengthRequired => assert("NotImplemented"@[0] != "LengthRequired"@[0]),
            ErrorCode::PreconditionFailed => assert("NotImplemented"@.len() != "PreconditionFailed"@.len()),
            ErrorCode::PayloadTooLarge => assert("NotImplemented"@.len() != "PayloadTooLarge"@.len()),
            ErrorCode::UriTooLong => assert("NotImplemented"@.len() != "UriTooLong"@.len()),
            ErrorCode::UnsupportedMediaType => assert("NotImplemented"@.len() != "UnsupportedMediaType"@.len()),
            ErrorCode::RangeNotSatisfiable => assert("NotImplemented"@.len() != "RangeNotSatisfiable"@.len()),
            ErrorCode::ExpectationFailed => assert("NotImplemented"@.len() != "ExpectationFailed"@.len()),
            ErrorCode::ImATeapot => assert("NotImplemented"@.len() != "ImATeapot"@.len()),
            ErrorCode::MisdirectedRequest => assert("NotImplemented"@.len() != "MisdirectedRequest"@.len()),
            ErrorCode::UnprocessableEntity => assert("NotImplemented"@.len() != "UnprocessableEntity"@.len()),
            ErrorCode::Locked => assert("NotImplemented"@.len() != "Locked"@.len()),
            ErrorCode::FailedDependency => assert("NotImplemented"@.len() != "FailedDependency"@.len()),
            ErrorCode::UpgradeRequired => assert("NotImplemented"@.len() != "UpgradeRequired"@.len()),
            ErrorCode::PreconditionRequired => assert("NotImplemented"@.len() != "PreconditionRequired"@.len()),
            ErrorCode::TooManyRequests => assert("NotImplemented"@.len() != "TooManyRequests"@.len()),
            ErrorCode::RequestHeaderFieldsTooLarge => assert("NotImplemented"@.len() != "RequestHeaderFieldsTooLarge"@.len()),
            ErrorCode::UnavailableForLegalReasons => assert("NotImplemented"@.len() != "UnavailableForLegalReasons"@.len()),
            ErrorCode::InternalServerError => assert("NotImplemented"@.len() != "InternalServerError"@.len()),
            ErrorCode::NotImplemented => {},
            ErrorCode::BadGateway => assert("NotImplemented"@.len() != "BadGateway"@.len()),
            ErrorCode::ServiceUnavailable => assert("NotImplemented"@.len() != "ServiceUnavailable"@.len()),
            ErrorCode::GatewayTimeout => assert("NotImplemented"@[0] != "GatewayTimeout"@[0]),
            ErrorCode::HttpVersionNotSupported => assert("NotImplemented"@.len() != "HttpVersionNotSupported"@.len()),
            ErrorCode::VariantAlsoNegotiates => assert("NotImplemented"@.len() != "VariantAlsoNegotiates"@.len()),
            ErrorCode::InsufficientStorage => assert("NotImplemented"@.len() != "InsufficientStorage"@.len()),
            ErrorCode::LoopDetected => assert("NotImplemented"@.len() != "LoopDetected"@.len()),
            ErrorCode::NotExtended => assert("NotImplemented"@.len() != "NotExtended"@.len()),
            ErrorCode::NetworkAuthenticationRequired => assert("NotImplemented"@.len() != "NetworkAuthenticationRequired"@.len()),
        },
        ErrorCode::BadGateway => match b {
            ErrorCode::MultipleChoices => assert("BadGateway"@.len() != "MultipleChoices"@.len()),
            ErrorCode::MovedPermanently => assert("BadGateway"@.len() != "MovedPermanently"@.len()),
            ErrorCode::Found => assert("BadGateway"@.len() != "Found"@.len()),
            ErrorCode::SeeOther => assert("BadGateway"@.len() != "SeeOther"@.len()),
            ErrorCode::NotModified => assert("BadGateway"@.len() != "NotModified"@.len()),
            ErrorCode::UseProxy => assert("BadGateway"@.len() != "UseProxy"@.len()),
            ErrorCode::TemporaryRedirect => assert("BadGateway"@.len() != "TemporaryRedirect"@.len()),
            ErrorCode::PermanentRedirect => assert("BadGateway"@.len() != "PermanentRedirect"@.len()),
            ErrorCode::BadRequest => assert("BadGateway"@[3] != "BadRequest"@[3]),
            ErrorCode::Unauthorized => assert("BadGateway"@.len() != "Unauthorized"@.len()),
            ErrorCode::PaymentRequired => assert("BadGateway"@.len() != "PaymentRequired"@.len()),
            ErrorCode::Forbidden => assert("BadGateway"@.len() != "Forbidden"@.len()),
            ErrorCode::NotFound => assert("BadGateway"@.len() != "NotFound"@.len()),
            ErrorCode::MethodNotAllowed => assert("BadGateway"@.len() != "MethodNotAllowed"@.len()),
            ErrorCode::NotAcceptable => assert("BadGateway"@.len() != "NotAcceptable"@.len()),
            ErrorCode::ProxyAuthenticationRequired => assert("BadGateway"@.len() != "ProxyAuthenticationRequired"@.len()),
            ErrorCode::RequestTimeout => assert("BadGateway"@.len() != "RequestTimeout"@.len()),
            ErrorCode::Conflict => assert("BadGateway"@.len() != "Conflict"@.len()),
            ErrorCode::Gone => assert("BadGateway"@.len() != "Gone"@.len()),
            ErrorCode::LengthRequired => assert("BadGateway"@.len() != "LengthRequired"@.len()),
            ErrorCode::PreconditionFailed => assert("BadGateway"@.len() != "PreconditionFailed"@.len()),
            ErrorCode::PayloadTooLarge => assert("BadGateway"@.len() != "PayloadTooLarge"@.len()),
            ErrorCode::UriTooLong => assert("BadGateway"@[0] != "UriTooLong"@[0]),
            ErrorCode::UnsupportedMediaType => assert("BadGateway"@.len() != "UnsupportedMediaType"@.len()),
            ErrorCode::RangeNotSatisfiable => assert("BadGateway"@.len() != "RangeNotSatisfiable"@.len()),
            ErrorCode::ExpectationFailed => assert("BadGateway"@.len() != "ExpectationFailed"@.len()),
            ErrorCode::ImATeapot => assert("BadGateway"@.len() != "ImATeapot"@.len()),
            ErrorCode::MisdirectedRequest => assert("BadGateway"@.len() != "MisdirectedRequest"@.len()),
            ErrorCode::UnprocessableEntity => assert("BadGateway"@.len() != "UnprocessableEntity"@.len()),
            ErrorCode::Locked => assert("BadGateway"@.len() != "Locked"@.len()),
            ErrorCode::FailedDependency => assert("BadGateway"@.len() != "FailedDependency"@.len()),
            ErrorCode::UpgradeRequired => assert("BadGateway"@.len() != "UpgradeRequired"@.len()),
            ErrorCode::PreconditionRequired => assert("BadGateway"@.len() != "PreconditionRequired"@.len()),
            ErrorCode::TooManyRequests => assert("BadGateway"@.len() != "TooManyRequests"@.len()),
            ErrorCode::RequestHeaderFieldsTooLarge => assert("BadGateway"@.len() != "RequestHeaderFieldsTooLarge"@.len()),
            ErrorCode::UnavailableForLegalReasons => assert("BadGateway"@.len() != "UnavailableForLegalReasons"@.len()),
            ErrorCode::InternalServerError => assert("BadGateway"@.len() != "InternalServerError"@.len()),
            ErrorCode::NotImplemented => assert("BadGateway"@.len() != "NotImplemented"@.len()),
            ErrorCode::BadGateway => {},
            ErrorCode::ServiceUnavailable => assert("BadGateway"@.len() != "ServiceUnavailable"@.len()),
            ErrorCode::GatewayTimeout => assert("BadGateway"@.len() != "GatewayTimeout"@.len()),
            ErrorCode::HttpVersionNotSupported => assert("BadGateway"@.len() != "HttpVersionNotSupported"@.len()),
            ErrorCode::VariantAlsoNegotiates => assert("BadGateway"@.len() != "VariantAlsoNegotiates"@.len()),
            ErrorCode::InsufficientStorage => assert("BadGateway"@.len() != "InsufficientStorage"@.len()),
            ErrorCode::LoopDetected => assert("BadGateway"@.len() != "LoopDetected"@.len()),
            ErrorCode::NotExtended => assert("BadGateway"@.len() != "NotExtended"@.len()),
            ErrorCode::NetworkAuthenticationRequired => assert("BadGateway"@.len() != "NetworkAuthenticationRequired"@.len()),
        },
        ErrorCode::ServiceUnavailable => match b {
            ErrorCode::MultipleChoices => assert("ServiceUnavailable"@.len() != "MultipleChoices"@.len()),
            ErrorCode::MovedPermanently => assert("ServiceUnavailable"@.len() != "MovedPermanently"@.len()),
            ErrorCode::Found => assert("ServiceUnavailable"@.len() != "Found"@.len()),
            ErrorCode::SeeOther => assert("ServiceUnavailable"@.len() != "SeeOther"@.len()),
            ErrorCode::NotModified => assert("ServiceUnavailable"@.len() != "NotModified"@.len()),
            ErrorCode::UseProxy => assert("ServiceUnavailable"@.len() != "UseProxy"@.len()),
            ErrorCode::TemporaryRedirect => assert("ServiceUnavailable"@.len() != "TemporaryRedirect"@.len()),
            ErrorCode::PermanentRedirect => assert("ServiceUnavailable"@.len() != "PermanentRedirect"@.len()),
            ErrorCode::BadRequest => assert("ServiceUnavailable"@.len() != "BadRequest"@.len()),
            ErrorCode::Unauthorized => assert("ServiceUnavailable"@.len() != "Unauthorized"@.len()),
            ErrorCode::PaymentRequired => assert("ServiceUnavailable"@.len() != "PaymentRequired"@.len()),
            ErrorCode::Forbidden => assert("ServiceUnavailable"@.len() != "Forbidden"@.len()),
            ErrorCode::NotFound => assert("ServiceUnavailable"@.len() != "NotFound"@.len()),
            ErrorCode::MethodNotAllowed => assert("ServiceUnavailable"@.len() != "MethodNotAllowed"@.len()),
            ErrorCode::NotAcceptable => assert("ServiceUnavailable"@.len() != "NotAcceptable"@.len()),
            ErrorCode::ProxyAuthenticationRequired => assert("ServiceUnavailable"@.len() != "ProxyAuthenticationRequired"@.len()),
            ErrorCode::RequestTimeout => assert("ServiceUnavailable"@.len() != "RequestTimeout"@.len()),
            ErrorCode::Conflict => assert("ServiceUnavailable"@.len() != "Conflict"@.len()),
            ErrorCode::Gone => assert("ServiceUnavailable"@.len() != "Gone"@.len()),
            ErrorCode::LengthRequired => assert("ServiceUnavailable"@.len() != "LengthRequired"@.len()),
            ErrorCode::PreconditionFailed => assert("ServiceUnavailable"@[0] != "PreconditionFailed"@[0]),
            ErrorCode::PayloadTooLarge => assert("ServiceUnavailable"@.len() != "PayloadTooLarge"@.len()),
            ErrorCode::UriTooLong => assert("ServiceUnavailable"@.len() != "UriTooLong"@.len()),
            ErrorCode::UnsupportedMediaType => assert("ServiceUnavailable"@.len() != "UnsupportedMediaType"@.len()),
            ErrorCode::RangeNotSatisfiable => assert("ServiceUnavailable"@.len() != "RangeNotSatisfiable"@.len()),
            ErrorCode::ExpectationFailed => assert("ServiceUnavailable"@.len() != "ExpectationFailed"@.len()),
            ErrorCode::ImATeapot => assert("ServiceUnavailable"@.len() != "ImATeapot"@.len()),
            ErrorCode::MisdirectedRequest => assert("ServiceUnavailable"@[0] != "MisdirectedRequest"@[0]),
            ErrorCode::UnprocessableEntity => assert("ServiceUnavailable"@.len() != "UnprocessableEntity"@.len()),
            ErrorCode::Locked => assert("ServiceUnavailable"@.len() != "Locked"@.len()),
            ErrorCode::FailedDependency => assert("ServiceUnavailable"@.len() != "FailedDependency"@.len()),
            ErrorCode::UpgradeRequired => assert("ServiceUnavailable"@.len() != "UpgradeRequired"@.len()),
            ErrorCode::PreconditionRequired => assert("ServiceUnavailable"@.len() != "PreconditionRequired"@.len()),
            ErrorCode::TooManyRequests => assert("ServiceUnavailable"@.len() != "TooManyRequests"@.len()),
            ErrorCode::RequestHeaderFieldsTooLarge => assert("ServiceUnavailable"@.len() != "RequestHeaderFieldsTooLarge"@.len()),
            ErrorCode::UnavailableForLegalReasons => assert("ServiceUnavailable"@.len() != "UnavailableForLegalReasons"@.len()),
            ErrorCode::InternalServerError => assert("ServiceUnavailable"@.len() != "InternalServerError"@.len()),
            ErrorCode::NotImplemented => assert("ServiceUnavailable"@.len() != "NotImplemented"@.len()),
            ErrorCode::BadGateway => assert("ServiceUnavailable"@.len() != "BadGateway"@.len()),
            ErrorCode::ServiceUnavailable => {},
            ErrorCode::GatewayTimeout => assert("ServiceUnavailable"@.len() != "GatewayTimeout"@.len()),
            ErrorCode::HttpVersionNotSupported => assert("ServiceUnavailable"@.len() != "HttpVersionNotSupported"@.len()),
            ErrorCode::VariantAlsoNegotiates => assert("ServiceUnavailable"@.len() != "VariantAlsoNegotiates"@.len()),
            ErrorCode::InsufficientStorage => assert("ServiceUnavailable"@.len() != "InsufficientStorage"@.len()),
            ErrorCode::LoopDetected => assert("ServiceUnavailable"@.len() != "LoopDetected"@.len()),
            ErrorCode::NotExtended => assert("ServiceUnavailable"@.len() != "NotExtended"@.len()),
            ErrorCode::NetworkAuthenticationRequired => assert("ServiceUnavailable"@.len() != "NetworkAuthenticationRequired"@.len()),
        },
        ErrorCode::GatewayTimeout => match b {
            ErrorCode::MultipleChoices => assert("GatewayTimeout"@.len() != "MultipleChoices"@.len()),
            ErrorCode::MovedPermanently => assert("GatewayTimeout"@.len() != "MovedPermanently"@.len()),
            ErrorCode::Found => assert("GatewayTimeout"@.len() != "Found"@.len()),
            ErrorCode::SeeOther => assert("GatewayTimeout"@.len() != "SeeOther"@.len()),
            ErrorCode::NotModified => assert("GatewayTimeout"@.len() != "NotModified"@.len()),
            ErrorCode::UseProxy => assert("GatewayTimeout"@.len() != "UseProxy"@.len()),
            ErrorCode::TemporaryRedirect => assert("GatewayTimeout"@.len() != "TemporaryRedirect"@.len()),
            ErrorCode::PermanentRedirect => assert("GatewayTimeout"@.len() != "PermanentRedirect"@.len()),
            ErrorCode::BadRequest => assert("GatewayTimeout"@.len() != "BadRequest"@.len()),
            ErrorCode::Unauthorized => assert("GatewayTimeout"@.len() != "Unauthorized"@.len()),
            ErrorCode::PaymentRequired => assert("GatewayTimeout"@.len() != "PaymentRequired"@.len()),
            ErrorCode::Forbidden => assert("GatewayTimeout"@.len() != "Forbidden"@.len()),
            ErrorCode::NotFound => assert("GatewayTimeout"@.len() != "NotFound"@.len()),
            ErrorCode::MethodNotAllowed => assert("GatewayTimeout"@.len() != "MethodNotAllowed"@.len()),
            ErrorCode::NotAcceptable => assert("GatewayTimeout"@.len() != "NotAcceptable"@.len()),
            ErrorCode::ProxyAuthenticationRequired => assert("GatewayTimeout"@.len() != "ProxyAuthenticationRequired"@.len()),
            ErrorCode::RequestTimeout => assert("GatewayTimeout"@[0] != "RequestTimeout"@[0]),
            ErrorCode::Conflict => assert("GatewayTimeout"@.len() != "Conflict"@.len()),
            ErrorCode::Gone => assert("GatewayTimeout"@.len() != "Gone"@.len()),
            ErrorCode::LengthRequired => assert("GatewayTimeout"@[0] != "LengthRequired"@[0]),
            ErrorCode::PreconditionFailed => assert("GatewayTimeout"@.len() != "PreconditionFailed"@.len()),
            ErrorCode::PayloadTooLarge => assert("GatewayTimeout"@.len() != "PayloadTooLarge"@.len()),
            ErrorCode::UriTooLong => assert("GatewayTimeout"@.len() != "UriTooLong"@.len()),
            ErrorCode::UnsupportedMediaType => assert("GatewayTimeout"@.len() != "UnsupportedMediaType"@.len()),
            ErrorCode::RangeNotSatisfiable => assert("GatewayTimeout"@.len() != "RangeNotSatisfiable"@.len()),
            ErrorCode::ExpectationFailed => assert("GatewayTimeout"@.len() != "ExpectationFailed"@.len()),
            ErrorCode::ImATeapot => assert("GatewayTimeout"@.len() != "ImATeapot"@.len()),
            ErrorCode::MisdirectedRequest => assert("GatewayTimeout"@.len() != "MisdirectedRequest"@.len()),
            ErrorCode::UnprocessableEntity => assert("GatewayTimeout"@.len() != "UnprocessableEntity"@.len()),
            ErrorCode::Locked => assert("GatewayTimeout"@.len() != "Locked"@.len()),
            ErrorCode::FailedDependency => assert("GatewayTimeout"@.len() != "FailedDependency"@.len()),
            ErrorCode::UpgradeRequired => assert("GatewayTimeout"@.len() != "UpgradeRequired"@.len()),
            ErrorCode::PreconditionRequired => assert("GatewayTimeout"@.len() != "PreconditionRequired"@.len()),
            ErrorCode::TooManyRequests => assert("GatewayTimeout"@.len() != "TooManyRequests"@.len()),
            ErrorCode::RequestHeaderFieldsTooLarge => assert("GatewayTimeout"@.len() != "RequestHeaderFieldsTooLarge"@.len()),
            ErrorCode::UnavailableForLegalReasons => assert("GatewayTimeout"@.len() != "UnavailableForLegalReasons"@.len()),
            ErrorCode::InternalServerError => assert("GatewayTimeout"@.len() != "InternalServerError"@.len()),
            ErrorCode::NotImplemented => assert("GatewayTimeout"@[0] != "NotImplemented"@[0]),
            ErrorCode::BadGateway => assert("GatewayTimeout"@.len() != "BadGateway"@.len()),
            ErrorCode::ServiceUnavailable => assert("GatewayTimeout"@.len() != "ServiceUnavailable"@.len()),
            ErrorCode::GatewayTimeout => {},
            ErrorCode::HttpVersionNotSupported => assert("GatewayTimeout"@.len() != "HttpVersionNotSupported"@.len()),
            ErrorCode::VariantAlsoNegotiates => assert("GatewayTimeout"@.len() != "VariantAlsoNegotiates"@.len()),
            ErrorCode::InsufficientStorage => assert("GatewayTimeout"@.len() != "InsufficientStorage"@.len()),
            ErrorCode::LoopDetected => assert("GatewayTimeout"@.len() != "LoopDetected"@.len()),
            ErrorCode::NotExtended => assert("GatewayTimeout"@.len() != "NotExtended"@.len()),
            ErrorCode::NetworkAuthenticationRequired => assert("GatewayTimeout"@.len() != "NetworkAuthenticationRequired"@.len()),
        },
        ErrorCode::HttpVersionNotSupported => match b {
            ErrorCode::MultipleChoices => assert("HttpVersionNotSupported"@.len() != "MultipleChoices"@.len()),
            ErrorCode::MovedPermanently => assert("HttpVersionNotSupported"@.len() != "MovedPermanently"@.len()),
            ErrorCode::Found => assert("HttpVersionNotSupported"@.len() != "Found"@.len()),
            ErrorCode::SeeOther => assert("HttpVersionNotSupported"@.len() != "SeeOther"@.len()),
            ErrorCode::NotModified => assert("HttpVersionNotSupported"@.len() != "NotModified"@.len()),
            ErrorCode::UseProxy => assert("HttpVersionNotSupported"@.len() != "UseProxy"@.len()),
            ErrorCode::TemporaryRedirect => assert("HttpVersionNotSupported"@.len() != "TemporaryRedirect"@.len()),
            ErrorCode::PermanentRedirect => assert("HttpVersionNotSupported"@.len() != "PermanentRedirect"@.len()),
            ErrorCode::BadRequest => assert("HttpVersionNotSupported"@.len() != "BadRequest"@.len()),
            ErrorCode::Unauthorized => assert("HttpVersionNotSupported"@.len() != "Unauthorized"@.len()),
            ErrorCode::PaymentRequired => assert("HttpVersionNotSupported"@.len() != "PaymentRequired"@.len()),
            ErrorCode::Forbidden => assert("HttpVersionNotSupported"@.len() != "Forbidden"@.len()),
            ErrorCode::NotFound => assert("HttpVersionNotSupported"@.len() != "NotFound"@.len()),
            ErrorCode::MethodNotAllowed => assert("HttpVersionNotSupported"@.len() != "MethodNotAllowed"@.len()),
            ErrorCode::NotAcceptable => assert("HttpVersionNotSupported"@.len() != "NotAcceptable"@.len()),
            ErrorCode::ProxyAuthenticationRequired => assert("HttpVersionNotSupported"@.len() != "ProxyAuthenticationRequired"@.len()),
            ErrorCode::RequestTimeout => assert("HttpVersionNotSupported"@.len() != "RequestTimeout"@.len()),
            ErrorCode::Conflict => assert("HttpVersionNotSupported"@.len() != "Conflict"@.len()),
            ErrorCode::Gone => assert("HttpVersionNotSupported"@.len() != "Gone"@.len()),
            ErrorCode::LengthRequired => assert("HttpVersionNotSupported"@.len() != "LengthRequired"@.len()),
            ErrorCode::PreconditionFailed => assert("HttpVersionNotSupported"@.len() != "PreconditionFailed"@.len()),
            ErrorCode::PayloadTooLarge => assert("HttpVersionNotSupported"@.len() != "PayloadTooLarge"@.len()),
            ErrorCode::UriTooLong => assert("HttpVersionNotSupported"@.len() != "UriTooLong"@.len()),
            ErrorCode::UnsupportedMediaType => assert("HttpVersionNotSupported"@.len() != "UnsupportedMediaType"@.len()),
            ErrorCode::RangeNotSatisfiable => assert("HttpVersionNotSupported"@.len() != "RangeNotSatisfiable"@.len()),
            ErrorCode::ExpectationFailed => assert("HttpVersionNotSupported"@.len() != "ExpectationFailed"@.len()),
            ErrorCode::ImATeapot => assert("HttpVersionNotSupported"@.len() != "ImATeapot"@.len()),
            ErrorCode::MisdirectedRequest => assert("HttpVersionNotSupported"@.len() != "MisdirectedRequest"@.len()),
            ErrorCode::UnprocessableEntity => assert("HttpVersionNotSupported"@.len() != "UnprocessableEntity"@.len()),
            ErrorCode::Locked => assert("HttpVersionNotSupported"@.len() != "Locked"@.len()),
            ErrorCode::FailedDependency => assert("HttpVersionNotSupported"@.len() != "FailedDependency"@.len()),
            ErrorCode::UpgradeRequired => assert("HttpVersionNotSupported"@.len() != "UpgradeRequired"@.len()),
            ErrorCode::PreconditionRequired => assert("HttpVersionNotSupported"@.len() != "PreconditionRequired"@.len()),
            ErrorCode::TooManyRequests => assert("HttpVersionNotSupported"@.len() != "TooManyRequests"@.len()),
            ErrorCode::RequestHeaderFieldsTooLarge => assert("HttpVersionNotSupported"@.len() != "RequestHeaderFieldsTooLarge"@.len()),
            ErrorCode::UnavailableForLegalReasons => assert("HttpVersionNotSupported"@.len() != "UnavailableForLegalReasons"@.len()),
            ErrorCode::InternalServerError => assert("HttpVersionNotSupported"@.len() != "InternalServerError"@.len()),
            ErrorCode::NotImplemented => assert("HttpVersionNotSupported"@.len() != "NotImplemented"@.len()),
            ErrorCode::BadGateway => assert("HttpVersionNotSupported"@.len() != "BadGateway"@.len()),
            ErrorCode::ServiceUnavailable => assert("HttpVersionNotSupported"@.len() != "ServiceUnavailable"@.len()),
            ErrorCode::GatewayTimeout => assert("HttpVersionNotSupported"@.len() != "GatewayTimeout"@.len()),
            ErrorCode::HttpVersionNotSupported => {},
            ErrorCode::VariantAlsoNegotiates => assert("HttpVersionNotSupported"@.len() != "VariantAlsoNegotiates"@.len()),
            ErrorCode::InsufficientStorage => assert("HttpVersionNotSupported"@.len() != "InsufficientStorage"@.len()),
            ErrorCode::LoopDetected => assert("HttpVersionNotSupported"@.len() != "LoopDetected"@.len()),
            ErrorCode::NotExtended => assert("HttpVersionNotSupported"@.len() != "NotExtended"@.len()),
            ErrorCode::NetworkAuthenticationRequired => assert("HttpVersionNotSupported"@.len() != "NetworkAuthenticationRequired"@.len()),
        },
        ErrorCode::VariantAlsoNegotiates => match b {
            ErrorCode::MultipleChoices => assert("VariantAlsoNegotiates"@.len() != "MultipleChoices"@.len()),
            ErrorCode::MovedPermanently => assert("VariantAlsoNegotiates"@.len() != "MovedPermanently"@.len()),
            ErrorCode::Found => assert("VariantAlsoNegotiates"@.len() != "Found"@.len()),
            ErrorCode::SeeOther => assert("VariantAlsoNegotiates"@.len() != "SeeOther"@.len()),
            ErrorCode::NotModified => assert("VariantAlsoNegotiates"@.len() != "NotModified"@.len()),
            ErrorCode::UseProxy => assert("VariantAlsoNegotiates"@.len() != "UseProxy"@.len()),
            ErrorCode::TemporaryRedirect => assert("VariantAlsoNegotiates"@.len() != "TemporaryRedirect"@.len()),
            ErrorCode::PermanentRedirect => assert("VariantAlsoNegotiates"@.len() != "PermanentRedirect"@.len()),
            ErrorCode::BadRequest => assert("VariantAlsoNegotiates"@.len() != "BadRequest"@.len()),
            ErrorCode::Unauthorized => assert("VariantAlsoNegotiates"@.len() != "Unauthorized"@.len()),
            ErrorCode::PaymentRequired => assert("VariantAlsoNegotiates"@.len() != "PaymentRequired"@.len()),
            ErrorCode::Forbidden => assert("VariantAlsoNegotiates"@.len() != "Forbidden"@.len()),
            ErrorCode::NotFound => assert("VariantAlsoNegotiates"@.len() != "NotFound"@.len()),
            ErrorCode::MethodNotAllowed => assert("VariantAlsoNegotiates"@.len() != "MethodNotAllowed"@.len()),
            ErrorCode::NotAcceptable => assert("VariantAlsoNegotiates"@.len() != "NotAcceptable"@.len()),
            ErrorCode::ProxyAuthenticationRequired => assert("VariantAlsoNegotiates"@.len() != "ProxyAuthenticationRequired"@.len()),
            ErrorCode::RequestTimeout => assert("VariantAlsoNegotiates"@.len() != "RequestTimeout"@.len()),
            ErrorCode::Conflict => assert("VariantAlsoNegotiates"@.len() != "Conflict"@.len()),
            ErrorCode::Gone => assert("VariantAlsoNegotiates"@.len() != "Gone"@.len()),
            ErrorCode::LengthRequired => assert("VariantAlsoNegotiates"@.len() != "LengthRequired"@.len()),
            ErrorCode::PreconditionFailed => assert("VariantAlsoNegotiates"@.len() != "PreconditionFailed"@.len()),
            ErrorCode::PayloadTooLarge => assert("VariantAlsoNegotiates"@.len() != "PayloadTooLarge"@.len()),
            ErrorCode::UriTooLong => assert("VariantAlsoNegotiates"@.len() != "UriTooLong"@.len()),
            ErrorCode::UnsupportedMediaType => assert("VariantAlsoNegotiates"@.len() != "UnsupportedMediaType"@.len()),
            ErrorCode::RangeNotSatisfiable => assert("VariantAlsoNegotiates"@.len() != "RangeNotSatisfiable"@.len()),
            ErrorCode::ExpectationFailed => assert("VariantAlsoNegotiates"@.len() != "ExpectationFailed"@.len()),
            ErrorCode::ImATeapot => assert("VariantAlsoNegotiates"@.len() != "ImATeapot"@.len()),
            ErrorCode::MisdirectedRequest => assert("VariantAlsoNegotiates"@.len() != "MisdirectedRequest"@.len()),
            ErrorCode::UnprocessableEntity => assert("VariantAlsoNegotiates"@.len() != "UnprocessableEntity"@.len()),
            ErrorCode::Locked => assert("VariantAlsoNegotiates"@.len() != "Locked"@.len()),
            ErrorCode::FailedDependency => assert("VariantAlsoNegotiates"@.len() != "FailedDependency"@.len()),
            ErrorCode::UpgradeRequired => assert("VariantAlsoNegotiates"@.len() != "UpgradeRequired"@.len()),
            ErrorCode::PreconditionRequired => assert("VariantAlsoNegotiates"@.len() != "PreconditionRequired"@.len()),
            ErrorCode::TooManyRequests => assert("VariantAlsoNegotiates"@.len() != "TooManyRequests"@.len()),
            ErrorCode::RequestHeaderFieldsTooLarge => assert("VariantAlsoNegotiates"@.len() != "RequestHeaderFieldsTooLarge"@.len()),
            ErrorCode::UnavailableForLegalReasons => assert("VariantAlsoNegotiates"@.len() != "UnavailableForLegalReasons"@.len()),
            ErrorCode::InternalServerError => assert("VariantAlsoNegotiates"@.len() != "InternalServerError"@.len()),
            ErrorCode::NotImplemented => assert("VariantAlsoNegotiates"@.len() != "NotImplemented"@.len()),
            ErrorCode::BadGateway => assert("VariantAlsoNegotiates"@.len() != "BadGateway"@.len()),
            ErrorCode::ServiceUnavailable => assert("VariantAlsoNegotiates"@.len() != "ServiceUnavailable"@.len()),
            ErrorCode::GatewayTimeout => assert("VariantAlsoNegotiates"@.len() != "GatewayTimeout"@.len()),
            ErrorCode::HttpVersionNotSupported => assert("VariantAlsoNegotiates"@.len() != "HttpVersionNotSupported"@.len()),
            ErrorCode::VariantAlsoNegotiates => {},
            ErrorCode::InsufficientStorage => assert("VariantAlsoNegotiates"@.len() != "InsufficientStorage"@.len()),
            ErrorCode::LoopDetected => assert("VariantAlsoNegotiates"@.len() != "LoopDetected"@.len()),
            ErrorCode::NotExtended => assert("VariantAlsoNegotiates"@.len() != "NotExtended"@.len()),
            ErrorCode::NetworkAuthenticationRequired => assert("VariantAlsoNegotiates"@.len() != "NetworkAuthenticationRequired"@.len()),
        },
        ErrorCode::InsufficientStorage => match b {
            ErrorCode::MultipleChoices => assert("InsufficientStorage"@.len() != "MultipleChoices"@.len()),
            ErrorCode::MovedPermanently => assert("InsufficientStorage"@.len() != "MovedPermanently"@.len()),
            ErrorCode::Found => assert("InsufficientStorage"@.len() != "Found"@.len()),
            ErrorCode::SeeOther => assert("InsufficientStorage"@.len() != "SeeOther"@.len()),
            ErrorCode::NotModified => assert("InsufficientStorage"@.len() != "NotModified"@.len()),
            ErrorCode::UseProxy => assert("InsufficientStorage"@.len() != "UseProxy"@.len()),
            ErrorCode::TemporaryRedirect => assert("InsufficientStorage"@.len() != "TemporaryRedirect"@.len()),
            ErrorCode::PermanentRedirect => assert("InsufficientStorage"@.len() != "PermanentRedirect"@.len()),
            ErrorCode::BadRequest => assert("InsufficientStorage"@.len() != "BadRequest"@.len()),
            ErrorCode::Unauthorized => assert("InsufficientStorage"@.len() != "Unauthorized"@.len()),
            ErrorCode::PaymentRequired => assert("InsufficientStorage"@.len() != "PaymentRequired"@.len()),
            ErrorCode::Forbidden => assert("InsufficientStorage"@.len() != "Forbidden"@.len()),
            ErrorCode::NotFound => assert("InsufficientStorage"@.len() != "NotFound"@.len()),
            ErrorCode::MethodNotAllowed => assert("InsufficientStorage"@.len() != "MethodNotAllowed"@.len()),
            ErrorCode::NotAcceptable => assert("InsufficientStorage"@.len() != "NotAcceptable"@.len()),
            ErrorCode::ProxyAuthenticationRequired => assert("InsufficientStorage"@.len() != "ProxyAuthenticationRequired"@.len()),
            ErrorCode::RequestTimeout => assert("InsufficientStorage"@.len() != "RequestTimeout"@.len()),
            ErrorCode::Conflict => assert("InsufficientStorage"@.len() != "Conflict"@.len()),
            ErrorCode::Gone => assert("InsufficientStorage"@.len() != "Gone"@.len()),
            ErrorCode::LengthRequired => assert("InsufficientStorage"@.len() != "LengthRequired"@.len()),
            ErrorCode::PreconditionFailed => assert("InsufficientStorage"@.len() != "PreconditionFailed"@.len()),
            ErrorCode::PayloadTooLarge => assert("InsufficientStorage"@.len() != "PayloadTooLarge"@.len()),
            ErrorCode::UriTooLong => assert("InsufficientStorage"@.len() != "UriTooLong"@.len()),
            ErrorCode::UnsupportedMediaType => assert("InsufficientStorage"@.len() != "UnsupportedMediaType"@.len()),
            ErrorCode::RangeNotSatisfiable => assert("InsufficientStorage"@[0] != "RangeNotSatisfiable"@[0]),
            ErrorCode::ExpectationFailed => assert("InsufficientStorage"@.len() != "ExpectationFailed"@.len()),
            ErrorCode::ImATeapot => assert("InsufficientStorage"@.len() != "ImATeapot"@.len()),
            ErrorCode::MisdirectedRequest => assert("InsufficientStorage"@.len() != "MisdirectedRequest"@.len()),
            ErrorCode::UnprocessableEntity => assert("InsufficientStorage"@[0] != "UnprocessableEntity"@[0]),
            ErrorCode::Locked => assert("InsufficientStorage"@.len() != "Locked"@.len()),
            ErrorCode::FailedDependency => assert("InsufficientStorage"@.len() != "FailedDependency"@.len()),
            ErrorCode::UpgradeRequired => assert("InsufficientStorage"@.len() != "UpgradeRequired"@.len()),
            ErrorCode::PreconditionRequired => assert("InsufficientStorage"@.len() != "PreconditionRequired"@.len()),
            ErrorCode::TooManyRequests => assert("InsufficientStorage"@.len() != "TooManyRequests"@.len()),
            ErrorCode::RequestHeaderFieldsTooLarge => assert("InsufficientStorage"@.len() != "RequestHeaderFieldsTooLarge"@.len()),
            ErrorCode::UnavailableForLegalReasons => assert("InsufficientStorage"@.len() != "UnavailableForLegalReasons"@.len()),
            ErrorCode::InternalServerError => assert("InsufficientStorage"@[2] != "InternalServerError"@[2]),
            ErrorCode::NotImplemented => assert("InsufficientStorage"@.len() != "NotImplemented"@.len()),
            ErrorCode::BadGateway => assert("InsufficientStorage"@.len() != "BadGateway"@.len()),
            ErrorCode::ServiceUnavailable => assert("InsufficientStorage"@.len() != "ServiceUnavailable"@.len()),
            ErrorCode::GatewayTimeout => assert("InsufficientStorage"@.len() != "GatewayTimeout"@.len()),
            ErrorCode::HttpVersionNotSupported => assert("InsufficientStorage"@.len() != "HttpVersionNotSupported"@.len()),
            ErrorCode::VariantAlsoNegotiates => assert("InsufficientStorage"@.len() != "VariantAlsoNegotiates"@.len()),
            ErrorCode::InsufficientStorage => {},
            ErrorCode::LoopDetected => assert("InsufficientStorage"@.len() != "LoopDetected"@.len()),
            ErrorCode::NotExtended => assert("InsufficientStorage"@.len() != "NotExtended"@.len()),
            ErrorCode::NetworkAuthenticationRequired => assert("InsufficientStorage"@.len() != "NetworkAuthenticationRequired"@.len()),
        },
        ErrorCode::LoopDetected => match b {
            ErrorCode::MultipleChoices => assert("LoopDetected"@.len() != "MultipleChoices"@.len()),
            ErrorCode::MovedPermanently => assert("LoopDetected"@.len() != "MovedPermanently"@.len()),
            ErrorCode::Found => assert("LoopDetected"@.len() != "Found"@.len()),
            ErrorCode::SeeOther => assert("LoopDetected"@.len() != "SeeOther"@.len()),
            ErrorCode::NotModified => assert("LoopDetected"@.len() != "NotModified"@.len()),
            ErrorCode::UseProxy => assert("LoopDetected"@.len() != "UseProxy"@.len()),
            ErrorCode::TemporaryRedirect => assert("LoopDetected"@.len() != "TemporaryRedirect"@.len()),
            ErrorCode::PermanentRedirect => assert("LoopDetected"@.len() != "PermanentRedirect"@.len()),
            ErrorCode::BadRequest => assert("LoopDetected"@.len() != "BadRequest"@.len()),
            ErrorCode::Unauthorized => assert("LoopDetected"@[0] != "Unauthorized"@[0]),
            ErrorCode::PaymentRequired => assert("LoopDetected"@.len() != "PaymentRequired"@.len()),
            ErrorCode::Forbidden => assert("LoopDetected"@.len() != "Forbidden"@.len()),
            ErrorCode::NotFound => assert("LoopDetected"@.len() != "NotFound"@.len()),
            ErrorCode::MethodNotAllowed => assert("LoopDetected"@.len() != "MethodNotAllowed"@.len()),
            ErrorCode::NotAcceptable => assert("LoopDetected"@.len() != "NotAcceptable"@.len()),
            ErrorCode::ProxyAuthenticationRequired => assert("LoopDetected"@.len() != "ProxyAuthenticationRequired"@.len()),
            ErrorCode::RequestTimeout => assert("LoopDetected"@.len() != "RequestTimeout"@.len()),
            ErrorCode::Conflict => assert("LoopDetected"@.len() != "Conflict"@.len()),
            ErrorCode::Gone => assert("LoopDetected"@.len() != "Gone"@.len()),
            ErrorCode::LengthRequired => assert("LoopDetected"@.len() != "LengthRequired"@.len()),
            ErrorCode::PreconditionFailed => assert("LoopDetected"@.len() != "PreconditionFailed"@.len()),
            ErrorCode::PayloadTooLarge => assert("LoopDetected"@.len() != "PayloadTooLarge"@.len()),
            ErrorCode::UriTooLong => assert("LoopDetected"@.len() != "UriTooLong"@.len()),
            ErrorCode::UnsupportedMediaType => assert("LoopDetected"@.len() != "UnsupportedMediaType"@.len()),
            ErrorCode::RangeNotSatisfiable => assert("LoopDetected"@.len() != "RangeNotSatisfiable"@.len()),
            ErrorCode::ExpectationFailed => assert("LoopDetected"@.len() != "ExpectationFailed"@.len()),
            ErrorCode::ImATeapot => assert("LoopDetected"@.len() != "ImATeapot"@.len()),
            ErrorCode::MisdirectedRequest => assert("LoopDetected"@.len() != "MisdirectedRequest"@.len()),
            ErrorCode::UnprocessableEntity => assert("LoopDetected"@.len() != "UnprocessableEntity"@.len()),
            ErrorCode::Locked => assert("LoopDetected"@.len() != "Locked"@.len()),
            ErrorCode::FailedDependency => assert("LoopDetected"@.len() != "FailedDependency"@.len()),
            ErrorCode::UpgradeRequired => assert("LoopDetected"@.len() != "UpgradeRequired"@.len()),
            ErrorCode::PreconditionRequired => assert("LoopDetected"@.len() != "PreconditionRequired"@.len()),
            ErrorCode::TooManyRequests => assert("LoopDetected"@.len() != "TooManyRequests"@.len()),
            ErrorCode::RequestHeaderFieldsTooLarge => assert("LoopDetected"@.len() != "RequestHeaderFieldsTooLarge"@.len()),
            ErrorCode::UnavailableForLegalReasons => assert("LoopDetected"@.len() != "UnavailableForLegalReasons"@.len()),
            ErrorCode::InternalServerError => assert("LoopDetected"@.len() != "InternalServerError"@.len()),
            ErrorCode::NotImplemented => assert("LoopDetected"@.len() != "NotImplemented"@.len()),
            ErrorCode::BadGateway => assert("LoopDetected"@.len() != "BadGateway"@.len()),
            ErrorCode::ServiceUnavailable => assert("LoopDetected"@.len() != "ServiceUnavailable"@.len()),
            ErrorCode::GatewayTimeout => assert("LoopDetected"@.len() != "GatewayTimeout"@.len()),
            ErrorCode::HttpVersionNotSupported => assert("LoopDetected"@.len() != "HttpVersionNotSupported"@.len()),
            ErrorCode::VariantAlsoNegotiates => assert("LoopDetected"@.len() != "VariantAlsoNegotiates"@.len()),
            ErrorCode::InsufficientStorage => assert("LoopDetected"@.len() != "InsufficientStorage"@.len()),
            ErrorCode::LoopDetected => {},
            ErrorCode::NotExtended => assert("LoopDetected"@.len() != "NotExtended"@.len()),
            ErrorCode::NetworkAuthenticationRequired => assert("LoopDetected"@.len() != "NetworkAuthenticationRequired"@.len()),
        },
        ErrorCode::NotExtended => match b {
            ErrorCode::MultipleChoices => assert("NotExtended"@.len() != "MultipleChoices"@.len()),
            ErrorCode::MovedPermanently => assert("NotExtended"@.len() != "MovedPermanently"@.len()),
            ErrorCode::Found => assert("NotExtended"@.len() != "Found"@.len()),
            ErrorCode::SeeOther => assert("NotExtended"@.len() != "SeeOther"@.len()),
            ErrorCode::NotModified => assert("NotExtended"@[3] != "NotModified"@[3]),
            ErrorCode::UseProxy => assert("NotExtended"@.len() != "UseProxy"@.len()),
            ErrorCode::TemporaryRedirect => assert("NotExtended"@.len() != "TemporaryRedirect"@.len()),
            ErrorCode::PermanentRedirect => assert("NotExtended"@.len() != "PermanentRedirect"@.len()),
            ErrorCode::BadRequest => assert("NotExtended"@.len() != "BadRequest"@.len()),
            ErrorCode::Unauthorized => assert("NotExtended"@.len() != "Unauthorized"@.len()),
            ErrorCode::PaymentRequired => assert("NotExtended"@.len() != "PaymentRequired"@.len()),
            ErrorCode::Forbidden => assert("NotExtended"@.len() != "Forbidden"@.len()),
            ErrorCode::NotFound => assert("NotExtended"@.len() != "NotFound"@.len()),
            ErrorCode::MethodNotAllowed => assert("NotExtended"@.len() != "MethodNotAllowed"@.len()),
            ErrorCode::NotAcceptable => assert("NotExtended"@.len() != "NotAcceptable"@.len()),
            ErrorCode::ProxyAuthenticationRequired => assert("NotExtended"@.len() != "ProxyAuthenticationRequired"@.len()),
            ErrorCode::RequestTimeout => assert("NotExtended"@.len() != "RequestTimeout"@.len()),
            ErrorCode::Conflict => assert("NotExtended"@.len() != "Conflict"@.len()),
            ErrorCode::Gone => assert("NotExtended"@.len() != "Gone"@.len()),
            ErrorCode::LengthRequired => assert("NotExtended"@.len() != "LengthRequired"@.len()),
            ErrorCode::PreconditionFailed => assert("NotExtended"@.len() != "PreconditionFailed"@.len()),
            ErrorCode::PayloadTooLarge => assert("NotExtended"@.len() != "PayloadTooLarge"@.len()),
            ErrorCode::UriTooLong => assert("NotExtended"@.len() != "UriTooLong"@.len()),
            ErrorCode::UnsupportedMediaType => assert("NotExtended"@.len() != "UnsupportedMediaType"@.len()),
            ErrorCode::RangeNotSatisfiable => assert("NotExtended"@.len() != "RangeNotSatisfiable"@.len()),
            ErrorCode::ExpectationFailed => assert("NotExtended"@.len() != "ExpectationFailed"@.len()),
            ErrorCode::ImATeapot => assert("NotExtended"@.len() != "ImATeapot"@.len()),
            ErrorCode::MisdirectedRequest => assert("NotExtended"@.len() != "MisdirectedRequest"@.len()),
            ErrorCode::UnprocessableEntity => assert("NotExtended"@.len() != "UnprocessableEntity"@.len()),
            ErrorCode::Locked => assert("NotExtended"@.len() != "Locked"@.len()),
            ErrorCode::FailedDependency => assert("NotExtended"@.len() != "FailedDependency"@.len()),
            ErrorCode::UpgradeRequired => assert("NotExtended"@.len() != "UpgradeRequired"@.len()),
            ErrorCode::PreconditionRequired => assert("NotExtended"@.len() != "PreconditionRequired"@.len()),
            ErrorCode::TooManyRequests => assert("NotExtended"@.len() != "TooManyRequests"@.len()),
            ErrorCode::RequestHeaderFieldsTooLarge => assert("NotExtended"@.len() != "RequestHeaderFieldsTooLarge"@.len()),
            ErrorCode::UnavailableForLegalReasons => assert("NotExtended"@.len() != "UnavailableForLegalReasons"@.len()),
            ErrorCode::InternalServerError => assert("NotExtended"@.len() != "InternalServerError"@.len()),
            ErrorCode::NotImplemented => assert("NotExtended"@.len() != "NotImplemented"@.len()),
            ErrorCode::BadGateway => assert("NotExtended"@.len() != "BadGateway"@.len()),
            ErrorCode::ServiceUnavailable => assert("NotExtended"@.len() != "ServiceUnavailable"@.len()),
            ErrorCode::GatewayTimeout => assert("NotExtended"@.len() != "GatewayTimeout"@.len()),
            ErrorCode::HttpVersionNotSupported => assert("NotExtended"@.len() != "HttpVersionNotSupported"@.len()),
            ErrorCode::VariantAlsoNegotiates => assert("NotExtended"@.len() != "VariantAlsoNegotiates"@.len()),
            ErrorCode::InsufficientStorage => assert("NotExtended"@.len() != "InsufficientStorage"@.len()),
            ErrorCode::LoopDetected => assert("NotExtended"@.len() != "LoopDetected"@.len()),
            ErrorCode::NotExtended => {},
            ErrorCode::NetworkAuthenticationRequired => assert("NotExtended"@.len() != "NetworkAuthenticationRequired"@.len()),
        },
        ErrorCode::NetworkAuthenticationRequired => match b {
            ErrorCode::MultipleChoices => assert("NetworkAuthenticationRequired"@.len() != "MultipleChoices"@.len()),
            ErrorCode::MovedPermanently => assert("NetworkAuthenticationRequired"@.len() != "MovedPermanently"@.len()),
            ErrorCode::Found => assert("NetworkAuthenticationRequired"@.len() != "Found"@.len()),
            ErrorCode::SeeOther => assert("NetworkAuthenticationRequired"@.len() != "SeeOther"@.len()),
            ErrorCode::NotModified => assert("NetworkAuthenticationRequired"@.len() != "NotModified"@.len()),
            ErrorCode::UseProxy => assert("NetworkAuthenticationRequired"@.len() != "UseProxy"@.len()),
            ErrorCode::TemporaryRedirect => assert("NetworkAuthenticationRequired"@.len() != "TemporaryRedirect"@.len()),
            ErrorCode::PermanentRedirect => assert("NetworkAuthenticationRequired"@.len() != "PermanentRedirect"@.len()),
            ErrorCode::BadRequest => assert("NetworkAuthenticationRequired"@.len() != "BadRequest"@.len()),
            ErrorCode::Unauthorized => assert("NetworkAuthenticationRequired"@.len() != "Unauthorized"@.len()),
            ErrorCode::PaymentRequired => assert("NetworkAuthenticationRequired"@.len() != "PaymentRequired"@.len()),
            ErrorCode::Forbidden => assert("NetworkAuthenticationRequired"@.len() != "Forbidden"@.len()),
            ErrorCode::NotFound => assert("NetworkAuthenticationRequired"@.len() != "NotFound"@.len()),
            ErrorCode::MethodNotAllowed => assert("NetworkAuthenticationRequired"@.len() != "MethodNotAllowed"@.len()),
            ErrorCode::NotAcceptable => assert("NetworkAuthenticationRequired"@.len() != "NotAcceptable"@.len()),
            ErrorCode::ProxyAuthenticationRequired => assert("NetworkAuthenticationRequired"@.len() != "ProxyAuthenticationRequired"@.len()),
            ErrorCode::RequestTimeout => assert("NetworkAuthenticationRequired"@.len() != "RequestTimeout"@.len()),
            ErrorCode::Conflict => assert("NetworkAuthenticationRequired"@.len() != "Conflict"@.len()),
            ErrorCode::Gone => assert("NetworkAuthenticationRequired"@.len() != "Gone"@.len()),
            ErrorCode::LengthRequired => assert("NetworkAuthenticationRequired"@.len() != "LengthRequired"@.len()),
            ErrorCode::PreconditionFailed => assert("NetworkAuthenticationRequired"@.len() != "PreconditionFailed"@.len()),
            ErrorCode::PayloadTooLarge => assert("NetworkAuthenticationRequired"@.len() != "PayloadTooLarge"@.len()),
            ErrorCode::UriTooLong => assert("NetworkAuthenticationRequired"@.len() != "UriTooLong"@.len()),
            ErrorCode::UnsupportedMediaType => assert("NetworkAuthenticationRequired"@.len() != "UnsupportedMediaType"@.len()),
            ErrorCode::RangeNotSatisfiable => assert("NetworkAuthenticationRequired"@.len() != "RangeNotSatisfiable"@.len()),
            ErrorCode::ExpectationFailed => assert("NetworkAuthenticationRequired"@.len() != "ExpectationFailed"@.len()),
            ErrorCode::ImATeapot => assert("NetworkAuthenticationRequired"@.len() != "ImATeapot"@.len()),
            ErrorCode::MisdirectedRequest => assert("NetworkAuthenticationRequired"@.len() != "MisdirectedRequest"@.len()),
            ErrorCode::UnprocessableEntity => assert("NetworkAuthenticationRequired"@.len() != "UnprocessableEntity"@.len()),
            ErrorCode::Locked => assert("NetworkAuthenticationRequired"@.len() != "Locked"@.len()),
            ErrorCode::FailedDependency => assert("NetworkAuthenticationRequired"@.len() != "FailedDependency"@.len()),
            ErrorCode::UpgradeRequired => assert("NetworkAuthenticationRequired"@.len() != "UpgradeRequired"@.len()),
            ErrorCode::PreconditionRequired => assert("NetworkAuthenticationRequired"@.len() != "PreconditionRequired"@.len()),
            ErrorCode::TooManyRequests => assert("NetworkAuthenticationRequired"@.len() != "TooManyRequests"@.len()),
            ErrorCode::RequestHeaderFieldsTooLarge => assert("NetworkAuthenticationRequired"@.len() != "RequestHeaderFieldsTooLarge"@.len()),
            ErrorCode::UnavailableForLegalReasons => assert("NetworkAuthenticationRequired"@.len() != "UnavailableForLegalReasons"@.len()),
            ErrorCode::InternalServerError => assert("NetworkAuthenticationRequired"@.len() != "InternalServerError"@.len()),
            ErrorCode::NotImplemented => assert("NetworkAuthenticationRequired"@.len() != "NotImplemented"@.len()),
            ErrorCode::BadGateway => assert("NetworkAuthenticationRequired"@.len() != "BadGateway"@.len()),
            ErrorCode::ServiceUnavailable => assert("NetworkAuthenticationRequired"@.len() != "ServiceUnavailable"@.len()),
            ErrorCode::GatewayTimeout => assert("NetworkAuthenticationRequired"@.len() != "GatewayTimeout"@.len()),
            ErrorCode::HttpVersionNotSupported => assert("NetworkAuthenticationRequired"@.len() != "HttpVersionNotSupported"@.len()),
            ErrorCode::VariantAlsoNegotiates => assert("NetworkAuthenticationRequired"@.len() != "VariantAlsoNegotiates"@.len()),
            ErrorCode::InsufficientStorage => assert("NetworkAuthenticationRequired"@.len() != "InsufficientStorage"@.len()),
            ErrorCode::LoopDetected => assert("NetworkAuthenticationRequired"@.len() != "LoopDetected"@.len()),
            ErrorCode::NotExtended => assert("NetworkAuthenticationRequired"@.len() != "NotExtended"@.len()),
            ErrorCode::NetworkAuthenticationRequired => {},
        },
    }
}

} // verus!
