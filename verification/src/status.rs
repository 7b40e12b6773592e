//! The reason-phrase table: the standard IANA phrase for each registered
//! HTTP status code; unknown codes get the empty string.
use vstd::prelude::*;

verus! {

/// The standard reason phrase of a status code, the empty sequence when the
/// code is not registered.
pub open spec fn reason_phrase_spec(status: u16) -> Seq<char> {
    match status {
        100u16 => "Continue"@,
        101u16 => "Switching Protocols"@,
        102u16 => "Processing"@,
        103u16 => "Early Hints"@,
        200u16 => "OK"@,
        201u16 => "Created"@,
        202u16 => "Accepted"@,
        203u16 => "Non-Authoritative Information"@,
        204u16 => "No Content"@,
        205u16 => "Reset Content"@,
        206u16 => "Partial Content"@,
        207u16 => "Multi-Status"@,
        208u16 => "Already Reported"@,
        226u16 => "IM Used"@,
        300u16 => "Multiple Choices"@,
        301u16 => "Moved Permanently"@,
        302u16 => "Found"@,
        303u16 => "See Other"@,
        304u16 => "Not Modified"@,
        305u16 => "Use Proxy"@,
        307u16 => "Temporary Redirect"@,
        308u16 => "Permanent Redirect"@,
        400u16 => "Bad Request"@,
        401u16 => "Unauthorized"@,
        402u16 => "Payment Required"@,
        403u16 => "Forbidden"@,
        404u16 => "Not Found"@,
        405u16 => "Method Not Allowed"@,
        406u16 => "Not Acceptable"@,
        407u16 => "Proxy Authentication Required"@,
        408u16 => "Request Timeout"@,
        409u16 => "Conflict"@,
        410u16 => "Gone"@,
        411u16 => "Length Required"@,
        412u16 => "Precondition Failed"@,
        413u16 => "Content Too Large"@,
        414u16 => "URI Too Long"@,
        415u16 => "Unsupported Media Type"@,
        416u16 => "Range Not Satisfiable"@,
        417u16 => "Expectation Failed"@,
        418u16 => "I'm a teapot"@,
        421u16 => "Misdirected Request"@,
        422u16 => "Unprocessable Content"@,
        423u16 => "Locked"@,
        424u16 => "Failed Dependency"@,
        425u16 => "Too Early"@,
        426u16 => "Upgrade Required"@,
        428u16 => "Precondition Required"@,
        429u16 => "Too Many Requests"@,
        431u16 => "Request Header Fields Too Large"@,
        451u16 => "Unavailable For Legal Reasons"@,
        500u16 => "Internal Server Error"@,
        501u16 => "Not Implemented"@,
        502u16 => "Bad Gateway"@,
        503u16 => "Service Unavailable"@,
        504u16 => "Gateway Timeout"@,
        505u16 => "HTTP Version Not Supported"@,
        506u16 => "Variant Also Negotiates"@,
        507u16 => "Insufficient Storage"@,
        508u16 => "Loop Detected"@,
        510u16 => "Not Extended"@,
        511u16 => "Network Authentication Required"@,
        _ => ""@,
    }
}

/// The standard reason phrase of a status code; the empty string when the
/// code is not registered.
pub fn reason_phrase(status: u16) -> (r: &'static str)
    ensures
        r@ == reason_phrase_spec(status),
{
    match status {
        100u16 => "Continue",
        101u16 => "Switching Protocols",
        102u16 => "Processing",
        103u16 => "Early Hints",
        200u16 => "OK",
        201u16 => "Created",
        202u16 => "Accepted",
        203u16 => "Non-Authoritative Information",
        204u16 => "No Content",
        205u16 => "Reset Content",
        206u16 => "Partial Content",
        207u16 => "Multi-Status",
        208u16 => "Already Reported",
        226u16 => "IM Used",
        300u16 => "Multiple Choices",
        301u16 => "Moved Permanently",
        302u16 => "Found",
        303u16 => "See Other",
        304u16 => "Not Modified",
        305u16 => "Use Proxy",
        307u16 => "Temporary Redirect",
        308u16 => "Permanent Redirect",
        400u16 => "Bad Request",
        401u16 => "Unauthorized",
        402u16 => "Payment Required",
        403u16 => "Forbidden",
        404u16 => "Not Found",
        405u16 => "Method Not Allowed",
        406u16 => "Not Acceptable",
        407u16 => "Proxy Authentication Required",
        408u16 => "Request Timeout",
        409u16 => "Conflict",
        410u16 => "Gone",
        411u16 => "Length Required",
        412u16 => "Precondition Failed",
        413u16 => "Content Too Large",
        414u16 => "URI Too Long",
        415u16 => "Unsupported Media Type",
        416u16 => "Range Not Satisfiable",
        417u16 => "Expectation Failed",
        418u16 => "I'm a teapot",
        421u16 => "Misdirected Request",
        422u16 => "Unprocessable Content",
        423u16 => "Locked",
        424u16 => "Failed Dependency",
        425u16 => "Too Early",
        426u16 => "Upgrade Required",
        428u16 => "Precondition Required",
        429u16 => "Too Many Requests",
        431u16 => "Request Header Fields Too Large",
        451u16 => "Unavailable For Legal Reasons",
        500u16 => "Internal Server Error",
        501u16 => "Not Implemented",
        502u16 => "Bad Gateway",
        503u16 => "Service Unavailable",
        504u16 => "Gateway Timeout",
        505u16 => "HTTP Version Not Supported",
        506u16 => "Variant Also Negotiates",
        507u16 => "Insufficient Storage",
        508u16 => "Loop Detected",
        510u16 => "Not Extended",
        511u16 => "Network Authentication Required",
        _ => "",
    }
}

} // verus!
