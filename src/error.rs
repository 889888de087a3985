use vstd::prelude::*;
use vstd::string::StringExecFns;

verus! {

/// One of the four required fields of a configuration.
#[derive(Debug, Clone, Copy, PartialEq, Eq, Structural)]
pub enum Field {
    Method,
    Url,
    HeadersCode,
    BodyCode,
}

/// Which of the two scripts of an invocation failed.
#[derive(Debug, Clone, Copy, PartialEq, Eq, Structural)]
pub enum ScriptKind {
    Headers,
    Body,
}

/// Why a template could not be resolved.
#[derive(Debug, Clone)]
pub enum TemplateFailure {
    /// A reference names a variable that the environment does not hold.
    UnknownVariable(String),
    /// A reference names a variable whose value has no textual form.
    NotTextual(String),
    /// An unmatched brace, or an empty or nested reference.
    Malformed,
}

/// Every way in which parsing or executing the block can fail.
#[derive(Debug, Clone)]
pub enum CurlError {
    /// A key that the block does not know.
    UnexpectedField(String),
    /// An `expected` entry, which the block does not support.
    ExpectedUnsupported,
    /// One of the required fields is absent.
    MissingField(Field),
    /// The method is not one of GET, POST, PUT, PATCH.
    InvalidMethod(String),
    /// The template of the named field could not be resolved.
    Template(String, TemplateFailure),
    /// A script failed or ran out of time; the cause is kept as text.
    Script(ScriptKind, String),
    /// The headers script returned something other than an object.
    HeadersNotObject,
    /// The value of the named header is not a string.
    HeaderValueNotString(String),
    /// The body script returned something other than a string or null.
    BodyShape,
    /// The named header is not a well-formed header name.
    InvalidHeaderName(String),
    /// The value of the named header is not a well-formed header value.
    InvalidHeaderValue(String),
    /// The request could not be sent or its response not read.
    Transport(String),
}

/// The error payload of a failed invocation.
#[derive(Debug, Clone)]
pub struct Error {
    pub error: String,
}

/// The key of a field, as text.
pub open spec fn field_text(f: Field) -> Seq<char> {
    match f {
        Field::Method => "method"@,
        Field::Url => "url"@,
        Field::HeadersCode => "headers_code"@,
        Field::BodyCode => "body_code"@,
    }
}

/// What a template failure says.
pub open spec fn template_text(f: TemplateFailure) -> Seq<char> {
    match f {
        TemplateFailure::UnknownVariable(n) => "unknown variable `"@ + n@ + "`"@,
        TemplateFailure::NotTextual(n) => "variable `"@ + n@ + "` has no textual value"@,
        TemplateFailure::Malformed => "malformed variable reference"@,
    }
}

/// The message of an error; each names the field, script or header at fault.
pub open spec fn message_of(e: CurlError) -> Seq<char> {
    match e {
        CurlError::UnexpectedField(k) => "Unexpected `"@ + k@ + "` in `curl` block"@,
        CurlError::ExpectedUnsupported => "`expected` is not yet supported in `curl` block"@,
        CurlError::MissingField(f) => "Missing required `"@ + field_text(f)
            + "` in `curl` block"@,
        CurlError::InvalidMethod(m) => "Invalid method "@ + m@
            + ", supported methods are GET, POST, PUT, PATCH."@,
        CurlError::Template(field, f) => "Template error in `"@ + field@ + "`: "@
            + template_text(f),
        CurlError::Script(ScriptKind::Headers, c) => "Error in headers code: "@ + c@,
        CurlError::Script(ScriptKind::Body, c) => "Error in body code: "@ + c@,
        CurlError::HeadersNotObject => "Returned headers must be an object with string values."@,
        CurlError::HeaderValueNotString(k) => "Header value for header "@ + k@
            + " must be a string"@,
        CurlError::BodyShape => "Returned body must be either a string or null."@,
        CurlError::InvalidHeaderName(k) => "Invalid header name "@ + k@,
        CurlError::InvalidHeaderValue(k) => "Invalid value for header "@ + k@,
        CurlError::Transport(c) => "Request failed: "@ + c@,
    }
}

/// `a`, then `b`.
fn join2(a: &str, b: &String) -> (r: String)
    ensures
        r@ == a@ + b@,
{
    let mut s = String::from_str(a);
    s.append(b.as_str());
    s
}

/// `a`, then `b`, then `c`.
fn join3(a: &str, b: &String, c: &str) -> (r: String)
    ensures
        r@ == a@ + b@ + c@,
{
    let mut s = String::from_str(a);
    s.append(b.as_str());
    s.append(c);
    s
}

impl Field {
    /// The key of the field.
    pub fn key(&self) -> (r: String)
        ensures
            r@ == field_text(*self),
    {
        match self {
            Field::Method => String::from_str("method"),
            Field::Url => String::from_str("url"),
            Field::HeadersCode => String::from_str("headers_code"),
            Field::BodyCode => String::from_str("body_code"),
        }
    }
}

impl TemplateFailure {
    /// What the failure says.
    pub fn describe(&self) -> (r: String)
        ensures
            r@ == template_text(*self),
    {
        match self {
            TemplateFailure::UnknownVariable(n) => join3("unknown variable `", n, "`"),
            TemplateFailure::NotTextual(n) => join3("variable `", n, "` has no textual value"),
            TemplateFailure::Malformed => String::from_str("malformed variable reference"),
        }
    }
}

impl CurlError {
    /// The message of the error.
    pub fn message(&self) -> (r: String)
        ensures
            r@ == message_of(*self),
    {
        match self {
            CurlError::UnexpectedField(k) => join3("Unexpected `", k, "` in `curl` block"),
            CurlError::ExpectedUnsupported => String::from_str(
                "`expected` is not yet supported in `curl` block",
            ),
            CurlError::MissingField(f) => join3(
                "Missing required `",
                &f.key(),
                "` in `curl` block",
            ),
            CurlError::InvalidMethod(m) => join3(
                "Invalid method ",
                m,
                ", supported methods are GET, POST, PUT, PATCH.",
            ),
            CurlError::Template(field, f) => {
                let mut s = join3("Template error in `", field, "`: ");
                s.append(f.describe().as_str());
                s
            },
            CurlError::Script(ScriptKind::Headers, c) => join2("Error in headers code: ", c),
            CurlError::Script(ScriptKind::Body, c) => join2("Error in body code: ", c),
            CurlError::HeadersNotObject => String::from_str(
                "Returned headers must be an object with string values.",
            ),
            CurlError::HeaderValueNotString(k) => join3(
                "Header value for header ",
                k,
                " must be a string",
            ),
            CurlError::BodyShape => String::from_str(
                "Returned body must be either a string or null.",
            ),
            CurlError::InvalidHeaderName(k) => join2("Invalid header name ", k),
            CurlError::InvalidHeaderValue(k) => join2("Invalid value for header ", k),
            CurlError::Transport(c) => join2("Request failed: ", c),
        }
    }

    /// The error payload that carries the message.
    pub fn to_error(&self) -> (r: Error)
        ensures
            r.error@ == message_of(*self),
    {
        Error { error: self.message() }
    }
}

} // verus!
