//! The redirect as plain values, and its form as an HTTP response.

use vstd::prelude::*;
use vstd::string::*;

verus! {

/// An HTTP response of `http`. What one with a body of bytes holds is named
/// by `response_status`, `response_headers` and `response_body`.
#[verifier::external_type_specification]
#[verifier::external_body]
#[verifier::reject_recursive_types(T)]
pub struct ExResponse<T>(http::Response<T>);

/// The error of the response builder of `http`. It is never read.
#[verifier::external_type_specification]
#[verifier::external_body]
pub struct ExHttpError(http::Error);

/// The status code of an HTTP response.
pub uninterp spec fn response_status(response: http::Response<Vec<u8>>) -> u16;

/// The header fields of an HTTP response in the order in which it lists
/// them: each a lower-case name with the bytes of its value.
pub uninterp spec fn response_headers(response: http::Response<Vec<u8>>) -> Seq<
    (Seq<char>, Seq<u8>),
>;

/// The body of an HTTP response.
pub uninterp spec fn response_body(response: http::Response<Vec<u8>>) -> Seq<u8>;

/// A byte that may stand in a header value: a tab, or any byte from the space
/// on but the delete character.
pub open spec fn is_header_value_byte(b: u8) -> bool {
    (b >= 32 && b != 127) || b == 9
}

/// Whether every byte of the sequence may stand in a header value.
pub open spec fn is_header_value(bytes: Seq<u8>) -> bool {
    forall|i: int| 0 <= i < bytes.len() ==> is_header_value_byte(#[trigger] bytes[i])
}

/// Whether a number is accepted as an HTTP status code.
pub open spec fn is_status_code(status: u16) -> bool {
    100 <= status && status < 1000
}

/// The decimal digits of a number as ASCII bytes, without leading zeros.
pub open spec fn decimal_digits(n: nat) -> Seq<u8>
    decreases n,
{
    if n < 10 {
        seq![(48 + n) as u8]
    } else {
        decimal_digits(n / 10).push((48 + n % 10) as u8)
    }
}

/// The header fields of a redirect, as an HTTP response lists them.
pub open spec fn redirect_headers(
    content_type: Seq<u8>,
    content_length: usize,
    location: Seq<u8>,
) -> Seq<(Seq<char>, Seq<u8>)> {
    seq![
        ("content-type"@, content_type),
        ("content-length"@, decimal_digits(content_length as nat)),
        ("location"@, location),
    ]
}

/// The builder of `http::Response`, from `http::Response::builder` through
/// `status` and three calls of `header` to `body`.
///
/// It gives a response exactly when the status lies from 100 to 999 and the
/// content type and the location hold only bytes that a header value may
/// hold. The response then has that status, the fields `content-type`,
/// `content-length` (the length in decimal digits) and `location` in this
/// order, and the body as given.
#[verifier::external_body]
fn build_http_response(
    status: u16,
    content_type: &str,
    content_length: usize,
    location: &str,
    body: Vec<u8>,
) -> (built: Result<http::Response<Vec<u8>>, http::Error>)
    ensures
        built is Ok <==> (is_status_code(status) && is_header_value(content_type.spec_bytes())
            && is_header_value(location.spec_bytes())),
        built matches Ok(response) ==> response_status(response) == status,
        built matches Ok(response) ==> response_headers(response) == redirect_headers(
            content_type.spec_bytes(),
            content_length,
            location.spec_bytes(),
        ),
        built matches Ok(response) ==> response_body(response) == body@,
{
    http::Response::builder()
        .status(status)
        .header(http::header::CONTENT_TYPE, content_type)
        .header(http::header::CONTENT_LENGTH, content_length)
        .header(http::header::LOCATION, location)
        .body(body)
}

/// Why no redirect was produced.
#[derive(Debug, Clone, Copy, PartialEq, Eq)]
pub enum RedirectError {
    /// The request carries no usable `Host` header, so there is no target to
    /// redirect to.
    MissingHost,
    /// The redirect cannot be written as an HTTP response.
    Unrepresentable,
}

impl RedirectError {
    /// The HTTP status that tells the client of the failure: 400 for a
    /// request without a usable `Host` header, 500 for a redirect that cannot
    /// be written.
    pub open spec fn spec_status(&self) -> u16 {
        match *self {
            RedirectError::MissingHost => 400,
            RedirectError::Unrepresentable => 500,
        }
    }

    /// The HTTP status that tells the client of the failure: 400 for a
    /// request without a usable `Host` header, 500 for a redirect that cannot
    /// be written.
    #[verifier::when_used_as_spec(spec_status)]
    pub fn status(&self) -> (status: u16)
        ensures
            status == self.spec_status(),
    {
        match self {
            RedirectError::MissingHost => 400,
            RedirectError::Unrepresentable => 500,
        }
    }
}

/// A redirect as plain values.
#[derive(Debug, PartialEq, Eq)]
pub struct Redirect {
    /// The status code.
    pub status: u16,
    /// The value of `Content-Type`.
    pub content_type: String,
    /// The value of `Content-Length`.
    pub content_length: usize,
    /// The value of `Location`.
    pub location: String,
    /// The body.
    pub body: Vec<u8>,
}

/// The mathematical content of a `Redirect`.
pub struct RedirectView {
    /// The status code.
    pub status: u16,
    /// The value of `Content-Type`.
    pub content_type: Seq<char>,
    /// The value of `Content-Length`.
    pub content_length: usize,
    /// The value of `Location`.
    pub location: Seq<char>,
    /// The body.
    pub body: Seq<u8>,
}

impl View for Redirect {
    type V = RedirectView;

    open spec fn view(&self) -> RedirectView {
        RedirectView {
            status: self.status,
            content_type: self.content_type@,
            content_length: self.content_length,
            location: self.location@,
            body: self.body@,
        }
    }
}

impl RedirectView {
    /// Whether the redirect can be written as an HTTP response: its status is
    /// a status code, and its content type and location are header values.
    pub open spec fn representable(self) -> bool {
        &&& is_status_code(self.status)
        &&& is_header_value(vstd::utf8::encode_utf8(self.content_type))
        &&& is_header_value(vstd::utf8::encode_utf8(self.location))
    }

    /// Whether `response` is this redirect written as an HTTP response.
    pub open spec fn written_as(self, response: http::Response<Vec<u8>>) -> bool {
        &&& response_status(response) == self.status
        &&& response_headers(response) == redirect_headers(
            vstd::utf8::encode_utf8(self.content_type),
            self.content_length,
            vstd::utf8::encode_utf8(self.location),
        )
        &&& response_body(response) == self.body
    }
}

impl Redirect {
    /// Writes the redirect as an HTTP response.
    ///
    /// This fails with `Unrepresentable` exactly when the status is no status
    /// code or a header's text holds a byte that no header value may hold.
    pub fn into_response(self) -> (written: Result<http::Response<Vec<u8>>, RedirectError>)
        ensures
            written is Ok <==> self@.representable(),
            written matches Ok(response) ==> self@.written_as(response),
            written matches Err(e) ==> e == RedirectError::Unrepresentable,
    {
        match build_http_response(
            self.status,
            self.content_type.as_str(),
            self.content_length,
            self.location.as_str(),
            self.body,
        ) {
            Ok(response) => Ok(response),
            Err(_) => Err(RedirectError::Unrepresentable),
        }
    }
}

/// The body of every redirect, as bytes.
pub open spec fn redirect_body() -> Seq<u8> {
    vstd::utf8::encode_utf8("<html><body>301 Moved Permanently</body></html>"@)
}

/// The redirect to the HTTPS form of `host`: status 301, an HTML content
/// type, the fixed body with its length, and `https://` followed by `host` as
/// the location.
pub open spec fn redirect_for(host: Seq<char>) -> RedirectView {
    RedirectView {
        status: 301,
        content_type: "text/html"@,
        content_length: redirect_body().len() as usize,
        location: "https://"@ + host,
        body: redirect_body(),
    }
}

/// The body of a redirect is the ASCII text of 47 bytes that it is written as.
pub proof fn lemma_redirect_body()
    ensures
        redirect_body().len() == 47,
        redirect_body() == Seq::new(
            47,
            |i: int| "<html><body>301 Moved Permanently</body></html>"@[i] as u8,
        ),
{
    reveal_strlit("<html><body>301 Moved Permanently</body></html>");
    let text = "<html><body>301 Moved Permanently</body></html>"@;
    assert(vstd::utf8::is_ascii_chars(text));
    vstd::utf8::is_ascii_chars_encode_utf8(text);
    assert(redirect_body() =~= Seq::new(47, |i: int| text[i] as u8));
}

/// A character that a header value read as text is made of: a tab or a
/// printable ASCII character.
pub open spec fn is_visible_char(c: char) -> bool {
    (' ' <= c && c <= '~') || c == '\t'
}

/// Whether every character of the text is a tab or a printable ASCII character.
pub open spec fn is_visible_text(text: Seq<char>) -> bool {
    forall|i: int| 0 <= i < text.len() ==> is_visible_char(#[trigger] text[i])
}

/// A text of tabs and printable ASCII characters may stand in a header value.
pub proof fn lemma_visible_text_is_header_value(text: Seq<char>)
    requires
        is_visible_text(text),
    ensures
        is_header_value(vstd::utf8::encode_utf8(text)),
{
    assert(vstd::utf8::is_ascii_chars(text)) by {
        assert forall|i: int| 0 <= i < text.len() implies '\0' <= #[trigger] text[i]
            <= '\u{7f}' by {
            assert(is_visible_char(text[i]));
        }
    }
    vstd::utf8::is_ascii_chars_encode_utf8(text);
    let bytes = vstd::utf8::encode_utf8(text);
    assert forall|i: int| 0 <= i < bytes.len() implies is_header_value_byte(
        #[trigger] bytes[i],
    ) by {
        assert(is_visible_char(text[i]));
        assert(text[i] as u8 == bytes[i]);
    }
}

/// The redirect to a host whose name is made of tabs and printable ASCII
/// characters can be written as an HTTP response.
pub proof fn lemma_redirect_is_representable(host: Seq<char>)
    requires
        is_visible_text(host),
    ensures
        redirect_for(host).representable(),
{
    reveal_strlit("text/html");
    reveal_strlit("https://");
    lemma_visible_text_is_header_value("text/html"@);
    let location = "https://"@ + host;
    assert forall|i: int| 0 <= i < location.len() implies is_visible_char(
        #[trigger] location[i],
    ) by {
        if i >= 8 {
            assert(location[i] == host[i - 8]);
        }
    }
    lemma_visible_text_is_header_value(location);
}

} // verus!
