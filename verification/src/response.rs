//! The response that a handler or a failure is turned into: a status, the
//! header fields and a body of text.

use http::header::HeaderValue;
use http::HeaderMap;
use vstd::prelude::*;
use vstd::string::StringSliceAdditionalSpecFns;

verus! {

/// `http::HeaderMap`, the multimap of header fields.
#[verifier::external_type_specification]
#[verifier::external_body]
#[verifier::reject_recursive_types(T)]
pub struct ExHeaderMap<T>(HeaderMap<T>);

/// `http::HeaderValue`, the bytes of one header field's value.
#[verifier::external_type_specification]
#[verifier::external_body]
pub struct ExHeaderValue(HeaderValue);

/// What a header map holds: for each field name, written in lower case, the
/// bytes of the first value stored under it.
pub uninterp spec fn header_entries(headers: HeaderMap<HeaderValue>) -> Map<Seq<char>, Seq<u8>>;

/// The header fields of a map that holds none.
pub open spec fn no_fields() -> Map<Seq<char>, Seq<u8>> {
    Map::empty()
}

/// The number of names below which a header map has room for one more.
pub const HEADER_ROOM: usize = 1024;

/// Whether a character may stand in a header field's name: a letter, a digit
/// or one of the marks that HTTP allows in a token.
pub open spec fn is_name_char(c: char) -> bool {
    ||| 'a' <= c <= 'z'
    ||| 'A' <= c <= 'Z'
    ||| '0' <= c <= '9'
    ||| c == '!'
    ||| c == '#'
    ||| c == '$'
    ||| c == '%'
    ||| c == '&'
    ||| c == '\''
    ||| c == '*'
    ||| c == '+'
    ||| c == '-'
    ||| c == '.'
    ||| c == '^'
    ||| c == '_'
    ||| c == '`'
    ||| c == '|'
    ||| c == '~'
}

/// Whether a text can name a header field: 1 to 64 name characters.
pub open spec fn is_header_name(name: Seq<char>) -> bool {
    &&& 1 <= name.len() <= 64
    &&& forall|i: int| 0 <= i < name.len() ==> is_name_char(#[trigger] name[i])
}

/// Whether a text can be a header field's value: visible ASCII, spaces and tabs.
pub open spec fn is_header_text(value: Seq<char>) -> bool {
    forall|i: int|
        0 <= i < value.len() ==> {
            let code = (#[trigger] value[i]) as u32;
            32 <= code < 127 || code == 9
        }
}

/// A character with an upper-case ASCII letter turned into its lower-case form.
pub open spec fn lower_char(c: char) -> char {
    if 'A' <= c <= 'Z' {
        ((c as u32) + 32) as char
    } else {
        c
    }
}

/// A field name as a header map keeps it: in lower case.
pub open spec fn lowercase(name: Seq<char>) -> Seq<char> {
    name.map_values(|c: char| lower_char(c))
}

/// `http::HeaderMap::new` makes a map that holds no field.
#[verifier::external_body]
pub(crate) fn new_header_map() -> (headers: HeaderMap<HeaderValue>)
    ensures
        header_entries(headers) == no_fields(),
{
    HeaderMap::new()
}

/// `http::HeaderMap::insert`, with a value made by
/// `http::HeaderValue::from_static`: afterwards the name, in lower case, has
/// `value` as its only value, and every other name has what it had. The name
/// and the value must be ones that `http` accepts and the map must be far
/// from full, since `http` panics otherwise.
#[verifier::external_body]
pub(crate) fn insert_header(
    headers: &mut HeaderMap<HeaderValue>,
    name: &'static str,
    value: &'static str,
)
    requires
        is_header_name(name@),
        is_header_text(value@),
        header_entries(*old(headers)).dom().finite(),
        header_entries(*old(headers)).dom().len() < HEADER_ROOM,
    ensures
        header_entries(*final(headers)) == header_entries(*old(headers)).insert(
            lowercase(name@),
            value.spec_bytes(),
        ),
{
    headers.insert(name, HeaderValue::from_static(value));
}

/// A response in plain values: the status code, the header fields and the body.
#[derive(Debug)]
pub struct Response {
    pub status: StatusCode,
    pub headers: HeaderMap<HeaderValue>,
    pub body: String,
}

/// The mathematical content of a [`Response`].
pub struct ResponseView {
    pub status: int,
    pub headers: Map<Seq<char>, Seq<u8>>,
    pub body: Seq<char>,
}

impl View for Response {
    type V = ResponseView;

    open spec fn view(&self) -> ResponseView {
        ResponseView {
            status: self.status@,
            headers: header_entries(self.headers),
            body: self.body@,
        }
    }
}

/// The status code of a response that succeeded.
pub const STATUS_OK: u16 = 200;

/// The smallest status code.
pub const STATUS_MIN: u16 = 100;

/// The largest status code.
pub const STATUS_MAX: u16 = 999;

/// Whether a number is a status code: it has three digits.
pub open spec fn is_status(code: int) -> bool {
    STATUS_MIN <= code <= STATUS_MAX
}

/// The status code of a response: a number of three digits.
#[derive(Clone, Copy, Debug)]
pub struct StatusCode(u16);

impl View for StatusCode {
    type V = int;

    closed spec fn view(&self) -> int {
        self.0 as int
    }
}

impl StatusCode {
    #[verifier::type_invariant]
    spec fn in_range(&self) -> bool {
        is_status(self@)
    }

    /// The status of a request that succeeded, 200.
    pub fn ok() -> (status: StatusCode)
        ensures
            status@ == STATUS_OK,
    {
        StatusCode(STATUS_OK)
    }

    /// The status with the number `code`, or nothing where `code` does not
    /// have three digits.
    pub fn from_u16(code: u16) -> (made: Option<StatusCode>)
        ensures
            match made {
                Some(status) => is_status(code as int) && status@ == code,
                None => !is_status(code as int),
            },
    {
        if STATUS_MIN <= code && code <= STATUS_MAX {
            Some(StatusCode(code))
        } else {
            None
        }
    }

    /// The number of the status, which has three digits.
    pub fn as_u16(&self) -> (code: u16)
        ensures
            code == self@,
            is_status(code as int),
    {
        proof {
            use_type_invariant(self);
        }
        self.0
    }
}

/// The name of the field that says what kind of text the body is.
pub open spec fn content_type_name() -> Seq<char> {
    lowercase("content-type"@)
}

/// The name of the field that sends a fragment to another region of the page.
pub open spec fn retarget_name() -> Seq<char> {
    lowercase("Hx-Retarget"@)
}

/// The response with status 200, no header field and an empty body.
pub open spec fn empty_response() -> ResponseView {
    ResponseView { status: 200, headers: Map::empty(), body: Seq::empty() }
}

/// The response with status 200 that carries `body` as text of the kind `kind`.
pub open spec fn text_response(kind: Seq<u8>, body: Seq<char>) -> ResponseView {
    ResponseView { status: 200, headers: map![content_type_name() => kind], body }
}

/// The response with status 200 that carries `body` as HTML.
pub open spec fn html_response(body: Seq<char>) -> ResponseView {
    text_response("text/html; charset=utf-8".spec_bytes(), body)
}

/// The response with status 200 that carries `body` as plain text.
pub open spec fn plain_response(body: Seq<char>) -> ResponseView {
    text_response("text/plain; charset=utf-8".spec_bytes(), body)
}

/// A response with the field added that sends its body to the alert region.
pub open spec fn retargeted(response: ResponseView) -> ResponseView {
    ResponseView {
        headers: response.headers.insert(retarget_name(), "#alerts".spec_bytes()),
        ..response
    }
}

/// Whether the header fields of a response leave room for the field that
/// sends it to the alert region: besides that field there are fewer names
/// than a header map is sure to take, less one.
pub open spec fn has_room(response: ResponseView) -> bool {
    &&& response.headers.dom().finite()
    &&& response.headers.dom().remove(retarget_name()).len() + 1 < HEADER_ROOM
}

/// A response that has room keeps it when it is sent to the alert region,
/// and its header map can take that field.
pub proof fn lemma_room_is_kept(response: ResponseView)
    requires
        has_room(response),
    ensures
        response.headers.dom().len() < HEADER_ROOM,
        has_room(retargeted(response)),
{
    let names = response.headers.dom();
    assert(names.len() <= names.remove(retarget_name()).len() + 1);
    assert(retargeted(response).headers.dom().remove(retarget_name()) =~= names.remove(
        retarget_name(),
    ));
}

/// The two field names that responses use, as a header map keeps them.
pub proof fn lemma_field_names()
    ensures
        content_type_name() == "content-type"@,
        retarget_name() == "hx-retarget"@,
{
    reveal_strlit("content-type");
    reveal_strlit("Hx-Retarget");
    reveal_strlit("hx-retarget");
    assert(lowercase("content-type"@) =~= "content-type"@);
    assert(lowercase("Hx-Retarget"@) =~= "hx-retarget"@);
}

/// Values that can be sent back as a response.
pub trait IntoResponse: Sized {
    /// The response that the value becomes.
    spec fn response(self) -> ResponseView;

    /// Turns the value into its response, whose header fields leave room
    /// for the one that sends it to the alert region.
    fn into_response(self) -> (response: Response)
        ensures
            response@ == self.response(),
            has_room(response@),
    ;
}

/// A fragment or a page of HTML.
#[derive(Debug)]
pub struct Html(pub String);

impl View for Html {
    type V = Seq<char>;

    open spec fn view(&self) -> Seq<char> {
        self.0@
    }
}

/// Makes the response with status 200 whose body is `body`, of the kind `kind`.
fn respond_with_text(kind: &'static str, body: String) -> (response: Response)
    requires
        is_header_text(kind@),
    ensures
        response@ == text_response(kind.spec_bytes(), body@),
        response@.headers.dom().finite(),
        response@.headers.dom().len() == 1,
{
    let mut headers = new_header_map();
    proof {
        reveal_strlit("content-type");
    }
    insert_header(&mut headers, "content-type", kind);
    let response = Response { status: StatusCode::ok(), headers, body };
    assert(response@.headers =~= map![content_type_name() => kind.spec_bytes()]);
    response
}

impl IntoResponse for Html {
    open spec fn response(self) -> ResponseView {
        html_response(self@)
    }

    fn into_response(self) -> (response: Response) {
        proof {
            reveal_strlit("text/html; charset=utf-8");
        }
        respond_with_text("text/html; charset=utf-8", self.0)
    }
}

impl IntoResponse for String {
    open spec fn response(self) -> ResponseView {
        plain_response(self@)
    }

    fn into_response(self) -> (response: Response) {
        proof {
            reveal_strlit("text/plain; charset=utf-8");
        }
        respond_with_text("text/plain; charset=utf-8", self)
    }
}

impl IntoResponse for () {
    open spec fn response(self) -> ResponseView {
        empty_response()
    }

    fn into_response(self) -> (response: Response) {
        let response = Response {
            status: StatusCode::ok(),
            headers: new_header_map(),
            body: String::new(),
        };
        assert(response@.headers =~= Map::empty());
        response
    }
}

impl<R: IntoResponse> IntoResponse for (StatusCode, R) {
    open spec fn response(self) -> ResponseView {
        ResponseView { status: self.0@, ..self.1.response() }
    }

    /// The response of the second part, with the status that the first gives.
    fn into_response(self) -> (response: Response) {
        let (status, rest) = self;
        let mut response = rest.into_response();
        response.status = status;
        response
    }
}

impl<T: IntoResponse, E: IntoResponse> IntoResponse for Result<T, E> {
    open spec fn response(self) -> ResponseView {
        match self {
            Ok(value) => value.response(),
            Err(err) => err.response(),
        }
    }

    fn into_response(self) -> (response: Response) {
        match self {
            Ok(value) => value.into_response(),
            Err(err) => err.into_response(),
        }
    }
}

} // verus!
