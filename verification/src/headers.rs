//! What a request's headers say, and the headers of a response.

use vstd::prelude::*;
use axum::http::header::{InvalidHeaderValue, ToStrError};
use axum::http::{HeaderMap, HeaderValue};
use crate::error::{ApiError, ApiResult, StatusCode};
use crate::share::DownloadTicket;
use crate::text;

verus! {

#[verifier::external_type_specification]
#[verifier::external_body]
#[verifier::reject_recursive_types(T)]
pub struct ExHeaderMap<T>(axum::http::HeaderMap<T>);

#[verifier::external_type_specification]
#[verifier::external_body]
pub struct ExHeaderValue(axum::http::HeaderValue);

#[verifier::external_type_specification]
#[verifier::external_body]
pub struct ExToStrError(axum::http::header::ToStrError);

#[verifier::external_type_specification]
#[verifier::external_body]
pub struct ExInvalidHeaderValue(axum::http::header::InvalidHeaderValue);

/// The bytes of a header value.
pub uninterp spec fn value_bytes(value: HeaderValue) -> Seq<u8>;

/// The bytes of the first value of each header, by the header's name in lower case.
pub uninterp spec fn header_lines(headers: HeaderMap) -> Map<Seq<char>, Seq<u8>>;

/// A header name as it is looked up: lower case letters, digits and hyphens.
pub open spec fn is_name(name: Seq<char>) -> bool {
    &&& 0 < name.len() <= 64
    &&& forall|i: int|
        0 <= i < name.len() ==> 'a' <= #[trigger] name[i] <= 'z' || '0' <= name[i] <= '9' || name[i]
            == '-'
}

/// A byte that a header value shows as text.
pub open spec fn is_visible(b: u8) -> bool {
    32 <= b < 127 || b == 9
}

/// A byte that a header value may hold.
pub open spec fn is_allowed(b: u8) -> bool {
    (32 <= b && b != 127) || b == 9
}

pub open spec fn all_visible(bytes: Seq<u8>) -> bool {
    forall|i: int| 0 <= i < bytes.len() ==> is_visible(#[trigger] bytes[i])
}

pub open spec fn all_allowed(bytes: Seq<u8>) -> bool {
    forall|i: int| 0 <= i < bytes.len() ==> is_allowed(#[trigger] bytes[i])
}

/// The text that consists of these ASCII bytes.
pub open spec fn ascii_text(bytes: Seq<u8>) -> Seq<char> {
    Seq::new(bytes.len(), |i: int| bytes[i] as char)
}

/// `HeaderMap::get` with a name: the first value of that header.
#[verifier::external_body]
fn get<'a>(headers: &'a HeaderMap, name: &str) -> (r: Option<&'a HeaderValue>)
    requires
        is_name(name@),
    ensures
        match r {
            Some(value) => {
                &&& header_lines(*headers).contains_key(name@)
                &&& header_lines(*headers)[name@] == value_bytes(*value)
            },
            None => !header_lines(*headers).contains_key(name@),
        },
{
    headers.get(name)
}

/// `HeaderMap::new`: no headers.
#[verifier::external_body]
fn no_headers() -> (r: HeaderMap)
    ensures
        header_lines(r).dom() == Set::<Seq<char>>::empty(),
{
    HeaderMap::new()
}

/// `HeaderMap::insert` with a name: the header has this value and no other. It
/// panics beyond some tens of thousands of headers.
#[verifier::external_body]
fn insert(headers: &mut HeaderMap, name: &'static str, value: HeaderValue)
    requires
        is_name(name@),
        header_lines(*old(headers)).dom().finite(),
        header_lines(*old(headers)).dom().len() < 1024,
    ensures
        header_lines(*final(headers)) == header_lines(*old(headers)).insert(
            name@,
            value_bytes(value),
        ),
{
    headers.insert(name, value);
}

/// `HeaderValue::to_str` gives the text of a value all of whose bytes are visible
/// ASCII or tabs, and fails on any other.
pub assume_specification[ HeaderValue::to_str ](value: &HeaderValue) -> (r: Result<&str, ToStrError>)
    ensures
        r is Ok <==> all_visible(value_bytes(*value)),
        r matches Ok(s) ==> s@ == ascii_text(value_bytes(*value)),
;

/// `HeaderValue::from_str` makes a value of the bytes of a text, unless one of
/// them is a control character other than the tab.
pub assume_specification[ HeaderValue::from_str ](src: &str) -> (r: Result<
    HeaderValue,
    InvalidHeaderValue,
>)
    ensures
        r is Ok <==> all_allowed(vstd::utf8::encode_utf8(src@)),
        r matches Ok(value) ==> value_bytes(value) == vstd::utf8::encode_utf8(src@),
;

/// The text of a request header, if it is there and is text.
pub open spec fn text_of(headers: HeaderMap, name: Seq<char>) -> Option<Seq<char>> {
    let lines = header_lines(headers);
    if lines.contains_key(name) && all_visible(lines[name]) {
        Some(ascii_text(lines[name]))
    } else {
        None
    }
}

fn header_text<'a>(headers: &'a HeaderMap, name: &str) -> (r: Option<&'a str>)
    requires
        is_name(name@),
    ensures
        match r {
            Some(s) => text_of(*headers, name@) == Some(s@),
            None => text_of(*headers, name@) is None,
        },
{
    match get(headers, name) {
        Some(value) => match value.to_str() {
            Ok(s) => Some(s),
            Err(_) => None,
        },
        None => None,
    }
}

/// The length that a request announces for its body.
pub open spec fn announced_length(headers: HeaderMap) -> Option<int> {
    match text_of(headers, "content-length"@) {
        Some(s) => match text::integer_of(s, true) {
            Some(n) => if 0 <= n <= i64::MAX {
                Some(n)
            } else {
                None
            },
            None => None,
        },
        None => None,
    }
}

/// Reads the length that a request announces for its body.
pub fn content_length(headers: &HeaderMap) -> (r: ApiResult<i64>)
    ensures
        match r {
            Ok(n) => announced_length(*headers) == Some(n as int),
            Err(e) => {
                &&& announced_length(*headers) is None
                &&& e.says(StatusCode::LengthRequired, "content-length required"@)
            },
        },
{
    proof {
        reveal_strlit("content-length");
    }
    if let Some(s) = header_text(headers, "content-length") {
        if let Some(n) = text::parse_i64(s) {
            if n >= 0 {
                return Ok(n);
            }
        }
    }
    Err(ApiError::new(StatusCode::LengthRequired, "content-length required"))
}

/// The content type of a file that comes with none, or with an unusable one.
pub const DEFAULT_CONTENT_TYPE: &'static str = "application/octet-stream";

/// An ASCII control character.
pub open spec fn is_control(c: char) -> bool {
    c < ' ' || c == '\u{7f}'
}

pub open spec fn has_control(s: Seq<char>) -> bool {
    exists|i: int| 0 <= i < s.len() && is_control(#[trigger] s[i])
}

/// The content type that a request gives to its body: what it says, if that is
/// text of less than 128 characters without control characters.
pub open spec fn given_content_type(headers: HeaderMap) -> Seq<char> {
    match text_of(headers, "content-type"@) {
        Some(s) => if s.len() < 128 && !has_control(s) {
            s
        } else {
            DEFAULT_CONTENT_TYPE@
        },
        None => DEFAULT_CONTENT_TYPE@,
    }
}

fn find_control(s: &str) -> (r: bool)
    ensures
        r == has_control(s@),
{
    let mut found: bool = false;
    for c in it: s.chars()
        invariant
            it.seq() == s@,
            found == has_control(s@.take(it.index() as int)),
    {
        let ghost i = it.index() as int;
        proof {
            let done = s@.take(i);
            let more = s@.take(i + 1);
            assert(more[i] == c);
            assert(forall|k: int| 0 <= k < i ==> done[k] == more[k]);
            if has_control(done) {
                let k = choose|k: int| 0 <= k < done.len() && is_control(#[trigger] done[k]);
                assert(more[k] == done[k]);
            }
            if has_control(more) && !is_control(c) {
                let k = choose|k: int| 0 <= k < more.len() && is_control(#[trigger] more[k]);
                assert(done[k] == more[k]);
            }
        }
        if c < ' ' || c == '\u{7f}' {
            found = true;
        }
    }
    proof {
        assert(s@.take(s@.len() as int) =~= s@);
    }
    found
}

/// Reads the content type that a request gives to its body.
pub fn content_type(headers: &HeaderMap) -> (r: String)
    ensures
        r@ == given_content_type(*headers),
{
    proof {
        reveal_strlit("content-type");
    }
    if let Some(s) = header_text(headers, "content-type") {
        if s.unicode_len() < 128 && !find_control(s) {
            return s.to_string();
        }
    }
    DEFAULT_CONTENT_TYPE.to_string()
}

/// A character that a file name keeps: an ASCII letter or digit, or one of `._-`.
pub open spec fn is_plain(c: char) -> bool {
    ||| 'a' <= c <= 'z'
    ||| 'A' <= c <= 'Z'
    ||| '0' <= c <= '9'
    ||| c == '.'
    ||| c == '_'
    ||| c == '-'
}

/// The plain characters of `s`, in order.
pub open spec fn plain_part(s: Seq<char>) -> Seq<char>
    decreases s.len(),
{
    if s.len() == 0 {
        Seq::empty()
    } else if is_plain(s.last()) {
        plain_part(s.drop_last()).push(s.last())
    } else {
        plain_part(s.drop_last())
    }
}

/// The first `n` characters of `s`, or all of it.
pub open spec fn first_chars(s: Seq<char>, n: int) -> Seq<char> {
    if s.len() <= n {
        s
    } else {
        s.take(n)
    }
}

/// The longest file name there is.
pub const NAME_LENGTH: usize = 120;

/// The name that a file gets when `raw` is asked for.
pub open spec fn cleaned_name(raw: Seq<char>) -> Seq<char> {
    let kept = first_chars(plain_part(raw), NAME_LENGTH as int);
    if kept.len() == 0 {
        "download"@
    } else {
        kept
    }
}

/// The name that a request gives to its file, or else `fallback`, cleaned.
pub open spec fn given_name(headers: HeaderMap, fallback: Seq<char>) -> Seq<char> {
    match text_of(headers, "x-filename"@) {
        Some(s) => cleaned_name(s),
        None => cleaned_name(fallback),
    }
}

fn clean_name(raw: &str) -> (r: String)
    ensures
        r@ == cleaned_name(raw@),
{
    let mut out = String::new();
    let mut len: usize = 0;
    for c in it: raw.chars()
        invariant
            it.seq() == raw@,
            out@ == first_chars(plain_part(raw@.take(it.index() as int)), NAME_LENGTH as int),
            len == out@.len(),
            len <= NAME_LENGTH,
    {
        proof {
            let i = it.index() as int;
            let done = raw@.take(i);
            let more = raw@.take(i + 1);
            assert(more.drop_last() =~= done);
            assert(more.last() == c);
            let kept = plain_part(done);
            if is_plain(c) {
                if kept.len() < NAME_LENGTH {
                    assert(first_chars(kept.push(c), NAME_LENGTH as int) =~= kept.push(c));
                } else {
                    assert(first_chars(kept.push(c), NAME_LENGTH as int) =~= kept.take(
                        NAME_LENGTH as int,
                    ));
                    assert(first_chars(kept, NAME_LENGTH as int) =~= kept.take(NAME_LENGTH as int));
                }
            }
        }
        let plain: bool = ('a' <= c && c <= 'z') || ('A' <= c && c <= 'Z') || ('0' <= c && c <= '9')
            || c == '.' || c == '_' || c == '-';
        if plain && len < NAME_LENGTH {
            out.push(c);
            len = len + 1;
        }
    }
    proof {
        assert(raw@.take(raw@.len() as int) =~= raw@);
    }
    if len == 0 {
        "download".to_string()
    } else {
        out
    }
}

/// Reads the name that a request gives to its file.
pub fn filename(headers: &HeaderMap, fallback: &str) -> (r: String)
    ensures
        r@ == given_name(*headers, fallback@),
{
    proof {
        reveal_strlit("x-filename");
    }
    match header_text(headers, "x-filename") {
        Some(s) => clean_name(s),
        None => clean_name(fallback),
    }
}

/// Where the first comma of `s` is, or the end of `s`.
pub open spec fn comma_at(s: Seq<char>) -> int
    decreases s.len(),
{
    if s.len() == 0 || s[0] == ',' {
        0
    } else {
        1 + comma_at(s.skip(1))
    }
}

/// The text before the first comma of `s`.
pub open spec fn first_part(s: Seq<char>) -> Seq<char> {
    s.take(comma_at(s))
}

fn before_comma(s: &str) -> (r: String)
    ensures
        r@ == first_part(s@),
{
    let mut out = String::new();
    let mut ended: bool = false;
    proof {
        assert(s@.skip(0) =~= s@);
    }
    for c in it: s.chars()
        invariant
            it.seq() == s@,
            ended ==> out@ == first_part(s@),
            !ended ==> {
                &&& out@ == s@.take(it.index() as int)
                &&& comma_at(s@) == it.index() + comma_at(s@.skip(it.index() as int))
            },
    {
        proof {
            let i = it.index() as int;
            assert(s@.skip(i)[0] == c);
            assert(s@.skip(i).skip(1) =~= s@.skip(i + 1));
            assert(s@.take(i).push(c) =~= s@.take(i + 1));
        }
        if c == ',' {
            ended = true;
        }
        if !ended {
            out.push(c);
        }
    }
    out
}

/// The scheme that the client used, as a proxy reports it: the first one listed,
/// if it is one of the two.
pub open spec fn forwarded_scheme(headers: HeaderMap) -> Seq<char> {
    match text_of(headers, "x-forwarded-proto"@) {
        Some(s) => if first_part(s) == "https"@ {
            "https"@
        } else {
            "http"@
        },
        None => "http"@,
    }
}

/// The host that the client asked for.
pub open spec fn requested_host(headers: HeaderMap) -> Seq<char> {
    match text_of(headers, "host"@) {
        Some(s) => s,
        None => "localhost:3000"@,
    }
}

/// The URL under which the client reaches the service: the configured one, or
/// else the one that the client used.
pub open spec fn public_url(configured: Option<Seq<char>>, headers: HeaderMap) -> Seq<char> {
    match configured {
        Some(url) => url,
        None => forwarded_scheme(headers) + "://"@ + requested_host(headers),
    }
}

/// Finds the URL under which the client reaches the service.
pub fn base_url(configured: &Option<String>, headers: &HeaderMap) -> (r: String)
    ensures
        r@ == public_url(configured.deep_view(), *headers),
{
    if let Some(base) = configured {
        return base.clone();
    }
    proof {
        reveal_strlit("x-forwarded-proto");
        reveal_strlit("host");
    }
    let mut secure: bool = false;
    if let Some(s) = header_text(headers, "x-forwarded-proto") {
        secure = before_comma(s) == "https".to_string();
    }
    let mut out = if secure {
        "https".to_string()
    } else {
        "http".to_string()
    };
    out.append("://");
    match header_text(headers, "host") {
        Some(host) => out.append(host),
        None => out.append("localhost:3000"),
    }
    out
}

/// Makes a header value of a text.
pub fn header_value(value: &str) -> (r: ApiResult<HeaderValue>)
    ensures
        match r {
            Ok(v) => {
                &&& all_allowed(vstd::utf8::encode_utf8(value@))
                &&& value_bytes(v) == vstd::utf8::encode_utf8(value@)
            },
            Err(e) => {
                &&& !all_allowed(vstd::utf8::encode_utf8(value@))
                &&& e.says(StatusCode::InternalServerError, "invalid response header"@)
            },
        },
{
    match HeaderValue::from_str(value) {
        Ok(v) => Ok(v),
        Err(_) => Err(
            ApiError::new(StatusCode::InternalServerError, "invalid response header"),
        ),
    }
}

/// What tells a client to save a download under a name.
pub open spec fn disposition(name: Seq<char>) -> Seq<char> {
    "attachment; filename=\""@ + name + "\""@
}

/// Whether a file of this type and name can be announced in a response.
pub open spec fn can_announce(content_type: Seq<char>, name: Seq<char>) -> bool {
    &&& all_allowed(vstd::utf8::encode_utf8(content_type))
    &&& all_allowed(vstd::utf8::encode_utf8(disposition(name)))
}

/// The headers of the response that serves a download.
pub fn download_headers(ticket: &DownloadTicket) -> (r: ApiResult<HeaderMap>)
    ensures
        match r {
            Ok(headers) => {
                &&& can_announce(ticket.content_type@, ticket.name@)
                &&& header_lines(headers).dom() == set!["content-type"@, "content-disposition"@]
                &&& header_lines(headers)["content-type"@] == vstd::utf8::encode_utf8(
                    ticket.content_type@,
                )
                &&& header_lines(headers)["content-disposition"@] == vstd::utf8::encode_utf8(
                    disposition(ticket.name@),
                )
            },
            Err(e) => {
                &&& !can_announce(ticket.content_type@, ticket.name@)
                &&& e.says(StatusCode::InternalServerError, "invalid response header"@)
            },
        },
{
    proof {
        reveal_strlit("content-type");
        reveal_strlit("content-disposition");
    }
    let mut headers = no_headers();
    let content_type = header_value(ticket.content_type.as_str())?;
    insert(&mut headers, "content-type", content_type);
    let mut text = "attachment; filename=\"".to_string();
    text.append(ticket.name.as_str());
    text.append("\"");
    let disposition = header_value(text.as_str())?;
    insert(&mut headers, "content-disposition", disposition);
    proof {
        assert("content-type"@.len() != "content-disposition"@.len());
        assert(header_lines(headers).dom() =~= set!["content-type"@, "content-disposition"@]);
    }
    Ok(headers)
}

proof fn lemma_plain_part(s: Seq<char>)
    ensures
        forall|i: int| 0 <= i < plain_part(s).len() ==> is_plain(#[trigger] plain_part(s)[i]),
    decreases s.len(),
{
    if s.len() > 0 {
        lemma_plain_part(s.drop_last());
        let before = plain_part(s.drop_last());
        assert forall|i: int| 0 <= i < plain_part(s).len() implies is_plain(
            #[trigger] plain_part(s)[i],
        ) by {
            if i < before.len() {
                assert(plain_part(s)[i] == before[i]);
            }
        }
    }
}

/// A file's name has from 1 to 120 characters, all of them plain.
pub proof fn law_names_are_plain(raw: Seq<char>)
    ensures
        0 < cleaned_name(raw).len() <= 120,
        forall|i: int| 0 <= i < cleaned_name(raw).len() ==> is_plain(#[trigger] cleaned_name(raw)[i]),
{
    reveal_strlit("download");
    lemma_plain_part(raw);
    let kept = first_chars(plain_part(raw), NAME_LENGTH as int);
    assert forall|i: int| 0 <= i < kept.len() implies is_plain(#[trigger] kept[i]) by {
        assert(kept[i] == plain_part(raw)[i]);
    }
}

proof fn lemma_plain_part_of_plain(s: Seq<char>)
    requires
        forall|i: int| 0 <= i < s.len() ==> is_plain(#[trigger] s[i]),
    ensures
        plain_part(s) == s,
    decreases s.len(),
{
    if s.len() > 0 {
        assert forall|i: int| 0 <= i < s.drop_last().len() implies is_plain(
            #[trigger] s.drop_last()[i],
        ) by {
            assert(s.drop_last()[i] == s[i]);
        }
        lemma_plain_part_of_plain(s.drop_last());
        assert(s.drop_last().push(s.last()) =~= s);
    }
}

/// A name that is plain and not too long is kept as it is.
pub proof fn law_plain_names_are_kept(s: Seq<char>)
    requires
        0 < s.len() <= 120,
        forall|i: int| 0 <= i < s.len() ==> is_plain(#[trigger] s[i]),
    ensures
        cleaned_name(s) == s,
{
    lemma_plain_part_of_plain(s);
}

/// Whether all characters of a text are ASCII and none is a control character.
pub open spec fn is_printable(s: Seq<char>) -> bool {
    forall|i: int| 0 <= i < s.len() ==> ' ' <= #[trigger] s[i] <= '~'
}

proof fn lemma_printable_is_allowed(s: Seq<char>)
    requires
        is_printable(s),
    ensures
        all_allowed(vstd::utf8::encode_utf8(s)),
{
    assert(vstd::utf8::is_ascii_chars(s)) by {
        assert forall|i: int| 0 <= i < s.len() implies '\0' <= #[trigger] s[i] <= '\u{7f}' by {
            assert(' ' <= s[i] <= '~');
        }
    }
    vstd::utf8::is_ascii_chars_encode_utf8(s);
    let bytes = vstd::utf8::encode_utf8(s);
    assert forall|i: int| 0 <= i < bytes.len() implies is_allowed(#[trigger] bytes[i]) by {
        assert(bytes[i] == s[i] as u8);
        assert(' ' <= s[i] <= '~');
    }
}

/// What is recorded of an upload can be announced when it is downloaded: with the
/// content type and the name that are taken from a request, the response's headers
/// can always be made.
pub proof fn law_uploads_can_be_announced(headers: HeaderMap, fallback: Seq<char>)
    ensures
        can_announce(given_content_type(headers), given_name(headers, fallback)),
{
    reveal_strlit("application/octet-stream");
    reveal_strlit("attachment; filename=\"");
    reveal_strlit("\"");
    let content_type = given_content_type(headers);
    assert(is_printable(content_type)) by {
        if let Some(s) = text_of(headers, "content-type"@) {
            let bytes = header_lines(headers)["content-type"@];
            if s.len() < 128 && !has_control(s) {
                assert forall|i: int| 0 <= i < s.len() implies ' ' <= #[trigger] s[i]
                    <= '~' by {
                    assert(is_visible(bytes[i]));
                    assert(s[i] == bytes[i] as char);
                    assert(!is_control(s[i]));
                }
            }
        }
    }
    lemma_printable_is_allowed(content_type);
    let raw = match text_of(headers, "x-filename"@) {
        Some(s) => s,
        None => fallback,
    };
    let name = cleaned_name(raw);
    law_names_are_plain(raw);
    let text = disposition(name);
    let (before, after) = ("attachment; filename=\""@, "\""@);
    assert forall|i: int| 0 <= i < text.len() implies ' ' <= #[trigger] text[i] <= '~' by {
        if i < before.len() {
            assert(text[i] == before[i]);
        } else if i < before.len() + name.len() {
            assert(text[i] == name[i - before.len()]);
            assert(is_plain(name[i - before.len()]));
        } else {
            assert(text[i] == after[i - before.len() - name.len()]);
        }
    }
    lemma_printable_is_allowed(text);
}

} // verus!
