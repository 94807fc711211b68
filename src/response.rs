use crate::error::Error;
use vstd::prelude::*;

verus! {

/// A header byte that may stand in a header value read as text: visible
/// ASCII or a horizontal tab.
pub open spec fn is_visible_ascii(b: u8) -> bool {
    (32 <= b && b < 127) || b == 9
}

/// The header value can be read as text.
pub open spec fn header_is_text(value: Seq<u8>) -> bool {
    forall|i: int| 0 <= i < value.len() ==> is_visible_ascii(#[trigger] value[i])
}

/// The (type, subtype) pair that the media-type parser reads from a header
/// value, or `None` where it rejects the value.
pub uninterp spec fn media_type_of(value: Seq<u8>) -> Option<(Seq<char>, Seq<char>)>;

/// The media type of an event stream: `text/event-stream`.
pub open spec fn text_event_stream() -> (Seq<char>, Seq<char>) {
    (seq!['t', 'e', 'x', 't'], seq!['e', 'v', 'e', 'n', 't', '-', 's', 't', 'r', 'e', 'a', 'm'])
}

/// A content-type header value that announces an event stream: it reads as
/// text and parses to type `text`, subtype `event-stream` (parameters ignored).
pub open spec fn accepts_content_type(value: Seq<u8>) -> bool {
    header_is_text(value) && media_type_of(value) == Some(text_event_stream())
}

/// Whether a response with this status and content-type header is accepted.
pub open spec fn accepts_response(status: u16, content_type: Option<Seq<u8>>) -> bool {
    status == 200 && match content_type {
        Some(v) => accepts_content_type(v),
        None => false,
    }
}

/// Relies on mime's `FromStr for Mime`: parses a media type; its `type_()` and
/// `subtype()` are the lower-cased type and subtype, without suffix or parameters.
#[verifier::external_body]
fn parse_media_type(value: &[u8]) -> (r: Option<(String, String)>)
    requires
        header_is_text(value@),
    ensures
        match r {
            Some(p) => media_type_of(value@) == Some((p.0@, p.1@)),
            None => media_type_of(value@) is None,
        },
{
    match std::str::from_utf8(value) {
        Ok(text) => match text.parse::<mime::Mime>() {
            Ok(m) => Some((m.type_().as_str().to_owned(), m.subtype().as_str().to_owned())),
            Err(_) => None,
        },
        Err(_) => None,
    }
}

fn same_chars(a: &str, b: &str) -> (r: bool)
    ensures
        r == (a@ == b@),
{
    let n = a.unicode_len();
    if n != b.unicode_len() {
        return false;
    }
    let mut i: usize = 0;
    while i < n
        invariant
            n == a@.len(),
            n == b@.len(),
            i <= n,
            forall|j: int| 0 <= j < i ==> a@[j] == b@[j],
        decreases n - i,
    {
        if a.get_char(i) != b.get_char(i) {
            return false;
        }
        i = i + 1;
    }
    assert(a@ =~= b@);
    true
}

/// Whether every byte of a header value is visible ASCII or a tab, so that it
/// can be read as text.
pub fn content_type_is_text(value: &[u8]) -> (r: bool)
    ensures
        r == header_is_text(value@),
{
    let mut i: usize = 0;
    while i < value.len()
        invariant
            i <= value@.len(),
            forall|j: int| 0 <= j < i ==> is_visible_ascii(#[trigger] value@[j]),
        decreases value@.len() - i,
    {
        let b = value[i];
        if !((32 <= b && b < 127) || b == 9) {
            return false;
        }
        i = i + 1;
    }
    true
}

/// Whether a parsed (type, subtype) pair is `text/event-stream`.
pub fn is_event_stream(media_type: &Option<(String, String)>) -> (r: bool)
    ensures
        r == match media_type {
            Some(p) => (p.0@, p.1@) == text_event_stream(),
            None => false,
        },
{
    match media_type {
        Some(p) => {
            proof {
                reveal_strlit("text");
                reveal_strlit("event-stream");
                assert("text"@ =~= text_event_stream().0);
                assert("event-stream"@ =~= text_event_stream().1);
            }
            let r = same_chars(p.0.as_str(), "text") && same_chars(p.1.as_str(), "event-stream");
            assert(r == ((p.0@, p.1@) == text_event_stream()));
            r
        },
        None => false,
    }
}

/// Checks a response before its body is taken as an event stream: the status
/// must be exactly 200, and the content type must be present, read as text and
/// be `text/event-stream`.
pub fn check_response<T>(status: u16, content_type: Option<Vec<u8>>) -> (r: Result<(), Error<T>>)
    ensures
        r is Ok <==> accepts_response(
            status,
            match content_type {
                Some(v) => Some(v@),
                None => None,
            },
        ),
        status != 200 ==> (r matches Err(Error::<T>::InvalidStatusCode(c)) && c == status),
        status == 200 && content_type is None ==> (r matches Err(Error::InvalidContentType(v))
            && v@.len() == 0),
        status == 200 && r is Err ==> match content_type {
            Some(v) => (r matches Err(Error::InvalidContentType(w)) && w@ == v@),
            None => true,
        },
{
    if status != 200 {
        return Err(Error::InvalidStatusCode(status));
    }
    match content_type {
        None => Err(Error::InvalidContentType(Vec::new())),
        Some(value) => {
            if !content_type_is_text(value.as_slice()) {
                return Err(Error::InvalidContentType(value));
            }
            let media_type = parse_media_type(value.as_slice());
            if is_event_stream(&media_type) {
                Ok(())
            } else {
                Err(Error::InvalidContentType(value))
            }
        },
    }
}

} // verus!
