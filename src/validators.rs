use vstd::prelude::*;
use vstd::string::*;

verus! {

/// First second that the HTTP date format cannot express (the year 10000).
pub const HTTP_DATE_END: u64 = 253402300800;

/// Text of `httpdate::fmt_http_date` for the given seconds since the epoch.
pub uninterp spec fn http_date_text(secs: u64) -> Seq<char>;

/// Seconds since the epoch that `httpdate::parse_http_date` reads from the
/// text, or `None` where it refuses the text.
pub uninterp spec fn http_date_seconds(text: Seq<char>) -> Option<u64>;

/// Relies on `httpdate::fmt_http_date`: it writes the instant as a 29-byte
/// IMF-fixdate (`Fri, 15 May 2015 15:34:21 GMT`), which `parse_http_date`
/// reads back to the same second. It panics from the year 10000 on.
#[verifier::external_body]
fn format_http_date(secs: u64) -> (r: String)
    requires
        secs < HTTP_DATE_END,
    ensures
        r@ == http_date_text(secs),
        r@.len() == 29,
        http_date_seconds(r@) == Some(secs),
{
    httpdate::fmt_http_date(std::time::UNIX_EPOCH + std::time::Duration::from_secs(secs))
}

/// Relies on `httpdate::parse_http_date`, which accepts IMF-fixdate, RFC 850
/// and asctime dates between 1970 and 9999; the instant is turned into whole
/// seconds since the epoch.
#[verifier::external_body]
fn parse_http_date_secs(text: &str) -> (r: Option<u64>)
    ensures
        r == http_date_seconds(text@),
{
    match httpdate::parse_http_date(text) {
        Ok(t) => match t.duration_since(std::time::UNIX_EPOCH) {
            Ok(d) => Some(d.as_secs()),
            Err(_) => None,
        },
        Err(_) => None,
    }
}

/// A request header: name and value.
pub struct HeaderField {
    pub name: String,
    pub value: String,
}

impl View for HeaderField {
    type V = (Seq<char>, Seq<char>);

    open spec fn view(&self) -> (Seq<char>, Seq<char>) {
        (self.name@, self.value@)
    }
}

/// A response header. `value` is `None` where the raw value is not visible
/// text.
pub struct ResponseHeader {
    pub name: String,
    pub value: Option<String>,
}

impl View for ResponseHeader {
    type V = (Seq<char>, Option<Seq<char>>);

    open spec fn view(&self) -> (Seq<char>, Option<Seq<char>>) {
        (
            self.name@,
            match self.value {
                Some(v) => Some(v@),
                None => None,
            },
        )
    }
}

/// The validators that a response leaves: last-modified seconds and entity tag.
pub struct Validators {
    pub last_modified: u64,
    pub etag: String,
}

/// The request headers as name and value pairs.
pub open spec fn header_views(s: Seq<HeaderField>) -> Seq<(Seq<char>, Seq<char>)> {
    s.map_values(|h: HeaderField| h@)
}

/// The response headers as name and optional value pairs.
pub open spec fn response_header_views(s: Seq<ResponseHeader>) -> Seq<
    (Seq<char>, Option<Seq<char>>),
> {
    s.map_values(|h: ResponseHeader| h@)
}

pub open spec fn if_modified_since_name() -> Seq<char> {
    "If-Modified-Since"@
}

pub open spec fn if_none_match_name() -> Seq<char> {
    "If-None-Match"@
}

/// The conditional headers for stored validators: `If-Modified-Since` when a
/// timestamp is known, then `If-None-Match` with the raw tag when one is known.
pub open spec fn conditional_headers(last_modified: u64, etag: Seq<char>) -> Seq<
    (Seq<char>, Seq<char>),
> {
    let a = if last_modified > 0 {
        seq![(if_modified_since_name(), http_date_text(last_modified))]
    } else {
        Seq::empty()
    };
    let b = if etag.len() > 0 {
        seq![(if_none_match_name(), etag)]
    } else {
        Seq::empty()
    };
    a + b
}

/// With no stored validators a request carries no conditional header.
pub proof fn lemma_no_validators_no_conditional_headers(etag: Seq<char>)
    requires
        etag.len() == 0,
    ensures
        conditional_headers(0, etag).len() == 0,
{
}

/// The conditional request headers for the stored validators.
pub fn build_request_headers(last_modified: u64, etag: &str) -> (r: Vec<HeaderField>)
    requires
        last_modified < HTTP_DATE_END,
    ensures
        header_views(r@) == conditional_headers(last_modified, etag@),
        last_modified == 0 && etag@.len() == 0 ==> r@.len() == 0,
        last_modified > 0 ==> r@.len() > 0 && r@[0].name@ == if_modified_since_name()
            && http_date_seconds(r@[0].value@) == Some(last_modified),
{
    let mut r: Vec<HeaderField> = Vec::new();
    if last_modified > 0 {
        let value = format_http_date(last_modified);
        r.push(HeaderField { name: "If-Modified-Since".to_owned(), value });
    }
    if !etag.is_empty() {
        r.push(HeaderField { name: "If-None-Match".to_owned(), value: etag.to_owned() });
    }
    assert(header_views(r@) =~= conditional_headers(last_modified, etag@));
    r
}

/// The text that stands for "the response carried no entity tag".
pub open spec fn no_etag() -> Seq<char> {
    "[[NO_ETAG]]"@
}

/// ASCII letters folded to lower case, as code points.
pub open spec fn ascii_folded(c: char) -> int {
    if 65 <= (c as u32) && (c as u32) <= 90 {
        (c as u32) as int + 32
    } else {
        (c as u32) as int
    }
}

/// Header names compare equal without regard to ASCII case.
pub open spec fn header_name_is(name: Seq<char>, target: Seq<char>) -> bool {
    &&& name.len() == target.len()
    &&& forall|i: int| 0 <= i < name.len() ==> ascii_folded(#[trigger] name[i]) == ascii_folded(target[i])
}

/// The validators after one more response header: a non-empty `Last-Modified`
/// that parses replaces the timestamp, a non-empty `ETag` replaces the tag.
pub open spec fn apply_header(v: (u64, Seq<char>), h: (Seq<char>, Option<Seq<char>>)) -> (u64, Seq<char>) {
    match h.1 {
        Some(val) => if val.len() > 0 {
            let lm = if header_name_is(h.0, "last-modified"@) {
                match http_date_seconds(val) {
                    Some(t) => t,
                    None => v.0,
                }
            } else {
                v.0
            };
            let et = if header_name_is(h.0, "etag"@) {
                val
            } else {
                v.1
            };
            (lm, et)
        } else {
            v
        },
        None => v,
    }
}

/// The tag kept when a response names none: the stored one, or the no-tag
/// marker where none is stored.
pub open spec fn inherited_etag(previous_etag: Seq<char>) -> Seq<char> {
    if previous_etag.len() > 0 {
        previous_etag
    } else {
        no_etag()
    }
}

/// The validators read from the response headers in order, starting from the
/// previous timestamp and the inherited tag.
pub open spec fn validators_of(
    headers: Seq<(Seq<char>, Option<Seq<char>>)>,
    previous_last_modified: u64,
    previous_etag: Seq<char>,
) -> (u64, Seq<char>)
    decreases headers.len(),
{
    if headers.len() == 0 {
        (previous_last_modified, inherited_etag(previous_etag))
    } else {
        apply_header(
            validators_of(headers.drop_last(), previous_last_modified, previous_etag),
            headers.last(),
        )
    }
}

/// With no validator headers, a response leaves the stored validators
/// unchanged, a missing stored tag shown by the no-tag marker.
pub proof fn lemma_validators_inherited(
    headers: Seq<(Seq<char>, Option<Seq<char>>)>,
    previous_last_modified: u64,
    previous_etag: Seq<char>,
)
    requires
        forall|i: int|
            0 <= i < headers.len() ==> !header_name_is(#[trigger] headers[i].0, "last-modified"@)
                && !header_name_is(headers[i].0, "etag"@),
    ensures
        validators_of(headers, previous_last_modified, previous_etag) == (
            previous_last_modified,
            inherited_etag(previous_etag),
        ),
    decreases headers.len(),
{
    if headers.len() > 0 {
        let front = headers.drop_last();
        assert forall|i: int| 0 <= i < front.len() implies !header_name_is(
            #[trigger] front[i].0,
            "last-modified"@,
        ) && !header_name_is(front[i].0, "etag"@) by {
            assert(front[i] == headers[i]);
        }
        lemma_validators_inherited(front, previous_last_modified, previous_etag);
        assert(headers.last() == headers[headers.len() - 1]);
    }
}

fn ascii_fold(c: char) -> (r: u32)
    ensures
        r as int == ascii_folded(c),
{
    let u = c as u32;
    if 65 <= u && u <= 90 {
        u + 32
    } else {
        u
    }
}

fn name_is(name: &str, target: &str) -> (r: bool)
    ensures
        r == header_name_is(name@, target@),
{
    let n = name.unicode_len();
    if n != target.unicode_len() {
        return false;
    }
    let mut i: usize = 0;
    while i < n
        invariant
            n == name@.len(),
            n == target@.len(),
            i <= n,
            forall|j: int| 0 <= j < i ==> ascii_folded(#[trigger] name@[j]) == ascii_folded(target@[j]),
        decreases n - i,
    {
        if ascii_fold(name.get_char(i)) != ascii_fold(target.get_char(i)) {
            return false;
        }
        i = i + 1;
    }
    true
}

/// Reads `Last-Modified` and `ETag` from response headers, names compared
/// without regard to case, starting from the stored validators. A date that
/// does not parse leaves the previous timestamp; without a non-empty tag the
/// stored tag stays, or the no-tag marker where none is stored.
pub fn parse_response_validators(
    headers: &Vec<ResponseHeader>,
    previous_last_modified: u64,
    previous_etag: &str,
) -> (r: Validators)
    ensures
        (r.last_modified, r.etag@) == validators_of(
            response_header_views(headers@),
            previous_last_modified,
            previous_etag@,
        ),
{
    let ghost views = response_header_views(headers@);
    let mut last_modified = previous_last_modified;
    let mut etag = if previous_etag.is_empty() {
        "[[NO_ETAG]]".to_owned()
    } else {
        previous_etag.to_owned()
    };
    let mut i: usize = 0;
    while i < headers.len()
        invariant
            views == response_header_views(headers@),
            i <= headers@.len(),
            (last_modified, etag@) == validators_of(views.take(i as int), previous_last_modified, previous_etag@),
        decreases headers@.len() - i,
    {
        let h = &headers[i];
        assert(views.take(i + 1).drop_last() =~= views.take(i as int));
        match &h.value {
            Some(v) => {
                if !v.as_str().is_empty() {
                    if name_is(h.name.as_str(), "last-modified") {
                        match parse_http_date_secs(v.as_str()) {
                            Some(t) => {
                                last_modified = t;
                            },
                            None => {},
                        }
                    }
                    if name_is(h.name.as_str(), "etag") {
                        etag = v.clone();
                    }
                }
            },
            None => {},
        }
        i = i + 1;
    }
    assert(views.take(headers@.len() as int) =~= views);
    Validators { last_modified, etag }
}

} // verus!
