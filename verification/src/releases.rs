//! The remote version source: the release listing and what it says.
//!
//! The listing is a JSON array of release objects, newest first. It is not
//! parsed as JSON: the text is scanned from left to right for tag fields,
//! and the first tag that names a stable release of the adapter gives the
//! version.

use crate::text::{
    chars_of, contains, find, find_from, includes, leading_white_space, lemma_find_from, matches_at,
    occurs_at, starts_with, trim_start_of,
};
use vstd::prelude::*;
use vstd::slice::slice_subrange;
use vstd::utf8::{decode_utf8, encode_utf8, valid_utf8};

verus! {

/// The repository that publishes the adapter's releases.
pub const GITHUB_REPO: &'static str = "vulnera-rs/adapter";

/// The field that holds a release's tag.
pub const TAG_KEY: &'static str = "\"tag_name\":";

/// The character that opens and closes a string value.
pub const QUOTE: &'static str = "\"";

/// The text between two release objects of the listing.
pub const OBJECT_SEPARATOR: &'static str = "},{";

/// The prefix of the tags of the adapter's releases.
pub const TAG_PREFIX: &'static str = "adapter-v";

/// The text that marks a release as a prerelease.
pub const PRERELEASE_MARKER: &'static str = "\"prerelease\":true";

/// The text that marks a release as a draft.
pub const DRAFT_MARKER: &'static str = "\"draft\":true";

/// A tag field of the listing: the tag, and the text of the release object
/// from the field on.
pub struct TagField {
    pub tag: Seq<char>,
    pub object: Seq<char>,
}

/// The tag field whose key stands at `at`: the tag is the next quoted
/// string after the key, and the object ends before the next object
/// separator, or with the text. `None` if no quoted string follows the key.
pub open spec fn tag_field_at(json: Seq<char>, at: int) -> Option<TagField> {
    match find_from(json, QUOTE@, at + TAG_KEY@.len()) {
        None => None,
        Some(open) => match find_from(json, QUOTE@, open + 1) {
            None => None,
            Some(close) => Some(
                TagField {
                    tag: json.subrange(open + 1, close),
                    object: json.subrange(
                        at,
                        match find_from(json, OBJECT_SEPARATOR@, at) {
                            Some(end) => end,
                            None => json.len() as int,
                        },
                    ),
                },
            ),
        },
    }
}

/// The version that a tag field announces: what follows the prefix in the
/// tag, if the tag begins with the prefix, the object holds neither the
/// prerelease nor the draft marker, and something follows the prefix. The
/// prefix is taken away once.
pub open spec fn stable_version(field: TagField) -> Option<Seq<char>> {
    if starts_with(field.tag, TAG_PREFIX@) && !contains(field.object, PRERELEASE_MARKER@)
        && !contains(field.object, DRAFT_MARKER@) && field.tag.len() > TAG_PREFIX@.len() {
        Some(field.tag.skip(TAG_PREFIX@.len() as int))
    } else {
        None
    }
}

/// The version of the first tag field at or after `from` that announces
/// one. The scan goes on behind the key of a field that announces none, and
/// ends where a key is followed by no quoted string.
pub open spec fn scan_from(json: Seq<char>, from: int) -> Option<Seq<char>>
    decreases json.len() - from,
{
    if from < 0 {
        None
    } else {
        match find_from(json, TAG_KEY@, from) {
            None => None,
            Some(at) => match tag_field_at(json, at) {
                None => None,
                Some(field) => match stable_version(field) {
                    Some(version) => Some(version),
                    None => {
                        proof {
                            reveal_strlit("\"tag_name\":");
                            lemma_find_from(json, TAG_KEY@, from);
                        }
                        scan_from(json, at + TAG_KEY@.len())
                    },
                },
            },
        }
    }
}

/// The newest stable version that the listing `json` names.
pub open spec fn latest_stable_version(json: Seq<char>) -> Option<Seq<char>> {
    scan_from(json, 0)
}

/// The version that the tag field at `at` announces, if there is a tag
/// field that announces one.
pub open spec fn announced(json: Seq<char>, at: int) -> Option<Seq<char>> {
    if occurs_at(json, TAG_KEY@, at) {
        match tag_field_at(json, at) {
            Some(field) => stable_version(field),
            None => None,
        }
    } else {
        None
    }
}

/// The tag field at `at` announces `version`, and no tag field from `from`
/// up to `at` announces any.
pub open spec fn announces_first(json: Seq<char>, from: int, at: int, version: Seq<char>) -> bool {
    &&& from <= at
    &&& announced(json, at) == Some(version)
    &&& forall|b: int| from <= b < at ==> #[trigger] announced(json, b) is None
}

/// The key of the tag field begins with a quote, holds one other quote,
/// and a quote is one character.
proof fn lemma_key_shape()
    ensures
        TAG_KEY@.len() == 11,
        QUOTE@.len() == 1,
        forall|k: int| 0 <= k < 11 ==> (#[trigger] TAG_KEY@[k] == QUOTE@[0] <==> k == 0 || k == 9),
        TAG_KEY@[1] != TAG_KEY@[10],
{
    reveal_strlit("\"tag_name\":");
    reveal_strlit("\"");
}

/// Where the key stands, its characters stand.
proof fn lemma_key_characters(json: Seq<char>, at: int, k: int)
    requires
        occurs_at(json, TAG_KEY@, at),
        0 <= k < TAG_KEY@.len(),
    ensures
        json[at + k] == TAG_KEY@[k],
{
    assert(json.subrange(at, at + TAG_KEY@.len())[k] == TAG_KEY@[k]);
}

/// A quote stands where the character is a quote.
proof fn lemma_quote_stands(json: Seq<char>, i: int)
    requires
        0 <= i < json.len(),
        json[i] == QUOTE@[0],
    ensures
        occurs_at(json, QUOTE@, i),
{
    lemma_key_shape();
    assert(json.subrange(i, i + 1) =~= QUOTE@);
}

/// Two keys do not overlap: behind a key, the next one begins no earlier
/// than where the first ends.
proof fn lemma_keys_do_not_overlap(json: Seq<char>, a: int, b: int)
    requires
        occurs_at(json, TAG_KEY@, a),
        occurs_at(json, TAG_KEY@, b),
        a < b,
    ensures
        a + TAG_KEY@.len() <= b,
{
    lemma_key_shape();
    let k = b - a;
    if k < 11 {
        lemma_key_characters(json, b, 0);
        lemma_key_characters(json, a, k);
        assert(TAG_KEY@[k] == QUOTE@[0]);
        assert(k == 9);
        lemma_key_characters(json, b, 1);
        lemma_key_characters(json, a, 10);
    }
}

/// Behind a key that no quoted string follows there is no other key.
proof fn lemma_no_key_behind_open_field(json: Seq<char>, at: int, b: int)
    requires
        occurs_at(json, TAG_KEY@, at),
        tag_field_at(json, at) is None,
        at < b,
    ensures
        !occurs_at(json, TAG_KEY@, b),
{
    if occurs_at(json, TAG_KEY@, b) {
        lemma_key_shape();
        lemma_keys_do_not_overlap(json, at, b);
        lemma_key_characters(json, b, 0);
        lemma_key_characters(json, b, 9);
        lemma_quote_stands(json, b);
        lemma_quote_stands(json, b + 9);
        lemma_find_from(json, QUOTE@, at + TAG_KEY@.len());
        match find_from(json, QUOTE@, at + TAG_KEY@.len()) {
            None => {},
            Some(open) => {
                lemma_find_from(json, QUOTE@, open + 1);
            },
        }
    }
}

/// The scan gives what the first tag field that announces a version
/// announces, and nothing where no tag field announces one: the listing is
/// newest first, and the newest stable release wins.
pub proof fn lemma_scan_gives_first_announcement(json: Seq<char>, from: int)
    requires
        0 <= from,
    ensures
        match scan_from(json, from) {
            Some(version) => exists|at: int| announces_first(json, from, at, version),
            None => forall|b: int| from <= b ==> #[trigger] announced(json, b) is None,
        },
    decreases json.len() - from,
{
    lemma_key_shape();
    lemma_find_from(json, TAG_KEY@, from);
    match find_from(json, TAG_KEY@, from) {
        None => {},
        Some(at) => {
            match tag_field_at(json, at) {
                None => {
                    assert forall|b: int| from <= b implies #[trigger] announced(json, b)
                        is None by {
                        if at < b {
                            lemma_no_key_behind_open_field(json, at, b);
                        }
                    }
                },
                Some(field) => match stable_version(field) {
                    Some(version) => {
                        assert(announces_first(json, from, at, version));
                    },
                    None => {
                        let next = at + TAG_KEY@.len();
                        lemma_scan_gives_first_announcement(json, next);
                        assert forall|b: int| from <= b < next implies #[trigger] announced(
                            json,
                            b,
                        ) is None by {
                            if at < b && occurs_at(json, TAG_KEY@, b) {
                                lemma_keys_do_not_overlap(json, at, b);
                            }
                        }
                        match scan_from(json, next) {
                            Some(version) => {
                                let found = choose|found: int|
                                    announces_first(json, next, found, version);
                                assert(announces_first(json, from, found, version));
                            },
                            None => {},
                        }
                    },
                },
            }
        },
    }
}

/// The bounds, in `json`, of the newest stable version that it names.
fn scan(json: &[char]) -> (r: Option<(usize, usize)>)
    ensures
        match r {
            Some((start, end)) => {
                &&& start <= end <= json@.len()
                &&& latest_stable_version(json@) == Some(json@.subrange(start as int, end as int))
            },
            None => latest_stable_version(json@) is None,
        },
{
    let key = chars_of(TAG_KEY);
    let quote = chars_of(QUOTE);
    let separator = chars_of(OBJECT_SEPARATOR);
    let prefix = chars_of(TAG_PREFIX);
    let prerelease = chars_of(PRERELEASE_MARKER);
    let draft = chars_of(DRAFT_MARKER);
    proof {
        reveal_strlit("\"tag_name\":");
        reveal_strlit("\"");
    }
    let len = json.len();
    let mut from: usize = 0;
    loop
        invariant
            from <= json@.len() == len,
            key@ == TAG_KEY@,
            quote@ == QUOTE@,
            separator@ == OBJECT_SEPARATOR@,
            prefix@ == TAG_PREFIX@,
            prerelease@ == PRERELEASE_MARKER@,
            draft@ == DRAFT_MARKER@,
            key@.len() == 11,
            quote@.len() == 1,
            scan_from(json@, from as int) == latest_stable_version(json@),
        decreases json@.len() - from,
    {
        proof {
            lemma_find_from(json@, key@, from as int);
        }
        let at = match find(json, key.as_slice(), from) {
            Some(at) => at,
            None => { return None; },
        };
        let after = at + key.len();
        proof {
            lemma_find_from(json@, quote@, after as int);
        }
        let open = match find(json, quote.as_slice(), after) {
            Some(open) => open,
            None => { return None; },
        };
        proof {
            lemma_find_from(json@, quote@, open + 1);
        }
        let close = match find(json, quote.as_slice(), open + 1) {
            Some(close) => close,
            None => { return None; },
        };
        proof {
            lemma_find_from(json@, separator@, at as int);
        }
        let end = match find(json, separator.as_slice(), at) {
            Some(end) => end,
            None => len,
        };
        let tag = slice_subrange(json, open + 1, close);
        let object = slice_subrange(json, at, end);
        if matches_at(tag, prefix.as_slice(), 0) && !includes(object, prerelease.as_slice()) && !includes(
            object,
            draft.as_slice(),
        ) {
            let start = open + 1 + prefix.len();
            if start < close {
                assert(tag@.skip(prefix@.len() as int) == json@.subrange(
                    start as int,
                    close as int,
                ));
                return Some((start, close));
            }
        }
        from = after;
    }
}

/// Extracts the newest stable version from the text of a release listing.
pub fn parse_latest_stable_version(json: &str) -> (r: Option<String>)
    ensures
        r.deep_view() == latest_stable_version(json@),
{
    let chars = chars_of(json);
    match scan(chars.as_slice()) {
        Some((start, end)) => Some(json.substring_char(start, end).to_owned()),
        None => None,
    }
}

/// The method of a request.
#[derive(Clone, Copy, Debug, PartialEq, Eq, Structural)]
pub enum Method {
    Get,
    Head,
    Post,
    Put,
    Delete,
    Options,
    Patch,
}

/// The request for the release listing.
#[derive(Clone, Debug, PartialEq, Eq)]
pub struct ListingRequest {
    /// The method of the request.
    pub method: Method,
    /// The address of the listing.
    pub url: String,
    /// The header fields, each a name and a value.
    pub headers: Vec<(String, String)>,
    /// The body of the request, if it has one.
    pub body: Option<Vec<u8>>,
    /// Whether every redirect is followed.
    pub follow_redirects: bool,
}

/// The model of a `ListingRequest`.
pub struct Listing {
    pub method: Method,
    pub url: Seq<char>,
    pub headers: Seq<(Seq<char>, Seq<char>)>,
    pub body: Option<Seq<u8>>,
    pub follow_redirects: bool,
}

impl View for ListingRequest {
    type V = Listing;

    open spec fn view(&self) -> Listing {
        Listing {
            method: self.method,
            url: self.url@,
            headers: self.headers.deep_view(),
            body: self.body.deep_view(),
            follow_redirects: self.follow_redirects,
        }
    }
}

impl DeepView for ListingRequest {
    type V = Listing;

    open spec fn deep_view(&self) -> Listing {
        self.view()
    }
}

/// The address of the release listing.
pub open spec fn listing_url() -> Seq<char> {
    "https://api.github.com/repos/"@ + GITHUB_REPO@ + "/releases"@
}

/// The header fields of the request: who asks, and what answer is
/// accepted.
pub open spec fn listing_headers() -> Seq<(Seq<char>, Seq<char>)> {
    seq![
        ("User-Agent"@, "vulnera-zed-extension"@),
        ("Accept"@, "application/vnd.github+json"@),
    ]
}

/// The request for the release listing: a GET without a body, on which
/// every redirect is followed.
pub open spec fn listing() -> Listing {
    Listing {
        method: Method::Get,
        url: listing_url(),
        headers: listing_headers(),
        body: None,
        follow_redirects: true,
    }
}

/// The one request that is made for the release listing.
pub fn listing_request() -> (r: ListingRequest)
    ensures
        r@ == listing(),
{
    let mut url = String::from_str("https://api.github.com/repos/");
    url.append(GITHUB_REPO);
    url.append("/releases");
    let mut headers: Vec<(String, String)> = Vec::new();
    headers.push(("User-Agent".to_owned(), "vulnera-zed-extension".to_owned()));
    headers.push(("Accept".to_owned(), "application/vnd.github+json".to_owned()));
    assert(headers.deep_view() =~= listing_headers());
    ListingRequest { method: Method::Get, url, headers, body: None, follow_redirects: true }
}

/// The text begins, after white space, with an opening square bracket.
pub open spec fn looks_like_array(text: Seq<char>) -> bool {
    trim_start_of(text).len() > 0 && trim_start_of(text).first() == '['
}

/// The version that the body of an answer names: none unless the body is
/// UTF-8 text that looks like a JSON array.
pub open spec fn body_version(body: Seq<u8>) -> Option<Seq<char>> {
    if valid_utf8(body) && looks_like_array(decode_utf8(body)) {
        latest_stable_version(decode_utf8(body))
    } else {
        None
    }
}

/// The version that an answer names: none where the request failed.
pub open spec fn response_version(response: Option<Seq<u8>>) -> Option<Seq<char>> {
    match response {
        Some(body) => body_version(body),
        None => None,
    }
}

/// `String::from_utf8`: the text that the bytes encode, if they are valid
/// UTF-8, and nothing if they are not.
#[verifier::external_body]
fn text_of_bytes(bytes: Vec<u8>) -> (r: Option<String>)
    ensures
        r is Some <==> valid_utf8(bytes@),
        r matches Some(text) ==> encode_utf8(text@) == bytes@,
{
    match String::from_utf8(bytes) {
        Ok(text) => Some(text),
        Err(_) => None,
    }
}

/// The newest stable version that the body of an answer names.
pub fn version_from_body(body: Vec<u8>) -> (r: Option<String>)
    ensures
        r.deep_view() == body_version(body@),
{
    let ghost bytes = body@;
    let text = match text_of_bytes(body) {
        Some(text) => text,
        None => { return None; },
    };
    proof {
        vstd::utf8::encode_utf8_decode_utf8(text@);
    }
    let chars = chars_of(text.as_str());
    let first = leading_white_space(chars.as_slice());
    if first < chars.len() && chars[first] == '[' {
        match scan(chars.as_slice()) {
            Some((start, end)) => Some(text.as_str().substring_char(start, end).to_owned()),
            None => None,
        }
    } else {
        None
    }
}

/// The newest stable version that an answer names, where `None` stands
/// for a request that failed.
pub fn version_from_response(response: Option<Vec<u8>>) -> (r: Option<String>)
    ensures
        r.deep_view() == response_version(response.deep_view()),
{
    match response {
        Some(body) => {
            assert(body.deep_view() =~= body@);
            version_from_body(body)
        },
        None => None,
    }
}

} // verus!
