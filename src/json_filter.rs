//! The JSON field filter: a payload is parsed as JSON and one value of it is
//! compared with an expected text.
use vstd::prelude::*;
use vstd::utf8::{decode_utf8, valid_utf8};
use crate::data::text_eq;

verus! {

/// The parts of a parsed JSON document that the filter reads. Numbers are held
/// in their canonical text; the members of an array or an object are held in
/// their string form: the content of a string, the compact JSON text of any
/// other value.
#[derive(Debug)]
pub enum JsonDoc {
    Null,
    Bool(bool),
    Number(String),
    Text(String),
    Array(Vec<String>),
    Object(Vec<(String, String)>),
}

pub enum JsonDocView {
    Null,
    Bool(bool),
    Number(Seq<char>),
    Text(Seq<char>),
    Array(Seq<Seq<char>>),
    Object(Seq<(Seq<char>, Seq<char>)>),
}

pub open spec fn opt_text(o: Option<String>) -> Option<Seq<char>> {
    match o {
        Some(s) => Some(s@),
        None => None,
    }
}

impl View for JsonDoc {
    type V = JsonDocView;

    open spec fn view(&self) -> JsonDocView {
        match self {
            JsonDoc::Null => JsonDocView::Null,
            JsonDoc::Bool(b) => JsonDocView::Bool(*b),
            JsonDoc::Number(n) => JsonDocView::Number(n@),
            JsonDoc::Text(s) => JsonDocView::Text(s@),
            JsonDoc::Array(items) => JsonDocView::Array(items@.map_values(|e: String| e@)),
            JsonDoc::Object(entries) => JsonDocView::Object(
                entries@.map_values(|e: (String, String)| (e.0@, e.1@)),
            ),
        }
    }
}

/// Why a payload could not be judged by the JSON filter.
#[derive(Debug, Clone, Copy, PartialEq, Eq, Structural)]
pub enum FilterError {
    NotUtf8,
    NotJson,
    InvalidNumber,
    InvalidIndex,
    MissingIndex,
    MissingKey,
}

/// The document that serde_json parses from a text, if it parses.
pub uninterp spec fn json_document(text: Seq<char>) -> Option<JsonDocView>;

/// The canonical text of the JSON number that serde_json parses from a text.
pub uninterp spec fn json_number_text(text: Seq<char>) -> Option<Seq<char>>;

/// The text after Unicode lowercasing.
pub uninterp spec fn lower_of(s: Seq<char>) -> Seq<char>;

pub open spec fn is_digit(c: char) -> bool {
    '0' <= c && c <= '9'
}

pub open spec fn digits_value(s: Seq<char>) -> int
    decreases s.len(),
{
    if s.len() == 0 {
        0
    } else {
        digits_value(s.drop_last()) * 10 + (s.last() as int - '0' as int)
    }
}

/// The digits of an unsigned decimal, after an optional leading `+`.
pub open spec fn unsigned_digits(s: Seq<char>) -> Seq<char> {
    if s.len() > 0 && s[0] == '+' {
        s.subrange(1, s.len() as int)
    } else {
        s
    }
}

/// The index that a text denotes as an unsigned decimal that fits `usize`.
pub open spec fn index_of_text(s: Seq<char>) -> Option<int> {
    let d = unsigned_digits(s);
    if d.len() > 0 && (forall|i: int| 0 <= i < d.len() ==> is_digit(#[trigger] d[i]))
        && digits_value(d) <= usize::MAX {
        Some(digits_value(d))
    } else {
        None
    }
}

/// The value of the first entry whose key is `key`.
pub open spec fn first_entry(entries: Seq<(Seq<char>, Seq<char>)>, key: Seq<char>) -> Option<Seq<char>>
    decreases entries.len(),
{
    if entries.len() == 0 {
        None
    } else if entries[0].0 == key {
        Some(entries[0].1)
    } else {
        first_entry(entries.drop_first(), key)
    }
}

/// The canonical texts of the float zeros, which compare equal as numbers.
pub open spec fn float_zero_text(s: Seq<char>) -> bool {
    s == seq!['0', '.', '0'] || s == seq!['-', '0', '.', '0']
}

/// Two canonical number texts denote equal numbers.
pub open spec fn same_number(a: Seq<char>, b: Seq<char>) -> bool {
    a == b || (float_zero_text(a) && float_zero_text(b))
}

pub open spec fn null_text() -> Seq<char> {
    seq!['n', 'u', 'l', 'l']
}

pub open spec fn bool_text(b: bool) -> Seq<char> {
    if b {
        seq!['t', 'r', 'u', 'e']
    } else {
        seq!['f', 'a', 'l', 's', 'e']
    }
}

/// The verdict of the JSON filter `(field, exact)` on a parsed document.
/// A scalar document is compared as a whole and `field` is not read; an array
/// is indexed by `field` read as a number, an object by `field` as a key, and
/// the member found matches when its string form is `exact`.
pub open spec fn json_verdict(field: Seq<char>, exact: Seq<char>, doc: JsonDocView) -> Result<
    bool,
    FilterError,
> {
    match doc {
        JsonDocView::Null => Ok(lower_of(exact) == null_text()),
        JsonDocView::Bool(b) => Ok(lower_of(exact) == bool_text(b)),
        JsonDocView::Number(n) => match json_number_text(exact) {
            Some(e) => Ok(same_number(n, e)),
            None => Err(FilterError::InvalidNumber),
        },
        JsonDocView::Text(s) => Ok(s == exact),
        JsonDocView::Array(items) => match index_of_text(field) {
            None => Err(FilterError::InvalidIndex),
            Some(i) => if i < items.len() {
                Ok(items[i] == exact)
            } else {
                Err(FilterError::MissingIndex)
            },
        },
        JsonDocView::Object(entries) => match first_entry(entries, field) {
            Some(v) => Ok(v == exact),
            None => Err(FilterError::MissingKey),
        },
    }
}

/// The verdict of the JSON filter on raw payload bytes.
pub open spec fn json_payload_verdict(field: Seq<char>, exact: Seq<char>, payload: Seq<u8>) -> Result<
    bool,
    FilterError,
> {
    if !valid_utf8(payload) {
        Err(FilterError::NotUtf8)
    } else {
        match json_document(decode_utf8(payload)) {
            None => Err(FilterError::NotJson),
            Some(doc) => json_verdict(field, exact, doc),
        }
    }
}

/// Relies on `String::from_utf8`: `Ok` exactly on valid UTF-8, holding the
/// decoded characters.
#[verifier::external_body]
fn decode_text(bytes: &Vec<u8>) -> (r: Option<String>)
    ensures
        r is Some <==> valid_utf8(bytes@),
        r matches Some(s) ==> s@ == decode_utf8(bytes@),
{
    String::from_utf8(bytes.clone()).ok()
}

/// Relies on `str::to_lowercase`: the result depends on the characters alone.
#[verifier::external_body]
fn lowercase(s: &str) -> (r: String)
    ensures
        r@ == lower_of(s@),
{
    s.to_lowercase()
}

/// Relies on `<usize as FromStr>::from_str`: an optional `+` and then only
/// ASCII digits, with a value that fits `usize`.
#[verifier::external_body]
fn parse_index(s: &str) -> (r: Option<usize>)
    ensures
        r is None <==> index_of_text(s@) is None,
        r matches Some(i) ==> index_of_text(s@) == Some(i as int),
{
    s.parse::<usize>().ok()
}

/// Relies on `serde_json::Number::from_str`, and on `Display` of
/// `serde_json::Number` for the canonical text.
#[verifier::external_body]
fn parse_number(s: &str) -> (r: Option<String>)
    ensures
        opt_text(r) == json_number_text(s@),
{
    <serde_json::Number as std::str::FromStr>::from_str(s).ok().map(|n| n.to_string())
}

/// Relies on `serde_json::from_str` into a `serde_json::Value`; the value is
/// converted variant for variant, numbers and members that are not strings by
/// `Display`.
#[verifier::external_body]
fn parse_json(text: &str) -> (r: Option<JsonDoc>)
    ensures
        match r {
            Some(d) => json_document(text@) == Some(d@),
            None => json_document(text@) is None,
        },
{
    let text_of = |v: &serde_json::Value| match v {
        serde_json::Value::String(s) => s.clone(),
        other => other.to_string(),
    };
    Some(match serde_json::from_str::<serde_json::Value>(text).ok()? {
        serde_json::Value::Null => JsonDoc::Null,
        serde_json::Value::Bool(b) => JsonDoc::Bool(b),
        serde_json::Value::Number(n) => JsonDoc::Number(n.to_string()),
        serde_json::Value::String(s) => JsonDoc::Text(s),
        serde_json::Value::Array(a) => JsonDoc::Array(a.iter().map(text_of).collect()),
        serde_json::Value::Object(m) => JsonDoc::Object(m.iter().map(|(k, v)| (k.clone(), text_of(v))).collect()),
    })
}

fn is_float_zero(s: &str) -> (r: bool)
    ensures
        r == float_zero_text(s@),
{
    proof {
        reveal_strlit("0.0");
        reveal_strlit("-0.0");
        assert("0.0"@ =~= seq!['0', '.', '0']);
        assert("-0.0"@ =~= seq!['-', '0', '.', '0']);
    }
    text_eq(s, "0.0") || text_eq(s, "-0.0")
}

fn number_texts_equal(a: &str, b: &str) -> (r: bool)
    ensures
        r == same_number(a@, b@),
{
    text_eq(a, b) || (is_float_zero(a) && is_float_zero(b))
}

/// Judges a parsed document by the JSON filter `(field, exact)`.
pub fn json_filter_verdict(field: &str, exact: &str, doc: &JsonDoc) -> (r: Result<bool, FilterError>)
    ensures
        r == json_verdict(field@, exact@, doc@),
{
    match doc {
        JsonDoc::Null => {
            let lower = lowercase(exact);
            proof {
                reveal_strlit("null");
                assert("null"@ =~= null_text());
            }
            Ok(text_eq(lower.as_str(), "null"))
        },
        JsonDoc::Bool(b) => {
            let lower = lowercase(exact);
            proof {
                reveal_strlit("true");
                reveal_strlit("false");
                assert("true"@ =~= bool_text(true));
                assert("false"@ =~= bool_text(false));
            }
            if *b {
                Ok(text_eq(lower.as_str(), "true"))
            } else {
                Ok(text_eq(lower.as_str(), "false"))
            }
        },
        JsonDoc::Number(n) => match parse_number(exact) {
            Some(e) => Ok(number_texts_equal(n.as_str(), e.as_str())),
            None => Err(FilterError::InvalidNumber),
        },
        JsonDoc::Text(s) => Ok(text_eq(s.as_str(), exact)),
        JsonDoc::Array(items) => match parse_index(field) {
            None => Err(FilterError::InvalidIndex),
            Some(i) => {
                if i < items.len() {
                    Ok(text_eq(items[i].as_str(), exact))
                } else {
                    Err(FilterError::MissingIndex)
                }
            },
        },
        JsonDoc::Object(entries) => {
            let ghost es = entries@.map_values(|e: (String, String)| (e.0@, e.1@));
            assert(doc@ == JsonDocView::Object(es));
            let n = entries.len();
            let mut i: usize = 0;
            assert(es.subrange(0, n as int) =~= es);
            while i < n
                invariant
                    n == entries@.len(),
                    i <= n,
                    doc@ == JsonDocView::Object(es),
                    es == entries@.map_values(|e: (String, String)| (e.0@, e.1@)),
                    first_entry(es, field@) == first_entry(es.subrange(i as int, n as int), field@),
                decreases n - i,
            {
                let entry = &entries[i];
                let ghost rest = es.subrange(i as int, n as int);
                assert(rest[0] == es[i as int]);
                assert(es[i as int] == (entry.0@, entry.1@));
                if text_eq(entry.0.as_str(), field) {
                    assert(first_entry(rest, field@) == Some(rest[0].1));
                    return Ok(text_eq(entry.1.as_str(), exact));
                }
                assert(rest.drop_first() =~= es.subrange(i + 1, n as int));
                i = i + 1;
            }
            assert(es.subrange(n as int, n as int).len() == 0);
            Err(FilterError::MissingKey)
        },
    }
}

/// Judges raw payload bytes by the JSON filter `(field, exact)`: they must be
/// UTF-8 text that parses as JSON.
pub fn process_json(field: &str, exact: &str, payload: &Vec<u8>) -> (r: Result<bool, FilterError>)
    ensures
        r == json_payload_verdict(field@, exact@, payload@),
{
    let text = match decode_text(payload) {
        Some(t) => t,
        None => return Err(FilterError::NotUtf8),
    };
    match parse_json(text.as_str()) {
        Some(doc) => json_filter_verdict(field, exact, &doc),
        None => Err(FilterError::NotJson),
    }
}

} // verus!
