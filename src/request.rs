//! Decoding of one request line: a JSON object whose values are coerced to
//! strings and read as the attribute set that the policy is evaluated on.

use vstd::prelude::*;
use vstd::string::*;

use crate::attributes::AttributeSet;
use crate::policy::{evaluate, policy, Decision};

verus! {

/// `serde_json::Error`, carried out to the caller as the diagnostic of a
/// malformed line.
#[verifier::external_type_specification]
#[verifier::external_body]
pub struct ExJsonError(serde_json::Error);

/// A JSON value as far as the decoder reads it.
pub enum JsonScalar {
    /// A JSON string, unescaped.
    Text(String),
    /// A JSON boolean.
    Flag(bool),
    /// A JSON number, in its decimal text form.
    Number(String),
    /// Any other JSON value (null, array, object), in its compact JSON text.
    Other(String),
}

/// What the decoder makes of one input line.
pub enum LineOutcome {
    /// The line holds nothing but whitespace: it is skipped.
    Blank,
    /// The line holds a JSON object, and this is the policy's decision on it.
    Decided(Decision),
    /// The line is not a JSON object: it is answered with a denial.
    Malformed(serde_json::Error),
}

/// `s` with every leading and trailing double quote removed.
pub open spec fn strip_quotes(s: Seq<char>) -> Seq<char>
    decreases s.len(),
{
    if s.len() > 0 && s[0] == '"' {
        strip_quotes(s.drop_first())
    } else if s.len() > 0 && s.last() == '"' {
        strip_quotes(s.drop_last())
    } else {
        s
    }
}

/// The string that a JSON value is read as.
pub open spec fn coerced(v: JsonScalar) -> Seq<char> {
    match v {
        JsonScalar::Text(s) => s@,
        JsonScalar::Flag(b) => if b {
            "true"@
        } else {
            "false"@
        },
        JsonScalar::Number(t) => t@,
        JsonScalar::Other(t) => strip_quotes(t@),
    }
}

/// The attributes that the decoded entries of a JSON object denote: each key
/// maps to the coerced value of its last entry.
pub open spec fn attributes_of(entries: Seq<(String, JsonScalar)>) -> Map<Seq<char>, Seq<char>>
    decreases entries.len(),
{
    if entries.len() == 0 {
        Map::empty()
    } else {
        attributes_of(entries.drop_last()).insert(
            entries.last().0@,
            coerced(entries.last().1),
        )
    }
}

/// Whether `text` is one JSON object and nothing else but whitespace.
pub uninterp spec fn is_json_object(text: Seq<char>) -> bool;

/// The attributes that the JSON object in `text` holds: each key mapped to
/// its coerced value.
pub uninterp spec fn json_attributes(text: Seq<char>) -> Map<Seq<char>, Seq<char>>;

/// `c` has the Unicode property `White_Space`.
pub open spec fn is_white_space(c: char) -> bool {
    let u = c as u32;
    (0x09 <= u <= 0x0D) || u == 0x20 || u == 0x85 || u == 0xA0 || u == 0x1680 || (0x2000 <= u
        <= 0x200A) || u == 0x2028 || u == 0x2029 || u == 0x202F || u == 0x205F || u == 0x3000
}

/// `s` with every leading and trailing whitespace character removed.
pub open spec fn trimmed(s: Seq<char>) -> Seq<char>
    decreases s.len(),
{
    if s.len() > 0 && is_white_space(s[0]) {
        trimmed(s.drop_first())
    } else if s.len() > 0 && is_white_space(s.last()) {
        trimmed(s.drop_last())
    } else {
        s
    }
}

/// Relies on `str::trim`, which removes the leading and trailing characters
/// that have the Unicode property `White_Space`.
#[verifier::external_body]
fn trim(s: &str) -> (r: &str)
    ensures
        r@ == trimmed(s@),
{
    s.trim()
}

/// Relies on `serde_json::from_str` into a `serde_json::Map`, which succeeds
/// exactly when `text` is one JSON object, on the map's owning iterator, which
/// hands out each (key, value) entry once, and on the `Display` of
/// `serde_json::Number` and `serde_json::Value` for the text of a number and
/// of a null, array or object.
#[verifier::external_body]
fn parse_object(text: &str) -> (r: Result<Vec<(String, JsonScalar)>, serde_json::Error>)
    ensures
        r is Ok == is_json_object(text@),
        r matches Ok(entries) ==> attributes_of(entries@) == json_attributes(text@),
{
    let map: serde_json::Map<String, serde_json::Value> = serde_json::from_str(text)?;
    let mut entries = Vec::new();
    for (key, value) in map {
        let scalar = match value {
            serde_json::Value::String(s) => JsonScalar::Text(s),
            serde_json::Value::Bool(b) => JsonScalar::Flag(b),
            serde_json::Value::Number(n) => JsonScalar::Number(n.to_string()),
            other => JsonScalar::Other(other.to_string()),
        };
        entries.push((key, scalar));
    }
    Ok(entries)
}

/// Removes every leading and trailing double quote from `s`.
pub fn trim_quotes(s: &str) -> (r: String)
    ensures
        r@ == strip_quotes(s@),
{
    let mut lo: usize = 0;
    let mut hi: usize = s.unicode_len();
    assert(s@.subrange(0, hi as int) =~= s@);
    while lo < hi
        invariant
            lo <= hi <= s@.len(),
            strip_quotes(s@.subrange(lo as int, hi as int)) == strip_quotes(s@),
        ensures
            lo <= hi <= s@.len(),
            s@.subrange(lo as int, hi as int) == strip_quotes(s@),
        decreases hi - lo,
    {
        let sub = Ghost(s@.subrange(lo as int, hi as int));
        if s.get_char(lo) == '"' {
            assert(sub@.drop_first() =~= s@.subrange(lo + 1, hi as int));
            lo = lo + 1;
        } else if s.get_char(hi - 1) == '"' {
            assert(sub@.drop_last() =~= s@.subrange(lo as int, hi - 1));
            hi = hi - 1;
        } else {
            assert(sub@[0] == s@[lo as int]);
            assert(sub@.last() == s@[hi - 1]);
            break;
        }
    }
    String::from_str(s.substring_char(lo, hi))
}

/// The string that a JSON value is read as: a string as it is, a boolean as
/// `true` or `false`, a number as its decimal text, and anything else as its
/// JSON text with surrounding double quotes removed.
pub fn coerce(v: &JsonScalar) -> (r: String)
    ensures
        r@ == coerced(*v),
{
    match v {
        JsonScalar::Text(s) => s.clone(),
        JsonScalar::Flag(b) => if *b {
            String::from_str("true")
        } else {
            String::from_str("false")
        },
        JsonScalar::Number(t) => t.clone(),
        JsonScalar::Other(t) => trim_quotes(t.as_str()),
    }
}

/// The attribute set that the decoded entries of a JSON object denote.
pub fn attributes_from(entries: &Vec<(String, JsonScalar)>) -> (r: AttributeSet)
    ensures
        r@ == attributes_of(entries@),
{
    let mut attrs = AttributeSet::new();
    let mut i: usize = 0;
    while i < entries.len()
        invariant
            i <= entries@.len(),
            attrs@ == attributes_of(entries@.subrange(0, i as int)),
        decreases entries@.len() - i,
    {
        let entry = &entries[i];
        let value = coerce(&entry.1);
        attrs.insert(entry.0.clone(), value);
        assert(entries@.subrange(0, i + 1).drop_last() =~= entries@.subrange(0, i as int));
        i = i + 1;
    }
    assert(entries@.subrange(0, i as int) =~= entries@);
    attrs
}

/// The policy's decision on the decoded entries of a JSON object.
pub fn decide_entries(entries: &Vec<(String, JsonScalar)>) -> (r: Decision)
    ensures
        r == policy(attributes_of(entries@)),
{
    evaluate(&attributes_from(entries))
}

/// Decodes one input line and decides on it. A line of whitespace alone is
/// blank; a line that is no JSON object is malformed; any other line is
/// decided on the attributes it holds.
pub fn decide_line(line: &str) -> (r: LineOutcome)
    ensures
        (r is Blank) == (trimmed(line@).len() == 0),
        (r is Malformed) == (trimmed(line@).len() != 0 && !is_json_object(trimmed(line@))),
        (r is Decided) == (trimmed(line@).len() != 0 && is_json_object(trimmed(line@))),
        r matches LineOutcome::Decided(d) ==> d == policy(json_attributes(trimmed(line@))),
{
    let text = trim(line);
    if text.unicode_len() == 0 {
        return LineOutcome::Blank;
    }
    match parse_object(text) {
        Err(e) => LineOutcome::Malformed(e),
        Ok(entries) => LineOutcome::Decided(decide_entries(&entries)),
    }
}

/// The output line that answers an input line: none for a blank line, the
/// decision's word for a decided one, and `unauthorized` for a malformed one.
pub fn output_line(outcome: &LineOutcome) -> (r: Option<&'static str>)
    ensures
        outcome is Blank ==> r is None,
        outcome matches LineOutcome::Decided(d) ==> (r matches Some(w) && w@ == d.text()),
        outcome is Malformed ==> (r matches Some(w) && w@ == Decision::Unauthorized.text()),
{
    match outcome {
        LineOutcome::Blank => None,
        LineOutcome::Decided(d) => Some(d.as_str()),
        LineOutcome::Malformed(_) => Some(Decision::Unauthorized.as_str()),
    }
}

} // verus!
