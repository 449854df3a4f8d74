use vstd::prelude::*;

verus! {

use vstd::string::StrSliceExecFns;
use vstd::string::StringExecFns;
use crate::text::str_eq;

/// The output-encoding selector for aggregation results.
#[derive(Clone, Copy, PartialEq, Eq, Debug)]
pub enum FormatType {
    Csv,
    JsonRecords,
}

/// The structured, validated result of parsing one compound path segment of
/// the form `<verb>[.<format>]`.
#[derive(Clone, Copy, PartialEq, Eq, Debug)]
pub struct AggregateRoute {
    pub format_type: FormatType,
}

/// The failure raised when a compound path segment does not parse: a wrong
/// verb or an unrecognized format token. Carries the human-readable message
/// that becomes the body of a 404 response.
#[derive(Debug)]
pub struct Error {
    msg: String,
}

impl View for Error {
    type V = Seq<char>;

    closed spec fn view(&self) -> Seq<char> {
        self.msg@
    }
}

impl Error {
    pub fn new(msg: String) -> (e: Self)
        ensures
            e@ == msg@,
    {
        Error { msg }
    }

    /// The human-readable message.
    pub fn message(&self) -> (r: &String)
        ensures
            r@ == self@,
    {
        &self.msg
    }

    /// Consumes the failure, yielding its message.
    pub fn into_message(self) -> (r: String)
        ensures
            r@ == self@,
    {
        self.msg
    }
}

/// Index of the first `.` in `s`, or `s.len()` if there is none.
pub open spec fn first_dot(s: Seq<char>) -> int
    decreases s.len(),
{
    if s.len() == 0 {
        0
    } else if s[0] == '.' {
        0
    } else {
        1 + first_dot(s.skip(1))
    }
}

/// `first_dot` is in range, everything before it is dot-free, and it lands
/// on a `.` unless the whole segment is dot-free.
pub proof fn lemma_first_dot(s: Seq<char>)
    ensures
        0 <= first_dot(s) <= s.len(),
        forall|j: int| 0 <= j < first_dot(s) ==> s[j] != '.',
        first_dot(s) < s.len() ==> s[first_dot(s)] == '.',
    decreases s.len(),
{
    if s.len() == 0 {
    } else if s[0] == '.' {
    } else {
        lemma_first_dot(s.skip(1));
        assert forall|j: int| 0 <= j < first_dot(s) implies s[j] != '.' by {
            if j > 0 {
                assert(s.skip(1)[j - 1] != '.');
            }
        }
        if first_dot(s) < s.len() {
            assert(s.skip(1)[first_dot(s) - 1] == '.');
        }
    }
}

/// An index with the properties of `lemma_first_dot` is `first_dot` itself.
proof fn lemma_first_dot_agrees(s: Seq<char>, i: int)
    requires
        0 <= i <= s.len(),
        forall|j: int| 0 <= j < i ==> s[j] != '.',
        i < s.len() ==> s[i] == '.',
    ensures
        i == first_dot(s),
    decreases s.len(),
{
    if s.len() == 0 {
    } else if s[0] == '.' {
        assert(i == 0) by {
            if i > 0 {
                assert(s[0] != '.');
            }
        }
    } else {
        assert(i >= 1) by {
            if i == 0 {
                assert(s[0] == '.');
            }
        }
        assert forall|j: int| 0 <= j < i - 1 implies s.skip(1)[j] != '.' by {
            assert(s[j + 1] != '.');
        }
        if i - 1 < s.skip(1).len() {
            assert(s.skip(1)[i - 1] == s[i]);
        }
        lemma_first_dot_agrees(s.skip(1), i - 1);
    }
}

/// The sub-token before the first `.` (the whole segment if there is none).
pub open spec fn verb_of(s: Seq<char>) -> Seq<char> {
    s.take(first_dot(s))
}

/// Whether the segment carries an explicit format token after a `.`.
pub open spec fn has_format(s: Seq<char>) -> bool {
    first_dot(s) < s.len()
}

/// The sub-token after the first `.`, verbatim up to the end of the segment.
pub open spec fn format_of(s: Seq<char>) -> Seq<char> {
    s.subrange(first_dot(s) + 1, s.len() as int)
}

/// Which `FormatType`, if any, a format token denotes. The vocabulary is
/// fixed and case-sensitive.
pub open spec fn spec_parse_format(s: Seq<char>) -> Option<FormatType> {
    if s == "csv"@ {
        Some(FormatType::Csv)
    } else if s == "jsonrecords"@ {
        Some(FormatType::JsonRecords)
    } else {
        None
    }
}

/// The literal token that names a format.
pub open spec fn spec_format_token(f: FormatType) -> Seq<char> {
    match f {
        FormatType::Csv => "csv"@,
        FormatType::JsonRecords => "jsonrecords"@,
    }
}

/// The message reported for an unrecognized format token, embedding the
/// offending token verbatim.
pub open spec fn format_err_msg(tok: Seq<char>) -> Seq<char> {
    "format \""@ + tok + "\" not supported"@
}

/// Whether a whole compound segment parses: the verb before the first `.`
/// must equal `"aggregate"`, and an explicit format token, if any, must be
/// in the recognized vocabulary.
pub open spec fn segment_parses(s: Seq<char>) -> bool {
    verb_of(s) == "aggregate"@ && (has_format(s) ==> spec_parse_format(format_of(s)) is Some)
}

/// The format a parsed segment selects: the explicit one, or CSV by default.
pub open spec fn segment_format(s: Seq<char>) -> FormatType {
    if has_format(s) {
        spec_parse_format(format_of(s))->Some_0
    } else {
        FormatType::Csv
    }
}

/// The message carried by the failure for a segment that does not parse:
/// empty for a verb mismatch, descriptive for an unrecognized format.
pub open spec fn segment_err_msg(s: Seq<char>) -> Seq<char> {
    if verb_of(s) != "aggregate"@ {
        Seq::empty()
    } else {
        format_err_msg(format_of(s))
    }
}

/// Index of the first `.` in `s`, or its length if there is none.
fn find_dot(s: &str) -> (r: usize)
    ensures
        r == first_dot(s@),
{
    let n = s.unicode_len();
    let mut i: usize = 0;
    while i < n
        invariant
            n == s@.len(),
            0 <= i <= n,
            forall|j: int| 0 <= j < i ==> s@[j] != '.',
        decreases n - i,
    {
        if s.get_char(i) == '.' {
            proof {
                lemma_first_dot_agrees(s@, i as int);
            }
            return i;
        }
        i += 1;
    }
    proof {
        lemma_first_dot_agrees(s@, n as int);
    }
    n
}

impl FormatType {
    /// Parses a format token against the fixed vocabulary: `"csv"` or
    /// `"jsonrecords"`; anything else fails with a message embedding the
    /// offending token.
    pub fn from_str(s: &str) -> (r: Result<FormatType, String>)
        ensures
            r is Ok <==> spec_parse_format(s@) is Some,
            r is Ok ==> Some(r->Ok_0) == spec_parse_format(s@),
            r is Err ==> r->Err_0@ == format_err_msg(s@),
    {
        if str_eq(s, "csv") {
            Ok(FormatType::Csv)
        } else if str_eq(s, "jsonrecords") {
            Ok(FormatType::JsonRecords)
        } else {
            let mut m = "format \"".to_owned();
            m.append(s);
            m.append("\" not supported");
            Err(m)
        }
    }

    /// The literal token that names this format.
    pub fn token(&self) -> (r: &str)
        ensures
            r@ == spec_format_token(*self),
    {
        match self {
            FormatType::Csv => "csv",
            FormatType::JsonRecords => "jsonrecords",
        }
    }
}

impl Default for FormatType {
    /// The format used when a segment carries no explicit format token.
    fn default() -> (r: Self)
        ensures
            r == FormatType::Csv,
    {
        FormatType::Csv
    }
}

impl AggregateRoute {
    /// Parses the raw text of one compound path segment `<verb>[.<format>]`.
    ///
    /// Succeeds exactly when the text before the first `.` equals
    /// `"aggregate"` and the text after it, taken verbatim to the end of the
    /// segment, is a recognized format token; with no `.` at all the format
    /// defaults to CSV. On failure the error message is empty for a verb
    /// mismatch and embeds the offending token for an unrecognized format.
    pub fn from_str(s: &str) -> (r: Result<AggregateRoute, Error>)
        ensures
            r is Ok <==> segment_parses(s@),
            r is Ok ==> r->Ok_0.format_type == segment_format(s@),
            r is Err ==> r->Err_0@ == segment_err_msg(s@),
    {
        let n = s.unicode_len();
        let d = find_dot(s);
        proof {
            lemma_first_dot(s@);
        }
        let verb = s.substring_char(0, d);
        if !str_eq(verb, "aggregate") {
            return Err(Error::new(String::new()));
        }
        if d < n {
            let tok = s.substring_char(d + 1, n);
            match FormatType::from_str(tok) {
                Ok(f) => Ok(AggregateRoute { format_type: f }),
                Err(m) => Err(Error::new(m)),
            }
        } else {
            Ok(AggregateRoute { format_type: FormatType::default() })
        }
    }
}

} // verus!
