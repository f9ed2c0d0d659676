//! What a host runtime sees of the language elements: construction from
//! strings, string renderings, and comparison, with the two kinds of error
//! that a caller gets back.

use crate::lang_elements::{Case, Stopwords};
use vstd::prelude::*;

verus! {

/// What `str::to_lowercase` makes of a string.
pub uninterp spec fn lower_of(s: Seq<char>) -> Seq<char>;

/// What `Debug` prints for a string: the text in double quotes, escaped.
pub uninterp spec fn debug_str_of(s: Seq<char>) -> Seq<char>;

/// Relies on `str::to_lowercase`: the lowercase form depends on the
/// characters alone.
#[verifier::external_body]
fn lowercase(s: &str) -> (r: String)
    ensures
        r@ == lower_of(s@),
{
    s.to_lowercase()
}

/// Relies on `String`'s `Debug` impl: the quoted and escaped form of the
/// string depends on its characters alone.
#[verifier::external_body]
fn debug_string(s: &String) -> (r: String)
    ensures
        r@ == debug_str_of(s@),
{
    format!("{:?}", s)
}

/// Relies on `str::replace` with a `char` pattern: every occurrence of `from`
/// is replaced by `to`, the rest is copied in order.
#[verifier::external_body]
fn replace_char(s: &str, from: char, to: char) -> (r: String)
    ensures
        r@ == replace_spec(s@, from, to),
{
    s.replace(from, &to.to_string())
}

/// `s` with every `from` replaced by `to`.
pub open spec fn replace_spec(s: Seq<char>, from: char, to: char) -> Seq<char> {
    s.map_values(|c: char| if c == from { to } else { c })
}

/// The error kinds that a caller of the binding layer sees.
#[derive(Clone, Debug, PartialEq, Eq)]
pub enum BindingError {
    /// A value was rejected; the message says which.
    Validation(String),
    /// An operation that the type does not support was attempted.
    UnsupportedOperation(String),
}

/// Comparison operators that a host runtime may apply to two values.
#[derive(Clone, Copy, Debug, PartialEq, Eq, Structural)]
pub enum CompareOp {
    Lt,
    Le,
    Eq,
    Ne,
    Gt,
    Ge,
}

/// The canonical, lowercase name of a case.
pub open spec fn case_name(c: Case) -> Seq<char> {
    match c {
        Case::Exists => "exists"@,
        Case::NotDefined => "notdefined"@,
    }
}

/// The case whose canonical name is `s`, if any.
pub open spec fn case_named(s: Seq<char>) -> Option<Case> {
    if s == "exists"@ {
        Some(Case::Exists)
    } else if s == "notdefined"@ {
        Some(Case::NotDefined)
    } else {
        None
    }
}

/// The case that a string stands for, whatever its casing.
pub open spec fn parsed_case(s: Seq<char>) -> Option<Case> {
    case_named(lower_of(s))
}

/// The message of the error for a string that names no case.
pub open spec fn unknown_case_message(s: Seq<char>) -> Seq<char> {
    "unknown case value '"@ + s + "'"@
}

/// The message of the error for an ordering comparison of two cases.
pub open spec fn unsupported_compare_message() -> Seq<char> {
    "operation not supported between instances of 'Case' and 'Case'"@
}

/// The diagnostic rendering of a case.
pub open spec fn case_repr(c: Case) -> Seq<char> {
    "Case('"@ + case_name(c) + "')"@
}

/// The `Debug` forms of the words, in order, separated by `", "`.
pub open spec fn word_entries(ws: Seq<Seq<char>>) -> Seq<char>
    decreases ws.len(),
{
    if ws.len() == 0 {
        Seq::empty()
    } else if ws.len() == 1 {
        debug_str_of(ws[0])
    } else {
        word_entries(ws.drop_last()) + ", "@ + debug_str_of(ws.last())
    }
}

/// The rendering of a stopword list: its words as a bracketed list, with
/// double quotes shown as single quotes.
pub open spec fn stopwords_repr(ws: Seq<Seq<char>>) -> Seq<char> {
    replace_spec("Stopwords(["@ + word_entries(ws) + "])"@, '"', '\'')
}

impl Case {
    /// The case whose canonical name is `lower` exactly, if any.
    pub fn from_lowercase(lower: &str) -> (r: Option<Case>)
        ensures
            r == case_named(lower@),
    {
        let s = String::from_str(lower);
        if s == String::from_str("exists") {
            Some(Case::Exists)
        } else if s == String::from_str("notdefined") {
            Some(Case::NotDefined)
        } else {
            None
        }
    }

    /// Parses a case from its name in any casing; on failure the message
    /// echoes the input unchanged.
    pub fn parse(case: &str) -> (r: Result<Case, String>)
        ensures
            r is Ok <==> parsed_case(case@) is Some,
            r matches Ok(c) ==> parsed_case(case@) == Some(c),
            r matches Err(msg) ==> msg@ == unknown_case_message(case@),
    {
        let lower = lowercase(case);
        match Case::from_lowercase(lower.as_str()) {
            Some(c) => Ok(c),
            None => {
                let mut msg = String::from_str("unknown case value '");
                msg.append(case);
                msg.append("'");
                Err(msg)
            },
        }
    }

    /// Constructor: a case from its name in any casing, or a validation error.
    pub fn new(case: String) -> (r: Result<Case, BindingError>)
        ensures
            r is Ok <==> parsed_case(case@) is Some,
            r matches Ok(c) ==> parsed_case(case@) == Some(c),
            r matches Err(e) ==> (e matches BindingError::Validation(msg) && msg@
                == unknown_case_message(case@)),
    {
        match Case::parse(case.as_str()) {
            Ok(c) => Ok(c),
            Err(msg) => Err(BindingError::Validation(msg)),
        }
    }

    /// The canonical name of the case: `"exists"` or `"notdefined"`.
    pub fn to_string(&self) -> (r: String)
        ensures
            r@ == case_name(*self),
    {
        match self {
            Case::Exists => String::from_str("exists"),
            Case::NotDefined => String::from_str("notdefined"),
        }
    }

    /// The diagnostic rendering, such as `Case('exists')`.
    pub fn repr(&self) -> (r: String)
        ensures
            r@ == case_repr(*self),
    {
        let name = self.to_string();
        let mut r = String::from_str("Case('");
        r.append(name.as_str());
        r.append("')");
        r
    }

    /// Compares two cases: equality and inequality are answered, every
    /// ordering comparison fails, as cases have no order.
    pub fn richcmp(&self, other: &Case, op: CompareOp) -> (r: Result<bool, BindingError>)
        ensures
            op == CompareOp::Eq ==> r == Ok::<bool, BindingError>(*self == *other),
            op == CompareOp::Ne ==> r == Ok::<bool, BindingError>(*self != *other),
            op != CompareOp::Eq && op != CompareOp::Ne ==> (r matches Err(
                BindingError::UnsupportedOperation(msg),
            ) && msg@ == unsupported_compare_message()),
    {
        match op {
            CompareOp::Eq => Ok(*self == *other),
            CompareOp::Ne => Ok(*self != *other),
            _ => Err(
                BindingError::UnsupportedOperation(
                    String::from_str("operation not supported between instances of 'Case' and 'Case'"),
                ),
            ),
        }
    }
}

impl Stopwords {
    /// Constructor: the words as given, in order, duplicates kept.
    pub fn new(stopwords: Vec<String>) -> (r: Stopwords)
        ensures
            r@ == stopwords@.map_values(|w: String| w@),
    {
        Stopwords(stopwords)
    }

    /// The rendering of the list, such as `Stopwords(['a', 'b'])`.
    pub fn repr(&self) -> (r: String)
        ensures
            r@ == stopwords_repr(self@),
    {
        let n = self.0.len();
        let mut out = String::from_str("Stopwords([");
        let mut i: usize = 0;
        while i < n
            invariant
                n == self@.len(),
                i <= n,
                out@ == "Stopwords(["@ + word_entries(self@.take(i as int)),
            decreases n - i,
        {
            let entry = debug_string(&self.0[i]);
            proof {
                let ws = self@.take(i as int + 1);
                assert(ws.drop_last() =~= self@.take(i as int));
                assert(ws.last() == self.0@[i as int]@);
            }
            if i > 0 {
                out.append(", ");
            }
            out.append(entry.as_str());
            i = i + 1;
        }
        assert(self@.take(n as int) =~= self@);
        out.append("])");
        replace_char(out.as_str(), '"', '\'')
    }

    /// The same rendering as `repr`.
    pub fn to_string(&self) -> (r: String)
        ensures
            r@ == stopwords_repr(self@),
    {
        self.repr()
    }
}

/// Every casing of a case's name parses to that case: a string whose
/// lowercase form is `"exists"` gives `Exists`, one whose lowercase form is
/// `"notdefined"` gives `NotDefined`.
pub proof fn lemma_any_casing_parses(s: Seq<char>)
    ensures
        lower_of(s) == "exists"@ ==> parsed_case(s) == Some(Case::Exists),
        lower_of(s) == "notdefined"@ ==> parsed_case(s) == Some(Case::NotDefined),
{
    reveal_strlit("exists");
    reveal_strlit("notdefined");
    assert("notdefined"@.len() != "exists"@.len());
}

/// Strings that differ only in casing parse to the same result.
pub proof fn lemma_parse_ignores_casing(s: Seq<char>, t: Seq<char>)
    requires
        lower_of(s) == lower_of(t),
    ensures
        parsed_case(s) == parsed_case(t),
{
}

/// The message for a string that names no case holds that string exactly,
/// right after the fixed prefix.
pub proof fn lemma_unknown_message_echoes_input(s: Seq<char>)
    ensures
        unknown_case_message(s).subrange(
            "unknown case value '"@.len() as int,
            "unknown case value '"@.len() + s.len() as int,
        ) == s,
{
    assert(unknown_case_message(s).subrange(
        "unknown case value '"@.len() as int,
        "unknown case value '"@.len() + s.len() as int,
    ) =~= s);
}

/// Rendering a parsed case gives the lowercase form of the parsed string,
/// whatever its casing.
pub proof fn lemma_parse_render_round_trip(s: Seq<char>)
    requires
        parsed_case(s) is Some,
    ensures
        case_name(parsed_case(s)->0) == lower_of(s),
{
}

} // verus!
