//! The short-text fact lookup: a daily or a random fact, in a requested
//! language. When no language is given the request defaults to English;
//! the command surfaces themselves ask in German.

use vstd::prelude::*;
use vstd::string::StringExecFns;

verus! {

/// A fact as the text API describes one.
#[derive(Debug)]
pub struct UselessFact {
    pub id: String,
    pub text: String,
    pub source: String,
    pub source_url: String,
    pub language: String,
    pub permalink: String,
}

/// Which fact is asked for.
#[derive(Clone, Copy, Debug, PartialEq, Eq, Structural)]
pub enum FactKind {
    Daily,
    Random,
}

/// The request URL up to the language value.
pub open spec fn spec_fact_base(kind: FactKind) -> Seq<char> {
    match kind {
        FactKind::Daily => "https://uselessfacts.jsph.pl/api/v2/facts/today?language="@,
        FactKind::Random => "https://uselessfacts.jsph.pl/api/v2/facts/random?language="@,
    }
}

/// The full request URL for a fact in the given language, or in English
/// where none is given.
pub open spec fn spec_fact_url(kind: FactKind, language: Option<Seq<char>>) -> Seq<char> {
    spec_fact_base(kind) + (match language {
        Some(l) => l,
        None => "en"@,
    })
}

/// Builds the request URL for a fact.
pub fn request_url(kind: FactKind, language: Option<String>) -> (s: String)
    ensures
        s@ == spec_fact_url(kind, language.deep_view()),
{
    let mut s = match kind {
        FactKind::Daily => String::from_str(
            "https://uselessfacts.jsph.pl/api/v2/facts/today?language=",
        ),
        FactKind::Random => String::from_str(
            "https://uselessfacts.jsph.pl/api/v2/facts/random?language=",
        ),
    };
    match language {
        Some(l) => s.append(l.as_str()),
        None => s.append("en"),
    }
    s
}

} // verus!
