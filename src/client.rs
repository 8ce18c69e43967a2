//! What both backends share: the request, the normalised result, the error
//! taxonomy, the outgoing HTTP call, and the text shown to the user.
use vstd::prelude::*;
use crate::encode::{decimal, decimal_digits};

verus! {

/// One translation to perform.
#[derive(Debug)]
pub struct TranslationRequest {
    pub source_language: String,
    pub target_language: String,
    pub text: String,
}

/// A translation: the main rendering and zero or more alternatives, in order.
#[derive(Debug)]
pub struct TranslationResult {
    pub primary_text: String,
    pub alternatives: Vec<String>,
}

/// Why a translation failed.
#[derive(Debug)]
pub enum ProtocolError {
    /// The request could not be sent or the reply could not be read.
    Network(String),
    /// The service answered with a status other than 200; code and raw body.
    UnexpectedStatus(u16, String),
    /// The reply's body is not the expected document.
    MalformedResponse(String),
}

/// An HTTP POST ready to send.
#[derive(Debug)]
pub struct HttpCall {
    pub url: String,
    pub headers: Vec<(&'static str, &'static str)>,
    pub body: String,
}

/// The status a successful reply carries.
pub const STATUS_OK: u16 = 200;

/// The characters of each string of `v`, in order.
pub open spec fn texts_of(v: Seq<String>) -> Seq<Seq<char>> {
    Seq::new(v.len(), |i: int| v[i]@)
}

/// A translation as plain text: the main rendering and the alternatives.
pub open spec fn result_view(r: TranslationResult) -> (Seq<char>, Seq<Seq<char>>) {
    (r.primary_text@, texts_of(r.alternatives@))
}

/// The diagnostic text of an error.
pub open spec fn error_text(e: ProtocolError) -> Seq<char> {
    match e {
        ProtocolError::Network(d) => d@,
        ProtocolError::UnexpectedStatus(code, body) => "Failed to get response from DeepL\nstatus code: "@
            + decimal_digits(code as nat) + "\nbody: "@ + body@,
        ProtocolError::MalformedResponse(d) => d@,
    }
}

/// Each alternative followed by a line break, all joined.
pub open spec fn alternative_lines(alts: Seq<Seq<char>>) -> Seq<char>
    decreases alts.len(),
{
    if alts.len() == 0 {
        Seq::empty()
    } else {
        alternative_lines(alts.drop_last()) + alts.last() + "\n"@
    }
}

/// The text published to the panel for a translation: the main rendering,
/// then, if there are alternatives, a banner with `label` and one line per
/// alternative.
pub open spec fn success_message(primary: Seq<char>, alts: Seq<Seq<char>>, label: Seq<char>) -> Seq<char> {
    if alts.len() == 0 {
        primary
    } else {
        primary + "\n\n====="@ + label + "=====\n"@ + alternative_lines(alts)
    }
}

/// The text published to the panel for a failure.
pub open spec fn failure_message(e: ProtocolError) -> Seq<char> {
    "translation failed: "@ + error_text(e)
}

impl ProtocolError {
    /// The diagnostic text of this error.
    pub fn message(&self) -> (r: String)
        ensures
            r@ == error_text(*self),
    {
        match self {
            ProtocolError::Network(d) => d.clone(),
            ProtocolError::UnexpectedStatus(code, body) => {
                let mut r = String::from_str("Failed to get response from DeepL\nstatus code: ");
                r.append(decimal(*code as u64).as_str());
                r.append("\nbody: ");
                r.append(body.as_str());
                r
            },
            ProtocolError::MalformedResponse(d) => d.clone(),
        }
    }
}

/// The text to publish to the panel for the outcome of a translation;
/// `alternative_label` titles the block of alternatives.
pub fn format_outcome(outcome: &Result<TranslationResult, ProtocolError>, alternative_label: &str) -> (r: String)
    ensures
        outcome matches Ok(t) ==> r@ == success_message(
            t.primary_text@,
            texts_of(t.alternatives@),
            alternative_label@,
        ),
        outcome matches Err(e) ==> r@ == failure_message(*e),
{
    match outcome {
        Ok(t) => {
            let mut r = t.primary_text.clone();
            let n = t.alternatives.len();
            if n > 0 {
                r.append("\n\n=====");
                r.append(alternative_label);
                r.append("=====\n");
                let ghost head = r@;
                let mut i: usize = 0;
                while i < n
                    invariant
                        n == t.alternatives@.len(),
                        i <= n,
                        r@ == head + alternative_lines(texts_of(t.alternatives@.subrange(0, i as int))),
                    decreases n - i,
                {
                    proof {
                        assert(texts_of(t.alternatives@.subrange(0, i + 1)).drop_last() =~= texts_of(
                            t.alternatives@.subrange(0, i as int),
                        ));
                    }
                    r.append(t.alternatives[i].as_str());
                    r.append("\n");
                    i = i + 1;
                    proof {
                        assert(r@ =~= head + alternative_lines(texts_of(t.alternatives@.subrange(0, i as int))));
                    }
                }
                assert(t.alternatives@.subrange(0, n as int) =~= t.alternatives@);
                assert(r@ =~= success_message(t.primary_text@, texts_of(t.alternatives@), alternative_label@));
            }
            r
        },
        Err(e) => {
            let mut r = String::from_str("translation failed: ");
            r.append(e.message().as_str());
            r
        },
    }
}

} // verus!
