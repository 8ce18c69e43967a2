//! The keyed backend: a relay service addressed with the user's key.
use vstd::prelude::*;
use crate::client::{HttpCall, ProtocolError, STATUS_OK, TranslationResult, texts_of};
use crate::encode::{json_quoted, json_string};

verus! {

/// One alternative rendering in a reply.
#[derive(Debug)]
pub struct Alternative {
    pub text: String,
}

/// The relay's reply.
#[derive(Debug)]
pub struct DeeplXResult {
    pub code: i64,
    pub id: i64,
    pub data: String,
    pub alternatives: Vec<Alternative>,
}

/// The texts of a list of alternatives, in order.
pub open spec fn alternative_texts(a: Seq<Alternative>) -> Seq<Seq<char>> {
    Seq::new(a.len(), |i: int| a[i].text@)
}

/// The relay endpoint for `api_key`.
pub open spec fn keyed_url(api_key: Seq<char>) -> Seq<char> {
    "https://api.deeplx.org/"@ + api_key + "/translate"@
}

/// The relay's request body: a JSON object with its keys in sorted order.
pub open spec fn keyed_body(from: Seq<char>, to: Seq<char>, text: Seq<char>) -> Seq<char> {
    "{\"source_lang\":"@ + json_quoted(from) + ",\"target_lang\":"@ + json_quoted(to)
        + ",\"text\":"@ + json_quoted(text) + "}"@
}

/// The texts of `alts`, in order.
pub fn collect_alternatives(alts: &Vec<Alternative>) -> (r: Vec<String>)
    ensures
        texts_of(r@) == alternative_texts(alts@),
{
    let mut r: Vec<String> = Vec::new();
    let mut i: usize = 0;
    while i < alts.len()
        invariant
            i <= alts@.len(),
            r@.len() == i,
            texts_of(r@) =~= alternative_texts(alts@.subrange(0, i as int)),
        decreases alts@.len() - i,
    {
        let t = alts[i].text.clone();
        let ghost before = r@;
        r.push(t);
        proof {
            assert forall|j: int| 0 <= j < i + 1 implies #[trigger] texts_of(r@)[j]
                == alternative_texts(alts@.subrange(0, i + 1))[j] by {
                if j < i {
                    assert(r@[j] == before[j]);
                    assert(texts_of(before)[j] == alternative_texts(alts@.subrange(0, i as int))[j]);
                }
            }
            assert(texts_of(r@) =~= alternative_texts(alts@.subrange(0, i + 1)));
        }
        i = i + 1;
    }
    assert(alts@.subrange(0, alts@.len() as int) =~= alts@);
    r
}

/// The call that asks the relay, with key `api_key`, to translate `content`
/// from `from` to `to`.
pub fn keyed_call(from: &str, to: &str, content: &str, api_key: &str) -> (r: HttpCall)
    ensures
        r.url@ == keyed_url(api_key@),
        r.headers@.len() == 0,
        r.body@ == keyed_body(from@, to@, content@),
{
    let mut url = String::from_str("https://api.deeplx.org/");
    url.append(api_key);
    url.append("/translate");
    let mut body = String::from_str("{\"source_lang\":");
    body.append(json_string(from).as_str());
    body.append(",\"target_lang\":");
    body.append(json_string(to).as_str());
    body.append(",\"text\":");
    body.append(json_string(content).as_str());
    body.append("}");
    HttpCall { url, headers: Vec::new(), body }
}

/// The outcome of a relay call from its status, its raw body, and the body
/// decoded as a reply (or why it could not be).
pub fn keyed_outcome(status: u16, body: String, decoded: Result<DeeplXResult, String>) -> (r: Result<
    TranslationResult,
    ProtocolError,
>)
    ensures
        status != STATUS_OK ==> r == Err::<TranslationResult, ProtocolError>(
            ProtocolError::UnexpectedStatus(status, body),
        ),
        status == STATUS_OK ==> match decoded {
            Ok(x) => r matches Ok(t) && t.primary_text@ == x.data@ && texts_of(t.alternatives@)
                == alternative_texts(x.alternatives@),
            Err(d) => r == Err::<TranslationResult, ProtocolError>(
                ProtocolError::MalformedResponse(d),
            ),
        },
{
    if status != STATUS_OK {
        return Err(ProtocolError::UnexpectedStatus(status, body));
    }
    match decoded {
        Ok(x) => {
            let alternatives = collect_alternatives(&x.alternatives);
            Ok(TranslationResult { primary_text: x.data, alternatives })
        },
        Err(d) => Err(ProtocolError::MalformedResponse(d)),
    }
}

} // verus!
