//! The keyless backend: a JSON-RPC request shaped like the vendor's mobile
//! client, and the reading of its reply.
use rand::Rng;
use vstd::prelude::*;
use crate::client::{HttpCall, ProtocolError, STATUS_OK, TranslationResult, texts_of};
use crate::translate_with_api_key::{alternative_texts, collect_alternatives};
pub use crate::translate_with_api_key::{Alternative, DeeplXResult};
use crate::encode::{count_char, count_occurrences, decimal, decimal_digits, json_quoted, json_string};

verus! {

/// One translated text in a reply, with its alternatives.
#[derive(Debug)]
pub struct TranslatedText {
    pub alternatives: Vec<Alternative>,
    pub text: String,
}

/// The `result` member of a reply.
#[derive(Debug)]
pub struct DeeplResult {
    pub texts: Vec<TranslatedText>,
    pub lang: String,
    pub lang_is_confident: bool,
}

/// The JSON-RPC envelope of a reply.
#[derive(Debug)]
pub struct DeepLResponse {
    pub jsonrpc: String,
    pub id: i64,
    pub result: DeeplResult,
}

/// Lower bound that the drawn request number is shifted by.
pub const ID_BASE: u64 = 8_300_000;

/// The draw for the request number is taken from `0..ID_DRAW_RANGE`.
pub const ID_DRAW_RANGE: u32 = 99_999;

/// The timestamp the service expects for a raw clock reading `ts` and a text
/// holding `i_count` letters `i`: unchanged when there are none, otherwise
/// rounded down to a multiple of `i_count + 1` and raised by `i_count + 1`.
pub open spec fn timestamp_for(ts: nat, i_count: nat) -> nat {
    if i_count == 0 {
        ts
    } else {
        (ts - ts % (i_count + 1) + (i_count + 1)) as nat
    }
}

/// With no letter `i` the timestamp is the raw reading; with some, it is the
/// next multiple of `i_count + 1` strictly above the reading rounded down to
/// such a multiple, hence a multiple of `i_count + 1` in
/// `(ts, ts + i_count + 1]`.
pub proof fn lemma_timestamp_shape(ts: nat, i_count: nat)
    ensures
        i_count == 0 ==> timestamp_for(ts, i_count) == ts,
        i_count > 0 ==> timestamp_for(ts, i_count) == ts - ts % (i_count + 1) + (i_count + 1),
        i_count > 0 ==> timestamp_for(ts, i_count) % (i_count + 1) == 0,
        i_count > 0 ==> ts < timestamp_for(ts, i_count) <= ts + i_count + 1,
{
    if i_count > 0 {
        let m = i_count + 1;
        let r = ts % m;
        vstd::arithmetic::div_mod::lemma_fundamental_div_mod(ts as int, m as int);
        vstd::arithmetic::div_mod::lemma_mod_bound(ts as int, m as int);
        let q = ts / m;
        assert(ts - r + m == (q + 1) * m) by (nonlinear_arith)
            requires
                ts == m * q + r,
        ;
        vstd::arithmetic::div_mod::lemma_mod_multiples_basic((q + 1) as int, m as int);
    }
}

/// The request number for a draw `k`.
pub open spec fn request_id_for(k: nat) -> nat {
    ((k + ID_BASE) * 1000 + 1) as nat
}

/// Whether request `id` writes its method with spaces around the colon.
pub open spec fn spaced_method(id: nat) -> bool {
    (id + 5) % 29 == 0 || (id + 3) % 13 == 0
}

/// The method member of the request body, in the spacing that `id` calls for.
pub open spec fn method_member(id: nat) -> Seq<char> {
    if spaced_method(id) {
        "\"method\" : \"LMT_handle_texts\""@
    } else {
        "\"method\":\"LMT_handle_texts\""@
    }
}

/// The whole request body, byte for byte.
pub open spec fn keyless_body(
    id: nat,
    from: Seq<char>,
    to: Seq<char>,
    text: Seq<char>,
    timestamp: nat,
) -> Seq<char> {
    "{\"jsonrpc\":\"2.0\","@ + method_member(id) + ",\"id\":"@ + decimal_digits(id)
        + ",\"params\":{\"texts\":[{\"text\":"@ + json_quoted(text)
        + ",\"requestAlternatives\":3}],\"splitting\":\"newlines\",\"lang\":{\"source_lang_user_selected\":"@
        + json_quoted(from) + ",\"target_lang\":"@ + json_quoted(to) + "},\"timestamp\":"@
        + decimal_digits(timestamp)
        + ",\"commonJobParams\":{\"was_spoken\":false,\"transcribe_as\":\"\"}}}"@
}

/// The endpoint of the keyless backend.
pub open spec fn keyless_url() -> Seq<char> {
    "https://www2.deepl.com/jsonrpc"@
}

/// The fixed headers that make the request look like the vendor's iOS client.
pub open spec fn keyless_header_table() -> Seq<(&'static str, &'static str)> {
    seq![
        ("Content-Type", "application/json"),
        ("Accept", "*/*"),
        ("x-app-os-name", "iOS"),
        ("x-app-os-version", "16.3.0"),
        ("Accept-Language", "en-US,en;q=0.9"),
        ("x-app-device", "iPhone13,2"),
        ("User-Agent", "DeepL-iOS/2.9.1 iOS 16.3.0 (iPhone13,2)"),
        ("x-app-build", "510265"),
        ("x-app-version", "2.9.1"),
        ("Connection", "keep-alive"),
    ]
}

/// Relies on rand's `thread_rng().gen_range(0..n)`: a value in `0..n`, which
/// it panics on only when the range is empty.
#[verifier::external_body]
fn random_below(n: u32) -> (r: u32)
    requires
        n > 0,
    ensures
        r < n,
{
    rand::thread_rng().gen_range(0..n)
}

/// Relies on `UNIX_EPOCH.elapsed()`: the time from the Unix epoch to the
/// current system time, here in milliseconds, or `None` when the clock reads
/// earlier than the epoch. Nothing is known of the value.
#[verifier::external_body]
fn epoch_millis() -> (r: Option<u128>) {
    std::time::UNIX_EPOCH.elapsed().ok().map(|d| d.as_millis())
}

/// Number of letters `i` in the text to translate.
pub fn get_i_count(translate_text: &str) -> (r: u64)
    ensures
        r == count_char(translate_text@, 'i'),
{
    count_occurrences(translate_text, 'i') as u64
}

/// The request base for a draw `draw`: `(draw + ID_BASE) * 1000`.
pub fn request_base(draw: u32) -> (r: u64)
    requires
        draw < ID_DRAW_RANGE,
    ensures
        r == (draw + ID_BASE) * 1000,
        r + 1 == request_id_for(draw as nat),
{
    (draw as u64 + ID_BASE) * 1000
}

/// A fresh random request base: `request_base` of a draw from
/// `0..ID_DRAW_RANGE`.
pub fn get_random_number() -> (r: u64)
    ensures
        exists|k: nat| k < ID_DRAW_RANGE && r + 1 == request_id_for(k),
{
    request_base(random_below(ID_DRAW_RANGE))
}

/// Applies the timestamp transform to a raw clock reading whose result fits.
pub fn derive_timestamp(ts: u64, i_count: u64) -> (r: u64)
    requires
        timestamp_for(ts as nat, i_count as nat) <= u64::MAX,
    ensures
        r == timestamp_for(ts as nat, i_count as nat),
{
    if i_count != 0 {
        assert((ts as int) % (i_count as int + 1) <= ts as int) by (nonlinear_arith)
            requires
                i_count as int + 1 > 0,
        ;
        let m = i_count + 1;
        ts - ts % m + m
    } else {
        ts
    }
}

/// The timestamp for a clock reading in milliseconds since the epoch (`None`
/// when the clock reads before it) and a text holding `i_count` letters `i`:
/// `None` exactly when there is no reading or the result does not fit.
pub fn timestamp_from_clock(reading: Option<u128>, i_count: u64) -> (r: Option<u64>)
    ensures
        reading is None ==> r is None,
        reading matches Some(ms) ==> ((r is Some) <==> (ms <= u64::MAX && timestamp_for(
            ms as nat,
            i_count as nat,
        ) <= u64::MAX)),
        reading matches Some(ms) ==> (r matches Some(t) ==> t == timestamp_for(
            ms as nat,
            i_count as nat,
        )),
{
    match reading {
        None => None,
        Some(ms) => {
            if ms > u64::MAX as u128 {
                return None;
            }
            let ts = ms as u64;
            if i_count == 0 {
                return Some(derive_timestamp(ts, i_count));
            }
            assert((ts as int) % (i_count as int + 1) <= ts as int) by (nonlinear_arith)
                requires
                    i_count as int + 1 > 0,
            ;
            if i_count == u64::MAX {
                return None;
            }
            let m = i_count + 1;
            if ts - ts % m > u64::MAX - m {
                None
            } else {
                Some(derive_timestamp(ts, i_count))
            }
        },
    }
}

/// The timestamp to send with a text holding `i_count` letters `i`, taken
/// from the clock now; `None` when the clock reads before the epoch or so far
/// after it that the result would not fit.
pub fn get_time_stamp(i_count: u64) -> (r: Option<u64>)
    ensures
        r matches Some(t) ==> exists|ts: u64| t == timestamp_for(ts as nat, i_count as nat),
{
    timestamp_from_clock(epoch_millis(), i_count)
}

/// Whether request `id` takes the spaced method member.
pub fn uses_spaced_method(id: u64) -> (r: bool)
    ensures
        r == spaced_method(id as nat),
{
    id % 29 == 24 || id % 13 == 10
}

/// The fixed header set of the keyless backend.
pub fn keyless_headers() -> (r: Vec<(&'static str, &'static str)>)
    ensures
        r@ == keyless_header_table(),
{
    vec![
        ("Content-Type", "application/json"),
        ("Accept", "*/*"),
        ("x-app-os-name", "iOS"),
        ("x-app-os-version", "16.3.0"),
        ("Accept-Language", "en-US,en;q=0.9"),
        ("x-app-device", "iPhone13,2"),
        ("User-Agent", "DeepL-iOS/2.9.1 iOS 16.3.0 (iPhone13,2)"),
        ("x-app-build", "510265"),
        ("x-app-version", "2.9.1"),
        ("Connection", "keep-alive"),
    ]
}

/// Builds the request body for request `id`, translating `content` from
/// `from` to `to`, stamped with `timestamp`.
pub fn create_post_data(id: u64, from: &str, to: &str, content: &str, timestamp: u64) -> (r: String)
    ensures
        r@ == keyless_body(id as nat, from@, to@, content@, timestamp as nat),
{
    let mut r = String::from_str("{\"jsonrpc\":\"2.0\",");
    if uses_spaced_method(id) {
        r.append("\"method\" : \"LMT_handle_texts\"");
    } else {
        r.append("\"method\":\"LMT_handle_texts\"");
    }
    r.append(",\"id\":");
    r.append(decimal(id).as_str());
    r.append(",\"params\":{\"texts\":[{\"text\":");
    r.append(json_string(content).as_str());
    r.append(",\"requestAlternatives\":3}],\"splitting\":\"newlines\",\"lang\":{\"source_lang_user_selected\":");
    r.append(json_string(from).as_str());
    r.append(",\"target_lang\":");
    r.append(json_string(to).as_str());
    r.append("},\"timestamp\":");
    r.append(decimal(timestamp).as_str());
    r.append(",\"commonJobParams\":{\"was_spoken\":false,\"transcribe_as\":\"\"}}}");
    r
}

/// The call that asks the keyless backend to translate `content` from `from`
/// to `to`, with a fresh request number and the current time; `None` when the
/// clock gives no usable time.
pub fn keyless_call(from: &str, to: &str, content: &str) -> (r: Option<HttpCall>)
    ensures
        r matches Some(c) ==> {
            &&& c.url@ == keyless_url()
            &&& c.headers@ == keyless_header_table()
            &&& exists|k: nat, ts: nat|
                k < ID_DRAW_RANGE && #[trigger] keyless_body(
                    request_id_for(k),
                    from@,
                    to@,
                    content@,
                    timestamp_for(ts, count_char(content@, 'i')),
                ) == c.body@
        },
{
    let id = get_random_number() + 1;
    match get_time_stamp(get_i_count(content)) {
        Some(timestamp) => {
            let body = create_post_data(id, from, to, content, timestamp);
            let url = String::from_str("https://www2.deepl.com/jsonrpc");
            Some(HttpCall { url, headers: keyless_headers(), body })
        },
        None => None,
    }
}

/// The outcome of a keyless call from its status, its raw body, and the body
/// decoded as a reply (or why it could not be). The translation is the first
/// text of the reply; a reply without any is malformed.
pub fn keyless_outcome(status: u16, body: String, decoded: Result<DeepLResponse, String>) -> (r: Result<
    TranslationResult,
    ProtocolError,
>)
    ensures
        status != STATUS_OK ==> r == Err::<TranslationResult, ProtocolError>(
            ProtocolError::UnexpectedStatus(status, body),
        ),
        status == STATUS_OK ==> match decoded {
            Ok(x) => if x.result.texts@.len() > 0 {
                r matches Ok(t) && t.primary_text@ == x.result.texts@[0].text@ && texts_of(
                    t.alternatives@,
                ) == alternative_texts(x.result.texts@[0].alternatives@)
            } else {
                r matches Err(ProtocolError::MalformedResponse(_))
            },
            Err(d) => r == Err::<TranslationResult, ProtocolError>(
                ProtocolError::MalformedResponse(d),
            ),
        },
{
    if status != STATUS_OK {
        return Err(ProtocolError::UnexpectedStatus(status, body));
    }
    match decoded {
        Ok(x) => {
            if x.result.texts.len() == 0 {
                return Err(ProtocolError::MalformedResponse(String::from_str("the reply holds no translated text")));
            }
            let first = &x.result.texts[0];
            let alternatives = collect_alternatives(&first.alternatives);
            Ok(TranslationResult { primary_text: first.text.clone(), alternatives })
        },
        Err(d) => Err(ProtocolError::MalformedResponse(d)),
    }
}

/// The request body carries the method member in the spacing that the
/// request number calls for: spaced around the colon when `id + 5` is a
/// multiple of 29 or `id + 3` a multiple of 13, tight otherwise.
pub proof fn lemma_body_method_spacing(id: nat, from: Seq<char>, to: Seq<char>, text: Seq<char>, timestamp: nat)
    ensures
        ({
            let body = keyless_body(id, from, to, text, timestamp);
            let start = "{\"jsonrpc\":\"2.0\","@.len();
            let m = if spaced_method(id) {
                "\"method\" : \"LMT_handle_texts\""@
            } else {
                "\"method\":\"LMT_handle_texts\""@
            };
            body.subrange(start as int, (start + m.len()) as int) == m
        }),
{
    let body = keyless_body(id, from, to, text, timestamp);
    let head = "{\"jsonrpc\":\"2.0\","@;
    let m = method_member(id);
    let rest = body.subrange((head.len() + m.len()) as int, body.len() as int);
    assert(body =~= head + m + rest);
    assert(body.subrange(head.len() as int, (head.len() + m.len()) as int) =~= m);
}

} // verus!
