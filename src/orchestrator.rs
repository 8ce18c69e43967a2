//! The decisions taken on an activation: whether to translate at all, with
//! which backend, what to send, and where to place the panel.
use vstd::prelude::*;
use crate::client::{HttpCall, TranslationRequest};
use crate::config::Config;
use crate::encode::count_char;
use crate::translate::{
    keyless_body, keyless_call, keyless_header_table, keyless_url, request_id_for, timestamp_for,
    ID_DRAW_RANGE,
};
use crate::translate_with_api_key::{keyed_body, keyed_call, keyed_url};

verus! {

/// Which backend serves a translation.
#[derive(Debug)]
pub enum Backend {
    /// The relay, with the user's key.
    Keyed(String),
    /// The vendor's endpoint, without a key.
    Keyless,
}

/// What an activation leads to.
#[derive(Debug)]
pub enum Activation {
    /// Nothing is selected: no panel, no request.
    Ignore,
    /// Show the panel and translate this.
    Translate(TranslationRequest),
}

/// Horizontal shift of the panel from the pointer.
pub const PANEL_OFFSET_X: i32 = 60;

/// Vertical shift of the panel from the pointer.
pub const PANEL_OFFSET_Y: i32 = 20;

/// The backend that the settings select: the relay exactly when a key is set.
pub fn choose_backend(config: &Config) -> (r: Backend)
    ensures
        config.api_key matches Some(k) ==> r matches Backend::Keyed(k2) && k2@ == k@,
        config.api_key is None ==> r is Keyless,
{
    match &config.api_key {
        Some(k) => Backend::Keyed(k.clone()),
        None => Backend::Keyless,
    }
}

/// Decides what to do with the text selected at activation time, under a
/// snapshot of the settings.
pub fn plan_activation(config: &Config, selected: String) -> (r: Activation)
    ensures
        selected@.len() == 0 <==> r is Ignore,
        r matches Activation::Translate(req) ==> {
            &&& req.text@ == selected@
            &&& req.source_language@ == config.from@
            &&& req.target_language@ == config.to@
        },
{
    if selected.as_str().unicode_len() == 0 {
        Activation::Ignore
    } else {
        Activation::Translate(
            TranslationRequest {
                source_language: config.from.clone(),
                target_language: config.to.clone(),
                text: selected,
            },
        )
    }
}

/// The HTTP call that carries `req` to `backend`; `None` only for the
/// keyless backend when the clock gives no usable time.
pub fn prepare_call(backend: &Backend, req: &TranslationRequest) -> (r: Option<HttpCall>)
    ensures
        backend matches Backend::Keyed(k) ==> r matches Some(c) && c.url@ == keyed_url(k@)
            && c.headers@.len() == 0 && c.body@ == keyed_body(
            req.source_language@,
            req.target_language@,
            req.text@,
        ),
        backend is Keyless ==> (r matches Some(c) ==> {
            &&& c.url@ == keyless_url()
            &&& c.headers@ == keyless_header_table()
            &&& exists|k: nat, ts: nat|
                k < ID_DRAW_RANGE && #[trigger] keyless_body(
                    request_id_for(k),
                    req.source_language@,
                    req.target_language@,
                    req.text@,
                    timestamp_for(ts, count_char(req.text@, 'i')),
                ) == c.body@
        }),
{
    match backend {
        Backend::Keyed(k) => Some(
            keyed_call(
                req.source_language.as_str(),
                req.target_language.as_str(),
                req.text.as_str(),
                k.as_str(),
            ),
        ),
        Backend::Keyless => keyless_call(
            req.source_language.as_str(),
            req.target_language.as_str(),
            req.text.as_str(),
        ),
    }
}

/// Where the panel goes for a pointer at `mouse`: a little left of and below
/// it, or the screen origin when the pointer position is unknown.
pub fn panel_position(mouse: Option<(i32, i32)>) -> (r: (i32, i32))
    requires
        mouse matches Some((x, y)) ==> x >= i32::MIN + PANEL_OFFSET_X && y <= i32::MAX
            - PANEL_OFFSET_Y,
    ensures
        mouse matches Some((x, y)) ==> r.0 == x - PANEL_OFFSET_X && r.1 == y + PANEL_OFFSET_Y,
        mouse is None ==> r == (0i32, 0i32),
{
    match mouse {
        Some((x, y)) => (x - PANEL_OFFSET_X, y + PANEL_OFFSET_Y),
        None => (0, 0),
    }
}

} // verus!
