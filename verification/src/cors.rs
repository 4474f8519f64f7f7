//! Which origins may call the service from a browser.

use crate::text::{same_text, split, split_on, texts_of};
use vstd::prelude::*;
use vstd::string::StringSliceAdditionalSpecFns;

verus! {

/// The cross-origin policy of the service.
#[derive(Debug)]
pub enum CorsPolicy {
    /// Every origin may call.
    Any,
    /// These origins may call.
    List(Vec<String>),
}

/// The policy with its origins as characters.
pub enum PolicyModel {
    Any,
    List(Seq<Seq<char>>),
}

impl View for CorsPolicy {
    type V = PolicyModel;

    open spec fn view(&self) -> PolicyModel {
        match self {
            CorsPolicy::Any => PolicyModel::Any,
            CorsPolicy::List(origins) => PolicyModel::List(
                origins@.map_values(|origin: String| origin@),
            ),
        }
    }
}

/// What `str::trim` returns for a text.
pub uninterp spec fn trimmed_of(text: Seq<char>) -> Seq<char>;

/// `str::trim`: the text without leading and trailing whitespace, where
/// whitespace is what Unicode calls `White_Space`.
#[verifier::external_body]
fn trim<'a>(text: &'a str) -> (trimmed: &'a str)
    ensures
        trimmed@ == trimmed_of(text@),
{
    text.trim()
}

/// A byte that may stand in a header value: a tab, or any byte from 32 on
/// but 127.
pub open spec fn header_byte(byte: u8) -> bool {
    (byte >= 32 && byte != 127) || byte == 9
}

/// A text that is accepted as a header value.
pub open spec fn header_value(bytes: Seq<u8>) -> bool {
    forall|i: int| 0 <= i < bytes.len() ==> header_byte(#[trigger] bytes[i])
}

/// `axum::http::HeaderValue::from_str`, asked only whether it succeeds: it
/// does exactly if every byte of the text is a tab or at least 32 and not
/// 127.
#[verifier::external_body]
fn is_header_value(text: &str) -> (valid: bool)
    ensures
        valid == header_value(text.spec_bytes()),
{
    axum::http::HeaderValue::from_str(text).is_ok()
}

/// The origins that a list of pieces names: each piece trimmed, and those
/// kept that are header values, in order.
pub open spec fn accepted_origins(pieces: Seq<Seq<char>>) -> Seq<Seq<char>>
    decreases pieces.len(),
{
    if pieces.len() == 0 {
        Seq::empty()
    } else {
        let earlier = accepted_origins(pieces.drop_last());
        let origin = trimmed_of(pieces.last());
        if header_value(vstd::utf8::encode_utf8(origin)) {
            earlier.push(origin)
        } else {
            earlier
        }
    }
}

/// The policy for a setting. No setting, an empty one and `*` open the
/// service to every origin. Any other setting is a list of origins with commas
/// between them; if none of them is usable, the service is open to every origin
/// as well.
pub open spec fn policy_for(setting: Option<Seq<char>>) -> PolicyModel {
    match setting {
        Some(raw) if raw.len() > 0 && raw != "*"@ => {
            let origins = accepted_origins(split(raw, ','));
            if origins.len() == 0 {
                PolicyModel::Any
            } else {
                PolicyModel::List(origins)
            }
        },
        _ => PolicyModel::Any,
    }
}

/// The characters of an optional setting.
pub open spec fn setting_view(setting: Option<&str>) -> Option<Seq<char>> {
    match setting {
        Some(raw) => Some(raw@),
        None => None,
    }
}

/// The cross-origin policy for the configured list of allowed origins.
pub fn cors_policy(allowed_origins: Option<&str>) -> (policy: CorsPolicy)
    ensures
        policy@ == policy_for(setting_view(allowed_origins)),
{
    let raw = match allowed_origins {
        Some(raw) => raw,
        None => {
            return CorsPolicy::Any;
        },
    };
    if raw.is_empty() || same_text(raw, "*") {
        return CorsPolicy::Any;
    }
    let pieces = split_on(raw, ',');
    let mut origins: Vec<String> = Vec::new();
    let mut at: usize = 0;
    proof {
        assert(texts_of(pieces@).take(0) =~= Seq::<Seq<char>>::empty());
        assert(origins@.map_values(|origin: String| origin@) =~= Seq::<Seq<char>>::empty());
    }
    while at < pieces.len()
        invariant
            at <= pieces.len(),
            origins@.map_values(|origin: String| origin@) == accepted_origins(
                texts_of(pieces@).take(at as int),
            ),
        decreases pieces.len() - at,
    {
        proof {
            let next = texts_of(pieces@).take(at + 1);
            assert(next.drop_last() =~= texts_of(pieces@).take(at as int));
            assert(next.last() == pieces@[at as int]@);
        }
        let origin = trim(pieces[at]);
        let ghost before = origins@.map_values(|origin: String| origin@);
        if is_header_value(origin) {
            origins.push(String::from_str(origin));
            proof {
                assert(origins@.map_values(|origin: String| origin@) =~= before.push(origin@));
            }
        }
        at += 1;
    }
    proof {
        assert(texts_of(pieces@).take(at as int) =~= texts_of(pieces@));
    }
    if origins.len() == 0 {
        CorsPolicy::Any
    } else {
        CorsPolicy::List(origins)
    }
}

} // verus!
