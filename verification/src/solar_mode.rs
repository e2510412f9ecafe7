//! The mode of the solar controller: how it is commanded and published.

use crate::bytes::text_from_utf8;
use crate::solar_config::SolarControlConfig;
use crate::text::{eq_ignore_case, same_ignoring_case, trim, trimmed};
use vstd::prelude::*;
use vstd::utf8::{
    decode_utf8, encode_utf8, encode_utf8_decode_utf8, encode_utf8_valid_utf8, valid_utf8,
};

verus! {

broadcast use vstd::string::group_string_axioms;

/// Whether a text turns the solar mode on, in any ASCII case.
pub open spec fn turns_on(s: Seq<char>, on_payload: Seq<char>) -> bool {
    ||| same_ignoring_case(s, on_payload)
    ||| same_ignoring_case(s, "ON"@)
    ||| same_ignoring_case(s, "TRUE"@)
    ||| same_ignoring_case(s, "1"@)
    ||| same_ignoring_case(s, "SOLAR"@)
}

/// Whether a text is one of those that turn the solar mode off, in any ASCII case.
pub open spec fn says_off(s: Seq<char>) -> bool {
    ||| same_ignoring_case(s, "OFF"@)
    ||| same_ignoring_case(s, "FALSE"@)
    ||| same_ignoring_case(s, "0"@)
    ||| same_ignoring_case(s, "FIXED"@)
}

/// The mode that a payload commands, if any. What turns the mode on comes first.
pub open spec fn commanded_mode(payload: Seq<u8>, on_payload: Seq<char>) -> Option<bool> {
    if !valid_utf8(payload) {
        None
    } else {
        let s = trimmed(decode_utf8(payload));
        if turns_on(s, on_payload) {
            Some(true)
        } else if says_off(s) {
            Some(false)
        } else {
            None
        }
    }
}

/// The mode that a payload commands, if any.
pub fn parse_mode(payload: &[u8], mode_on_payload: &str) -> (mode: Option<bool>)
    ensures
        mode == commanded_mode(payload@, mode_on_payload@),
{
    let s = match text_from_utf8(payload) {
        Some(text) => trim(text),
        None => {
            return None;
        },
    };
    if eq_ignore_case(s, mode_on_payload) || eq_ignore_case(s, "ON") || eq_ignore_case(s, "TRUE")
        || eq_ignore_case(s, "1") || eq_ignore_case(s, "SOLAR") {
        return Some(true);
    }
    if eq_ignore_case(s, "OFF") || eq_ignore_case(s, "FALSE") || eq_ignore_case(s, "0")
        || eq_ignore_case(s, "FIXED") {
        return Some(false);
    }
    None
}

/// What is published for a mode.
pub open spec fn mode_payload_of(cfg: SolarControlConfig, solar_mode: bool) -> Seq<char> {
    if solar_mode {
        cfg.mode_on_payload@
    } else {
        cfg.mode_off_payload@
    }
}

/// What is published for a mode.
pub fn mode_payload(cfg: &SolarControlConfig, solar_mode: bool) -> (payload: String)
    ensures
        payload@ == mode_payload_of(*cfg, solar_mode),
        solar_mode ==> payload@ == cfg.mode_on_payload@,
        !solar_mode ==> payload@ == cfg.mode_off_payload@,
{
    if solar_mode {
        cfg.mode_on_payload.clone()
    } else {
        cfg.mode_off_payload.clone()
    }
}

/// What is published for a mode commands that mode. For the solar mode, the
/// payload has no white space at its ends, which would be lost on reading, or
/// is understood without it; for the fixed mode, it is one of the words for
/// off and none that turns the mode on.
pub proof fn law_published_mode_is_understood(cfg: SolarControlConfig, solar_mode: bool)
    requires
        solar_mode ==> trimmed(cfg.mode_on_payload@) == cfg.mode_on_payload@ || turns_on(
            trimmed(cfg.mode_on_payload@),
            cfg.mode_on_payload@,
        ),
        !solar_mode ==> says_off(trimmed(cfg.mode_off_payload@)) && !turns_on(
            trimmed(cfg.mode_off_payload@),
            cfg.mode_on_payload@,
        ),
    ensures
        commanded_mode(encode_utf8(mode_payload_of(cfg, solar_mode)), cfg.mode_on_payload@) == Some(
            solar_mode,
        ),
{
    let payload = mode_payload_of(cfg, solar_mode);
    encode_utf8_valid_utf8(payload);
    encode_utf8_decode_utf8(payload);
}

} // verus!
