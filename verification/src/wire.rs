//! Construction of the outbound wire data: the two immutable trigger URLs
//! and the JSON body carried by the volume trigger.
//!
//! The targets are resolved once from configuration before the listener is
//! registered and are read-only thereafter; the body is rebuilt per
//! dispatch from the integer percentage.

use vstd::prelude::*;

verus! {

/// The decimal digit character for `d`.
pub open spec fn digit_char(d: int) -> char {
    if d == 0 {
        '0'
    } else if d == 1 {
        '1'
    } else if d == 2 {
        '2'
    } else if d == 3 {
        '3'
    } else if d == 4 {
        '4'
    } else if d == 5 {
        '5'
    } else if d == 6 {
        '6'
    } else if d == 7 {
        '7'
    } else if d == 8 {
        '8'
    } else {
        '9'
    }
}

/// Decimal notation of a percentage in [0, 100]: one to three digits, no
/// leading zero.
pub open spec fn decimal_chars(n: int) -> Seq<char> {
    if n >= 100 {
        seq!['1', '0', '0']
    } else if n >= 10 {
        seq![digit_char(n / 10), digit_char(n % 10)]
    } else {
        seq![digit_char(n)]
    }
}

/// The JSON body of the volume trigger: the single key `"data"` mapped to
/// the integer volume.
pub open spec fn volume_body_chars(n: int) -> Seq<char> {
    seq!['{', '"', 'd', 'a', 't', 'a', '"', ':'] + decimal_chars(n) + seq!['}']
}

/// A fully resolved trigger URL:
/// `http://{endpoint}/interact/trigger/{trigger}`.
pub open spec fn trigger_url_chars(endpoint: Seq<char>, trigger: Seq<char>) -> Seq<char> {
    "http://"@ + endpoint + "/interact/trigger/"@ + trigger
}

fn digit_str(d: u32) -> (s: &'static str)
    requires
        d < 10,
    ensures
        s@ == seq![digit_char(d as int)],
{
    let s: &'static str = match d {
        0 => "0",
        1 => "1",
        2 => "2",
        3 => "3",
        4 => "4",
        5 => "5",
        6 => "6",
        7 => "7",
        8 => "8",
        _ => "9",
    };
    proof {
        reveal_strlit("0");
        reveal_strlit("1");
        reveal_strlit("2");
        reveal_strlit("3");
        reveal_strlit("4");
        reveal_strlit("5");
        reveal_strlit("6");
        reveal_strlit("7");
        reveal_strlit("8");
        reveal_strlit("9");
        assert(s@ =~= seq![digit_char(d as int)]);
    }
    s
}

/// Builds the JSON body sent to the volume trigger.
pub fn volume_body(volume: i32) -> (body: String)
    requires
        0 <= volume <= 100,
    ensures
        body@ == volume_body_chars(volume as int),
{
    let mut body = String::from_str("{\"data\":");
    let n = volume as u32;
    if n >= 100 {
        body.append("100");
    } else if n >= 10 {
        let tens = digit_str(n / 10);
        body.append(tens);
        let ones = digit_str(n % 10);
        body.append(ones);
    } else {
        let ones = digit_str(n);
        body.append(ones);
    }
    body.append("}");
    proof {
        reveal_strlit("{\"data\":");
        reveal_strlit("100");
        reveal_strlit("}");
        assert(body@ =~= volume_body_chars(volume as int));
    }
    body
}

/// Builds one fully resolved trigger URL from the configured endpoint and
/// trigger name.
pub fn trigger_url(endpoint: &str, trigger: &str) -> (url: String)
    ensures
        url@ == trigger_url_chars(endpoint@, trigger@),
{
    let mut url = String::from_str("http://");
    url.append(endpoint);
    url.append("/interact/trigger/");
    url.append(trigger);
    proof {
        assert(url@ =~= trigger_url_chars(endpoint@, trigger@));
    }
    url
}

/// The two immutable trigger targets, resolved once from configuration at
/// startup and shared by every dispatch.
pub struct TriggerTargets {
    /// Called with an empty body when the mute flag toggles.
    pub mute_url: String,
    /// Called with the JSON volume body when the percentage changes.
    pub volume_url: String,
}

impl TriggerTargets {
    /// Resolves both targets from the endpoint and the two trigger names.
    pub fn resolve(endpoint: &str, mute_trigger: &str, volchange_trigger: &str) -> (t:
        TriggerTargets)
        ensures
            t.mute_url@ == trigger_url_chars(endpoint@, mute_trigger@),
            t.volume_url@ == trigger_url_chars(endpoint@, volchange_trigger@),
    {
        TriggerTargets {
            mute_url: trigger_url(endpoint, mute_trigger),
            volume_url: trigger_url(endpoint, volchange_trigger),
        }
    }
}

} // verus!
