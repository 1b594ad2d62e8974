//! Connection settings and client identities shared by the bus adapters.
use vstd::prelude::*;
use vstd::string::StringExecFns;
use crate::data::ElId;

verus! {

/// Length of the random part of a client identity.
pub const CLIENT_NONCE_LEN: usize = 30;

/// Seconds between keep-alive pings.
pub const KEEP_ALIVE_SECS: u64 = 30;

/// Shortest wait before an automatic reconnect, in seconds.
pub const RECONNECT_MIN_SECS: u64 = 1;

/// Longest wait before an automatic reconnect, in seconds.
pub const RECONNECT_MAX_SECS: u64 = 16;

/// The protocol version asked for: MQTT 3.1.1.
pub const MQTT_VERSION_3_1_1: u32 = 4;

/// The delivery quality of every subscription and publish: at least once.
pub const DELIVERY_QOS: i32 = 1;

pub open spec fn is_alphanumeric(c: char) -> bool {
    ('A' <= c && c <= 'Z') || ('a' <= c && c <= 'z') || ('0' <= c && c <= '9')
}

/// Relies on `rand::distributions::Alphanumeric` sampled from `thread_rng`: one
/// byte of `A-Z`, `a-z` or `0-9`, here as a one-character string.
#[verifier::external_body]
fn random_alphanumeric_char() -> (r: String)
    ensures
        r@.len() == 1,
        is_alphanumeric(r@[0]),
{
    let b: u8 = rand::Rng::sample(&mut rand::thread_rng(), rand::distributions::Alphanumeric);
    char::from(b).to_string()
}

/// A random text of `CLIENT_NONCE_LEN` ASCII letters and digits.
pub fn random_alphanumeric() -> (r: String)
    ensures
        r@.len() == CLIENT_NONCE_LEN,
        forall|i: int| 0 <= i < r@.len() ==> is_alphanumeric(#[trigger] r@[i]),
{
    let mut s = String::new();
    let mut i: usize = 0;
    while i < CLIENT_NONCE_LEN
        invariant
            i <= CLIENT_NONCE_LEN,
            s@.len() == i,
            forall|j: int| 0 <= j < s@.len() ==> is_alphanumeric(#[trigger] s@[j]),
        decreases CLIENT_NONCE_LEN - i,
    {
        let c = random_alphanumeric_char();
        let ghost before = s@;
        s.append(c.as_str());
        assert(s@ == before + c@);
        assert forall|j: int| 0 <= j < s@.len() implies is_alphanumeric(#[trigger] s@[j]) by {
            if j < before.len() {
                assert(s@[j] == before[j]);
            } else {
                assert(s@[j] == c@[j - before.len()]);
            }
        }
        i = i + 1;
    }
    s
}

/// The client identity `mqrt-<direction>-<id>-<nonce>`.
pub fn client_id(direction: &str, id: &ElId, nonce: &str) -> (r: String)
    ensures
        r@ == seq!['m', 'q', 'r', 't', '-'] + direction@ + seq!['-'] + id@ + seq!['-'] + nonce@,
{
    let mut s = String::from_str("mqrt-");
    s.append(direction);
    s.append("-");
    s.append(id.id.as_str());
    s.append("-");
    s.append(nonce);
    proof {
        reveal_strlit("mqrt-");
        reveal_strlit("-");
        assert("mqrt-"@ =~= seq!['m', 'q', 'r', 't', '-']);
        assert("-"@ =~= seq!['-']);
    }
    s
}

/// A copy of an optional text.
pub fn copy_text(o: &Option<String>) -> (r: Option<String>)
    ensures
        r == *o,
{
    match o {
        Some(s) => Some(s.clone()),
        None => None,
    }
}

/// How an adapter connects to the bus: a keep-alive interval, automatic
/// reconnects with a bounded wait, protocol 3.1.1, a clean session, and the
/// optional credentials.
#[derive(Debug, Clone)]
pub struct ConnectSettings {
    pub keep_alive_secs: u64,
    pub reconnect_min_secs: u64,
    pub reconnect_max_secs: u64,
    pub mqtt_version: u32,
    pub clean_session: bool,
    pub username: Option<String>,
    pub password: Option<String>,
}

impl ConnectSettings {
    pub open spec fn fixed_part(&self) -> bool {
        &&& self.keep_alive_secs == KEEP_ALIVE_SECS
        &&& self.reconnect_min_secs == RECONNECT_MIN_SECS
        &&& self.reconnect_max_secs == RECONNECT_MAX_SECS
        &&& self.mqtt_version == MQTT_VERSION_3_1_1
        &&& self.clean_session
    }

    pub fn with_credentials(username: &Option<String>, password: &Option<String>) -> (r: ConnectSettings)
        ensures
            r.fixed_part(),
            r.username == *username,
            r.password == *password,
    {
        ConnectSettings {
            keep_alive_secs: KEEP_ALIVE_SECS,
            reconnect_min_secs: RECONNECT_MIN_SECS,
            reconnect_max_secs: RECONNECT_MAX_SECS,
            mqtt_version: MQTT_VERSION_3_1_1,
            clean_session: true,
            username: copy_text(username),
            password: copy_text(password),
        }
    }
}

} // verus!
