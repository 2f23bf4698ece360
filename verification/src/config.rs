//! What the server is configured with: its targets, who may use them, and
//! for how long.
use crate::probe::connect::Opts;
use crate::probe::specifier::ProbeSpecifier;
use crate::text::{chars_of, str_eq, string_of};
use vstd::prelude::*;

verus! {

/// Seconds a run may take when the client names no timeout.
pub fn default_default_timeout() -> (seconds: u64)
    ensures
        seconds == 10,
{
    10
}

/// Seconds that no run may exceed.
pub fn default_max_timeout() -> (seconds: u64)
    ensures
        seconds == 60,
{
    60
}

/// Milliseconds for which a power cycle leaves the port without power.
pub fn default_cycle_delay_millis() -> (millis: u64)
    ensures
        millis == 500,
{
    500
}

/// Milliseconds that a probe gets to appear.
pub fn default_max_settle_time_millis() -> (millis: u64)
    ensures
        millis == 20000,
{
    20000
}

/// Who may use the server by a shared token.
#[derive(Debug)]
pub struct TokenAuth {
    pub token: String,
}

/// One rule on the claims of an identity token: every claim named must have
/// the value given.
#[derive(Debug)]
pub struct OidcAuthRule {
    pub claims: Vec<(String, String)>,
}

/// Who may use the server by an identity token: the issuer, and the rules
/// of which one must hold of the token's claims.
#[derive(Debug)]
pub struct OidcAuth {
    pub issuer: String,
    pub rules: Vec<OidcAuthRule>,
}

/// One way to be let in.
#[derive(Debug)]
pub enum Auth {
    Oidc(OidcAuth),
    Token(TokenAuth),
}

impl Auth {
    /// The name of the method.
    pub fn to_string(&self) -> (name: String)
        ensures
            name@ == (match *self {
                Auth::Oidc(_) => "OIDC"@,
                Auth::Token(_) => "Token"@,
            }),
    {
        match self {
            Auth::Oidc(_) => string_of(&chars_of("OIDC")),
            Auth::Token(_) => string_of(&chars_of("Token")),
        }
    }
}

/// One target: a chip behind a probe.
#[derive(Debug)]
pub struct Target {
    pub name: String,
    pub chip: String,
    pub probe: ProbeSpecifier,
    pub connect_under_reset: bool,
    pub speed: Option<u32>,
    pub power_reset: bool,
    pub cycle_delay_millis: u64,
    pub max_settle_time_millis: u64,
}

/// A list of targets.
#[derive(Debug)]
pub struct TargetList {
    pub targets: Vec<Target>,
}

/// The configuration of the server.
#[derive(Debug)]
pub struct Config {
    pub targets: Vec<Target>,
    pub auths: Vec<Auth>,
    pub default_timeout: u64,
    pub max_timeout: u64,
}

/// The seconds that a run gets: what the client asks for, or the default
/// where it asks for nothing, and never more than the maximum.
pub open spec fn effective_timeout(client: Option<u64>, default: u64, max: u64) -> u64 {
    let asked = match client {
        Some(t) => t,
        None => default,
    };
    if asked <= max {
        asked
    } else {
        max
    }
}

/// The position of the first target with the name, if there is one.
pub open spec fn target_at(targets: Seq<Target>, name: Seq<char>) -> Option<int>
    decreases targets.len(),
{
    if targets.len() == 0 {
        None
    } else {
        match target_at(targets.drop_last(), name) {
            Some(i) => Some(i),
            None => if targets.last().name@ == name {
                Some(targets.len() - 1)
            } else {
                None
            },
        }
    }
}

/// A target found among the first `k` is the one found in the whole list.
pub proof fn lemma_target_stays(targets: Seq<Target>, name: Seq<char>, k: int)
    requires
        0 <= k <= targets.len(),
        target_at(targets.take(k), name) is Some,
    ensures
        target_at(targets, name) == target_at(targets.take(k), name),
    decreases targets.len() - k,
{
    if k == targets.len() {
        assert(targets.take(k) == targets);
    } else {
        assert(targets.take(k + 1).drop_last() == targets.take(k));
        lemma_target_stays(targets, name, k + 1);
    }
}

impl Config {
    /// The seconds that a run gets.
    pub fn timeout_for(&self, client: Option<u64>) -> (seconds: u64)
        ensures
            seconds == effective_timeout(client, self.default_timeout, self.max_timeout),
            seconds <= self.max_timeout,
    {
        let asked = match client {
            Some(t) => t,
            None => self.default_timeout,
        };
        if asked <= self.max_timeout {
            asked
        } else {
            self.max_timeout
        }
    }

    /// Finds the first target with the name.
    pub fn find_target(&self, name: &str) -> (r: Option<usize>)
        ensures
            match r {
                Some(i) => target_at(self.targets@, name@) == Some(i as int) && i
                    < self.targets.len() && self.targets[i as int].name@ == name@,
                None => target_at(self.targets@, name@) is None,
            },
    {
        let mut i: usize = 0;
        while i < self.targets.len()
            invariant
                i <= self.targets.len(),
                target_at(self.targets@.take(i as int), name@) is None,
            decreases self.targets.len() - i,
        {
            assert(self.targets@.take(i + 1).drop_last() == self.targets@.take(i as int));
            assert(self.targets@.take(i + 1).last() == self.targets@[i as int]);
            if str_eq(self.targets[i].name.as_str(), name) {
                proof {
                    lemma_target_stays(self.targets@, name@, i + 1);
                }
                return Some(i);
            }
            i += 1;
        }
        assert(self.targets@.take(self.targets@.len() as int) == self.targets@);
        None
    }
}

impl Target {
    /// The options under which the target's probe is connected to.
    pub fn probe_opts(&self) -> (opts: Opts)
        ensures
            opts.probe matches Some(p) && p@ == self.probe@,
            opts.speed == self.speed,
            opts.chip@ == self.chip@,
            opts.connect_under_reset == self.connect_under_reset,
            opts.power_reset == self.power_reset,
            opts.cycle_delay_millis == self.cycle_delay_millis,
            opts.max_settle_time_millis == self.max_settle_time_millis,
            opts.protocol is None,
    {
        Opts {
            probe: Some(
                ProbeSpecifier {
                    vid_pid: self.probe.vid_pid,
                    serial: match &self.probe.serial {
                        Some(s) => Some(s.clone()),
                        None => None,
                    },
                },
            ),
            speed: self.speed,
            chip: self.chip.clone(),
            connect_under_reset: self.connect_under_reset,
            power_reset: self.power_reset,
            cycle_delay_millis: self.cycle_delay_millis,
            max_settle_time_millis: self.max_settle_time_millis,
            protocol: None,
        }
    }
}

/// A run gets what the client asks for where that is within the maximum,
/// the default where the client asks for nothing and the default is within
/// the maximum, and the maximum where the client asks for more.
pub proof fn lemma_timeout_clamped(client: Option<u64>, default: u64, max: u64)
    ensures
        effective_timeout(client, default, max) <= max,
        client is Some && client->0 <= max ==> effective_timeout(client, default, max) == client->0,
        client is Some && client->0 > max ==> effective_timeout(client, default, max) == max,
        client is None && default <= max ==> effective_timeout(client, default, max) == default,
        client is None && default > max ==> effective_timeout(client, default, max) == max,
{
}

} // verus!
