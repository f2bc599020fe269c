use vstd::prelude::*;

use crate::dpop::DpopPolicy;
use crate::text::{chars_of, lower_seq, owned, push_char, push_str, same_text, to_ascii_lowercase};

verus! {

/// The deployment environment.
#[derive(Clone, Copy, Debug, PartialEq, Eq)]
pub enum AppEnv {
    Development,
    Production,
}

pub open spec fn production_name(s: Seq<char>) -> bool {
    lower_seq(s) == "production"@ || lower_seq(s) == "prod"@
}

impl AppEnv {
    /// `production` or `prod`, in any ASCII case, is production; anything else, development.
    pub fn from_name(name: &str) -> (r: AppEnv)
        ensures
            r == (if production_name(name@) {
                AppEnv::Production
            } else {
                AppEnv::Development
            }),
    {
        let lower = to_ascii_lowercase(name);
        if same_text(lower.as_str(), "production") || same_text(lower.as_str(), "prod") {
            AppEnv::Production
        } else {
            AppEnv::Development
        }
    }

    pub fn is_production(&self) -> (r: bool)
        ensures
            r == (*self == AppEnv::Production),
    {
        match self {
            AppEnv::Production => true,
            AppEnv::Development => false,
        }
    }
}

/// A configuration value that is missing or not valid.
#[derive(Clone, Copy, Debug, PartialEq, Eq)]
pub enum ConfigError {
    Missing(&'static str),
    Invalid(&'static str),
}

impl ConfigError {
    /// The text of the error: `missing configuration: <key>` or `invalid configuration: <key>`.
    pub fn message(&self) -> (r: String)
        ensures
            match *self {
                ConfigError::Missing(k) => r@ == "missing configuration: "@ + k@,
                ConfigError::Invalid(k) => r@ == "invalid configuration: "@ + k@,
            },
    {
        match self {
            ConfigError::Missing(k) => {
                let mut s = owned("missing configuration: ");
                push_str(&mut s, k);
                s
            },
            ConfigError::Invalid(k) => {
                let mut s = owned("invalid configuration: ");
                push_str(&mut s, k);
                s
            },
        }
    }
}

/// A setting that must fit a signed number of seconds.
pub fn u64_to_i64(v: u64) -> (r: Option<i64>)
    ensures
        r is Some <==> v <= i64::MAX,
        r matches Some(x) ==> x == v,
{
    if v > i64::MAX as u64 {
        None
    } else {
        Some(v as i64)
    }
}

/// The proof policy from its settings; `None` where a window does not fit a signed number of
/// seconds.
pub fn build_dpop_policy(
    required: bool,
    iat_leeway_seconds: u64,
    max_age_seconds: u64,
    replay_ttl_seconds: u64,
    require_ath: bool,
    require_nonce: bool,
) -> (r: Option<DpopPolicy>)
    ensures
        r is Some <==> iat_leeway_seconds <= i64::MAX && max_age_seconds <= i64::MAX,
        r matches Some(p) ==> p.wf() && p.required == required && p.iat_leeway_seconds
            == iat_leeway_seconds && p.max_age_seconds == max_age_seconds
            && p.replay_ttl_seconds == replay_ttl_seconds && p.require_ath == require_ath
            && p.require_nonce == require_nonce,
{
    let iat_leeway_seconds = u64_to_i64(iat_leeway_seconds)?;
    let max_age_seconds = u64_to_i64(max_age_seconds)?;
    Some(DpopPolicy {
        required,
        iat_leeway_seconds,
        max_age_seconds,
        require_ath,
        require_nonce,
        replay_ttl_seconds,
    })
}

/// A boolean setting: `true` in any ASCII case, or `1`; the default where it is unset.
pub fn parse_flag(value: Option<&str>, default: bool) -> (r: bool)
    ensures
        r == match value {
            Some(v) => lower_seq(v@) == "true"@ || v@ == "1"@,
            None => default,
        },
{
    match value {
        Some(v) => {
            let lower = to_ascii_lowercase(v);
            same_text(lower.as_str(), "true") || same_text(v, "1")
        },
        None => default,
    }
}

/// The text with each two-character escape `\n` turned into a line break, as PEM keys are
/// kept on one line in the environment.
pub open spec fn unescape_newlines(s: Seq<char>) -> Seq<char>
    decreases s.len(),
{
    if s.len() == 0 {
        s
    } else if s.len() >= 2 && s[0] == '\\' && s[1] == 'n' {
        seq!['\n'] + unescape_newlines(s.skip(2))
    } else {
        seq![s[0]] + unescape_newlines(s.skip(1))
    }
}

/// Replaces each `\n` escape by a line break.
pub fn unescape_pem(s: &str) -> (r: String)
    ensures
        r@ == unescape_newlines(s@),
{
    let cs = chars_of(s);
    let mut out = String::new();
    let mut i: usize = 0;
    assert(s@.skip(0) =~= s@);
    assert(out@ + unescape_newlines(s@) =~= unescape_newlines(s@));
    while i < cs.len()
        invariant
            i <= cs.len(),
            cs@ == s@,
            out@ + unescape_newlines(s@.skip(i as int)) == unescape_newlines(s@),
        decreases cs.len() - i,
    {
        let ghost rest = s@.skip(i as int);
        if i + 1 < cs.len() && cs[i] == '\\' && cs[i + 1] == 'n' {
            push_char(&mut out, '\n');
            proof {
                assert(rest.skip(2) =~= s@.skip(i + 2));
                assert(out@ + unescape_newlines(s@.skip(i + 2)) =~= unescape_newlines(s@));
            }
            i += 2;
        } else {
            push_char(&mut out, cs[i]);
            proof {
                assert(rest.skip(1) =~= s@.skip(i + 1));
                assert(out@ + unescape_newlines(s@.skip(i + 1)) =~= unescape_newlines(s@));
            }
            i += 1;
        }
    }
    proof {
        assert(s@.skip(i as int) =~= Seq::<char>::empty());
        assert(out@ + Seq::<char>::empty() =~= out@);
    }
    out
}

} // verus!
