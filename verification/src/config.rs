//! The settings the core runs on, and the check that lets a caller in.

use vstd::prelude::*;
use vstd::string::StringExecFns;
use crate::mac::{is_mac_form, MacAddress};
use crate::number::{i64_of, parse_i64, parse_u16, parse_u64, u16_of, u64_of};
use crate::text::{trim, trimmed};

verus! {

/// The router's host where none is set.
pub const DEFAULT_ROUTER_HOST: &'static str = "localhost";

/// The router's port where none is set.
pub const DEFAULT_ROUTER_PORT: u16 = 2223;

/// The user on the router where none is set.
pub const DEFAULT_ROUTER_USER: &'static str = "root";

/// The key file for the router where none is set.
pub const DEFAULT_ROUTER_KEY: &'static str = "/app/keys/id_router_vps_rsa_legacy";

/// The server's host where none is set.
pub const DEFAULT_SERVER_HOST: &'static str = "localhost";

/// The server's port where none is set.
pub const DEFAULT_SERVER_PORT: u16 = 2222;

/// The user on the server where none is set.
pub const DEFAULT_SERVER_USER: &'static str = "friedcerebrum";

/// The key file for the server where none is set.
pub const DEFAULT_SERVER_KEY: &'static str = "/app/keys/id_rsa";

/// The bound on opening a connection where none is set, in seconds.
pub const DEFAULT_SSH_TIMEOUT_SECS: u64 = 15;

/// The bound on a status probe where none is set, in seconds.
pub const DEFAULT_NC_TIMEOUT_SECS: u64 = 5;

/// Said when there is no bot token.
pub const MESSAGE_MISSING_TOKEN: &'static str = "BOT_TOKEN пуст";

/// Said when there is no hardware address.
pub const MESSAGE_MISSING_MAC: &'static str = "SERVER_MAC пуст";

/// Said when the hardware address is malformed.
pub const MESSAGE_INVALID_MAC: &'static str = "SERVER_MAC имеет некорректный формат";

/// Said when nobody is allowed.
pub const MESSAGE_EMPTY_ALLOW_LIST: &'static str = "ALLOWED_USERS пуст";

/// How to reach one remote host.
#[derive(Clone, Debug)]
pub struct HostProfile {
    pub host: String,
    pub port: u16,
    pub user: String,
    pub key_path: String,
    /// Bound on opening a connection to the host, in seconds.
    pub connect_timeout_secs: u64,
}

/// Everything that is fixed at startup.
#[derive(Clone, Debug)]
pub struct Config {
    pub bot_token: String,
    pub allowed_users: Vec<i64>,
    pub server_mac: MacAddress,
    pub router: HostProfile,
    pub server: HostProfile,
    /// Bound on a whole status probe, in seconds.
    pub nc_timeout_secs: u64,
}

impl Config {
    /// What settings that passed the startup checks are known to hold
    /// beyond their types: at least one caller is allowed.
    pub open spec fn well_formed(&self) -> bool {
        self.allowed_users@.len() > 0
    }
}

/// Whether a caller is let in: it is known, and its number is one of the
/// allowed ones.
pub open spec fn allowed(users: Seq<i64>, user_id: Option<u64>) -> bool {
    match user_id {
        Some(uid) => exists|i: int| 0 <= i < users.len() && (#[trigger] users[i]) == uid,
        None => false,
    }
}

/// Decides whether the caller may use the bot at all.
pub fn is_allowed(config: &Config, user_id: Option<u64>) -> (r: bool)
    ensures
        r == allowed(config.allowed_users@, user_id),
{
    match user_id {
        Some(uid) => {
            let n: usize = config.allowed_users.len();
            let mut i: usize = 0;
            while i < n
                invariant
                    user_id == Some(uid),
                    n == config.allowed_users@.len(),
                    i <= n,
                    forall|k: int| 0 <= k < i ==> config.allowed_users@[k] != uid,
                decreases n - i,
            {
                let u: i64 = config.allowed_users[i];
                if u >= 0 && u as u64 == uid {
                    assert(config.allowed_users@[i as int] == uid);
                    return true;
                }
                i += 1;
            }
            false
        },
        None => false,
    }
}

/// A caller that is absent, or whose number is not in the list, is not let
/// in.
pub proof fn lemma_unlisted_is_denied(users: Seq<i64>, user_id: Option<u64>)
    requires
        user_id is None || forall|i: int| 0 <= i < users.len() ==> users[i] != user_id->0,
    ensures
        !allowed(users, user_id),
{
}

/// A caller whose number is in the list is let in.
pub proof fn lemma_listed_is_allowed(users: Seq<i64>, uid: u64)
    requires
        exists|i: int| 0 <= i < users.len() && users[i] == uid,
    ensures
        allowed(users, Some(uid)),
{
    let i = choose|i: int| 0 <= i < users.len() && users[i] == uid;
    assert(users[i] == uid);
}

/// The settings as they are found, each one present or not, none of them
/// looked at yet.
#[derive(Debug)]
pub struct RawConfig {
    pub bot_token: Option<String>,
    pub allowed_users: Option<String>,
    pub server_mac: Option<String>,
    pub router_ssh_host: Option<String>,
    pub router_ssh_port: Option<String>,
    pub router_ssh_user: Option<String>,
    pub router_ssh_key: Option<String>,
    pub server_ssh_host: Option<String>,
    pub server_ssh_port: Option<String>,
    pub server_ssh_user: Option<String>,
    pub server_ssh_key: Option<String>,
    pub ssh_timeout: Option<String>,
    pub nc_timeout: Option<String>,
}

/// Why the settings were refused.
#[derive(Clone, Copy, Debug, PartialEq, Eq, Structural)]
pub enum ConfigError {
    /// There is no bot token.
    MissingBotToken,
    /// There is no hardware address.
    MissingMac,
    /// The hardware address is not in the strict form.
    InvalidMac,
    /// The list of allowed callers names nobody.
    EmptyAllowList,
}

impl ConfigError {
    /// The error in words.
    pub fn message(&self) -> (r: &'static str)
        ensures
            r@ == match *self {
                ConfigError::MissingBotToken => MESSAGE_MISSING_TOKEN@,
                ConfigError::MissingMac => MESSAGE_MISSING_MAC@,
                ConfigError::InvalidMac => MESSAGE_INVALID_MAC@,
                ConfigError::EmptyAllowList => MESSAGE_EMPTY_ALLOW_LIST@,
            },
    {
        match self {
            ConfigError::MissingBotToken => MESSAGE_MISSING_TOKEN,
            ConfigError::MissingMac => MESSAGE_MISSING_MAC,
            ConfigError::InvalidMac => MESSAGE_INVALID_MAC,
            ConfigError::EmptyAllowList => MESSAGE_EMPTY_ALLOW_LIST,
        }
    }
}

/// The position of the first comma in `s`, or the length of `s` if it has
/// none.
pub open spec fn first_comma(s: Seq<char>) -> int
    decreases s.len(),
{
    if s.len() == 0 || s[0] == ',' {
        0
    } else {
        1 + first_comma(s.drop_first())
    }
}

/// The caller that one entry of the list names: the entry is trimmed and
/// read as a signed number; an entry that is no number names nobody.
pub open spec fn entry_of(piece: Seq<char>) -> Option<i64> {
    i64_of(trimmed(piece))
}

/// The callers that a comma-separated list names, in the order written;
/// entries that name nobody are passed over.
pub open spec fn users_of(s: Seq<char>) -> Seq<i64>
    decreases s.len(),
{
    let i = first_comma(s);
    let head = match entry_of(s.subrange(0, i)) {
        Some(v) => seq![v],
        None => Seq::<i64>::empty(),
    };
    if 0 <= i < s.len() {
        head + users_of(s.subrange(i + 1, s.len() as int))
    } else {
        head
    }
}

proof fn lemma_first_comma(s: Seq<char>, i: int)
    requires
        0 <= i <= s.len(),
        forall|k: int| 0 <= k < i ==> s[k] != ',',
        i < s.len() ==> s[i] == ',',
    ensures
        first_comma(s) == i,
    decreases i,
{
    if i > 0 {
        lemma_first_comma(s.drop_first(), i - 1);
    }
}

/// Reads the list of allowed callers.
pub fn parse_allowed_users(s: &str) -> (r: Vec<i64>)
    ensures
        r@ == users_of(s@),
{
    let n: usize = s.unicode_len();
    let mut out: Vec<i64> = Vec::new();
    let mut start: usize = 0;
    let mut done: bool = false;
    proof {
        assert(s@.subrange(0, n as int) =~= s@);
        assert(out@ + users_of(s@) =~= users_of(s@));
    }
    while !done
        invariant
            n == s@.len(),
            start <= n,
            !done ==> users_of(s@) == out@ + users_of(s@.subrange(start as int, n as int)),
            done ==> users_of(s@) == out@,
        decreases n - start + if done { 0int } else { 1int },
    {
        let mut end: usize = start;
        let mut found: bool = false;
        while end < n && !found
            invariant
                n == s@.len(),
                start <= end <= n,
                forall|k: int| start <= k < end ==> s@[k] != ',',
                found ==> end < n && s@[end as int] == ',',
            decreases n - end + if found { 0int } else { 1int },
        {
            if s.get_char(end) == ',' {
                found = true;
            } else {
                end += 1;
            }
        }
        let ghost rest: Seq<char> = s@.subrange(start as int, n as int);
        proof {
            lemma_first_comma(rest, end - start);
            assert(rest.subrange(0, end - start) =~= s@.subrange(start as int, end as int));
            if end < n {
                assert(rest.subrange(end - start + 1, rest.len() as int) =~= s@.subrange(
                    end + 1,
                    n as int,
                ));
            }
        }
        let piece: &str = s.substring_char(start, end);
        let ghost before: Seq<i64> = out@;
        match parse_i64(trim(piece)) {
            Some(v) => {
                out.push(v);
                assert(out@ =~= before + seq![v]);
            },
            None => {
                assert(out@ =~= before + Seq::<i64>::empty());
            },
        }
        if end < n {
            proof {
                let head = match entry_of(rest.subrange(0, end - start)) {
                    Some(v) => seq![v],
                    None => Seq::<i64>::empty(),
                };
                assert(users_of(rest) == head + users_of(s@.subrange(end + 1, n as int)));
                assert(before + (head + users_of(s@.subrange(end + 1, n as int))) =~= (before
                    + head) + users_of(s@.subrange(end + 1, n as int)));
            }
            start = end + 1;
        } else {
            done = true;
        }
    }
    out
}

fn text_or(value: Option<String>, default: &str) -> (r: String)
    ensures
        r@ == match value {
            Some(v) => v@,
            None => default@,
        },
{
    match value {
        Some(v) => v,
        None => String::from_str(default),
    }
}

/// A port setting: the number written, or the default where there is none
/// or it is no port number.
pub open spec fn port_of(value: Option<String>, default: u16) -> u16 {
    match value {
        Some(v) => match u16_of(v@) {
            Some(p) => p,
            None => default,
        },
        None => default,
    }
}

/// A duration setting in seconds: the number written, or the default where
/// there is none or it is no number.
pub open spec fn seconds_of(value: Option<String>, default: u64) -> u64 {
    match value {
        Some(v) => match u64_of(v@) {
            Some(p) => p,
            None => default,
        },
        None => default,
    }
}

fn port_or(value: &Option<String>, default: u16) -> (r: u16)
    ensures
        r == port_of(*value, default),
{
    match value {
        Some(v) => match parse_u16(v.as_str()) {
            Some(p) => p,
            None => default,
        },
        None => default,
    }
}

fn seconds_or(value: &Option<String>, default: u64) -> (r: u64)
    ensures
        r == seconds_of(*value, default),
{
    match value {
        Some(v) => match parse_u64(v.as_str()) {
            Some(p) => p,
            None => default,
        },
        None => default,
    }
}

/// The first thing wrong with the settings, if anything is: the token is
/// looked at first, then the hardware address, then the allowed callers.
pub open spec fn config_error_of(raw: RawConfig, users: Seq<i64>) -> Option<ConfigError> {
    if raw.bot_token is None {
        Some(ConfigError::MissingBotToken)
    } else if raw.server_mac is None {
        Some(ConfigError::MissingMac)
    } else if !is_mac_form(raw.server_mac->0@) {
        Some(ConfigError::InvalidMac)
    } else if users.len() == 0 {
        Some(ConfigError::EmptyAllowList)
    } else {
        None
    }
}

/// The settings that the raw values stand for, once nothing is wrong with
/// them.
pub open spec fn config_matches(c: Config, raw: RawConfig, users: Seq<i64>) -> bool {
    &&& c.bot_token@ == raw.bot_token->0@
    &&& c.allowed_users@ == users
    &&& c.server_mac@ == raw.server_mac->0@
    &&& c.router.host@ == match raw.router_ssh_host {
        Some(v) => v@,
        None => DEFAULT_ROUTER_HOST@,
    }
    &&& c.router.port == port_of(raw.router_ssh_port, DEFAULT_ROUTER_PORT)
    &&& c.router.user@ == match raw.router_ssh_user {
        Some(v) => v@,
        None => DEFAULT_ROUTER_USER@,
    }
    &&& c.router.key_path@ == match raw.router_ssh_key {
        Some(v) => v@,
        None => DEFAULT_ROUTER_KEY@,
    }
    &&& c.router.connect_timeout_secs == seconds_of(raw.ssh_timeout, DEFAULT_SSH_TIMEOUT_SECS)
    &&& c.server.host@ == match raw.server_ssh_host {
        Some(v) => v@,
        None => DEFAULT_SERVER_HOST@,
    }
    &&& c.server.port == port_of(raw.server_ssh_port, DEFAULT_SERVER_PORT)
    &&& c.server.user@ == match raw.server_ssh_user {
        Some(v) => v@,
        None => DEFAULT_SERVER_USER@,
    }
    &&& c.server.key_path@ == match raw.server_ssh_key {
        Some(v) => v@,
        None => DEFAULT_SERVER_KEY@,
    }
    &&& c.server.connect_timeout_secs == seconds_of(raw.ssh_timeout, DEFAULT_SSH_TIMEOUT_SECS)
    &&& c.nc_timeout_secs == seconds_of(raw.nc_timeout, DEFAULT_NC_TIMEOUT_SECS)
}

impl Config {
    /// Checks the raw settings against an allow list that has been read
    /// already, and fills in the defaults.
    pub fn from_parts(raw: RawConfig, allowed_users: Vec<i64>) -> (r: Result<Config, ConfigError>)
        ensures
            match config_error_of(raw, allowed_users@) {
                Some(e) => r == Err::<Config, ConfigError>(e),
                None => r is Ok && config_matches(r->Ok_0, raw, allowed_users@),
            },
            r is Ok ==> r->Ok_0.well_formed(),
    {
        let router_port: u16 = port_or(&raw.router_ssh_port, DEFAULT_ROUTER_PORT);
        let server_port: u16 = port_or(&raw.server_ssh_port, DEFAULT_SERVER_PORT);
        let ssh_timeout_secs: u64 = seconds_or(&raw.ssh_timeout, DEFAULT_SSH_TIMEOUT_SECS);
        let nc_timeout_secs: u64 = seconds_or(&raw.nc_timeout, DEFAULT_NC_TIMEOUT_SECS);
        let bot_token: String = match raw.bot_token {
            Some(t) => t,
            None => {
                return Err(ConfigError::MissingBotToken);
            },
        };
        let server_mac: MacAddress = match &raw.server_mac {
            Some(m) => match MacAddress::parse(m.as_str()) {
                Some(address) => address,
                None => {
                    return Err(ConfigError::InvalidMac);
                },
            },
            None => {
                return Err(ConfigError::MissingMac);
            },
        };
        if allowed_users.len() == 0 {
            return Err(ConfigError::EmptyAllowList);
        }
        Ok(
            Config {
                bot_token,
                allowed_users,
                server_mac,
                router: HostProfile {
                    host: text_or(raw.router_ssh_host, DEFAULT_ROUTER_HOST),
                    port: router_port,
                    user: text_or(raw.router_ssh_user, DEFAULT_ROUTER_USER),
                    key_path: text_or(raw.router_ssh_key, DEFAULT_ROUTER_KEY),
                    connect_timeout_secs: ssh_timeout_secs,
                },
                server: HostProfile {
                    host: text_or(raw.server_ssh_host, DEFAULT_SERVER_HOST),
                    port: server_port,
                    user: text_or(raw.server_ssh_user, DEFAULT_SERVER_USER),
                    key_path: text_or(raw.server_ssh_key, DEFAULT_SERVER_KEY),
                    connect_timeout_secs: ssh_timeout_secs,
                },
                nc_timeout_secs,
            },
        )
    }

    /// Builds the settings from raw values: reads the allow list (a missing
    /// list is an empty one), then checks and completes the rest.
    pub fn from_values(raw: RawConfig) -> (r: Result<Config, ConfigError>)
        ensures
            match config_error_of(raw, users_of(allow_list_text(raw))) {
                Some(e) => r == Err::<Config, ConfigError>(e),
                None => r is Ok && config_matches(r->Ok_0, raw, users_of(allow_list_text(raw))),
            },
            r is Ok ==> r->Ok_0.well_formed(),
    {
        let users: Vec<i64> = match &raw.allowed_users {
            Some(list) => parse_allowed_users(list.as_str()),
            None => parse_allowed_users(""),
        };
        Config::from_parts(raw, users)
    }
}

/// The allow list as written; a list that is not there is an empty text.
pub open spec fn allow_list_text(raw: RawConfig) -> Seq<char> {
    match raw.allowed_users {
        Some(list) => list@,
        None => ""@,
    }
}

} // verus!
