use vstd::prelude::*;

verus! {

/// The port served on when no custom port is configured.
pub const DEFAULT_PORT: u16 = 3000;

/// Why the server refuses to start.
#[derive(Debug, PartialEq, Eq, Structural)]
pub enum StartupError {
    /// The provider credential is not configured.
    MissingApiKey,
    /// The list identifier is not configured.
    MissingListId,
    /// The custom port is not a number in 0..=65535.
    InvalidPort,
}

/// How much the server logs.
#[derive(Debug, PartialEq, Eq, Structural)]
pub enum LogLevel {
    Normal,
    Debug,
}

/// What the handler needs to query the provider.
pub struct Config {
    pub api_key: String,
    pub list_id: String,
}

/// Where and how the server listens.
pub struct ServerSettings {
    pub production: bool,
    pub address: String,
    pub port: u16,
    pub log_level: LogLevel,
}

/// Everything resolved before the first connection is accepted.
pub struct Startup {
    pub config: Config,
    pub server: ServerSettings,
}

pub open spec fn is_digit(c: char) -> bool {
    '0' <= c && c <= '9'
}

pub open spec fn all_digits(s: Seq<char>) -> bool {
    forall|i: int| 0 <= i < s.len() ==> is_digit(#[trigger] s[i])
}

/// The value of a run of decimal digits, most significant first.
pub open spec fn digits_value(s: Seq<char>) -> nat
    decreases s.len(),
{
    if s.len() == 0 {
        0
    } else {
        digits_value(s.drop_last()) * 10 + ((s.last() as u32) as int - ('0' as u32) as int) as nat
    }
}

/// The digits of an unsigned number's text, after an optional leading '+'.
pub open spec fn unsigned_digits(s: Seq<char>) -> Seq<char> {
    if s.len() > 0 && s[0] == '+' {
        s.subrange(1, s.len() as int)
    } else {
        s
    }
}

/// The port that the text `s` names: an optional '+' and one or more decimal
/// digits whose value fits in 16 bits; nothing else.
pub open spec fn port_of(s: Seq<char>) -> Option<u16> {
    let d = unsigned_digits(s);
    if d.len() > 0 && all_digits(d) && digits_value(d) <= 65535 {
        Some(digits_value(d) as u16)
    } else {
        None
    }
}

/// The port to listen on: the default when none is configured, else the
/// configured one when it is a valid port number.
pub open spec fn port_setting(custom: Option<Seq<char>>) -> Option<u16> {
    match custom {
        None => Some(DEFAULT_PORT),
        Some(s) => port_of(s),
    }
}

/// A prefix of a run of digits is worth no more than the whole run.
proof fn lemma_prefix_value_le(d: Seq<char>, k: int)
    requires
        0 <= k <= d.len(),
        all_digits(d),
    ensures
        digits_value(d.subrange(0, k)) <= digits_value(d),
    decreases d.len(),
{
    if k == d.len() {
        assert(d.subrange(0, k) =~= d);
    } else {
        let p = d.drop_last();
        assert(all_digits(p)) by {
            assert forall|i: int| 0 <= i < p.len() implies is_digit(#[trigger] p[i]) by {
                assert(p[i] == d[i]);
            }
        }
        lemma_prefix_value_le(p, k);
        assert(p.subrange(0, k) =~= d.subrange(0, k));
    }
}

/// The text of an optional borrowed setting.
pub open spec fn str_setting_view(o: Option<&str>) -> Option<Seq<char>> {
    match o {
        Some(s) => Some(s@),
        None => None,
    }
}

/// Parses a port number, as `u16`'s `from_str` reads it.
pub fn parse_port(s: &str) -> (r: Option<u16>)
    ensures
        r == port_of(s@),
{
    let len = s.unicode_len();
    let start: usize = if len > 0 && s.get_char(0) == '+' {
        1
    } else {
        0
    };
    let ghost d = unsigned_digits(s@);
    assert(d =~= s@.subrange(start as int, len as int));
    if start == len {
        return None;
    }
    let mut acc: u32 = 0;
    let mut i: usize = start;
    while i < len
        invariant
            start <= i <= len,
            len == s@.len(),
            d == unsigned_digits(s@),
            d == s@.subrange(start as int, len as int),
            forall|j: int| start <= j < i ==> is_digit(#[trigger] s@[j]),
            acc as nat == digits_value(s@.subrange(start as int, i as int)),
            acc <= 65535,
        decreases len - i,
    {
        let c = s.get_char(i);
        if !('0' <= c && c <= '9') {
            assert(!is_digit(d[i - start]));
            return None;
        }
        let next: u32 = acc * 10 + (c as u32 - '0' as u32);
        let ghost pre = s@.subrange(start as int, i as int + 1);
        assert(pre.drop_last() =~= s@.subrange(start as int, i as int));
        if next > 65535 {
            proof {
                if all_digits(d) {
                    let k = i - start + 1;
                    assert(d.subrange(0, k) =~= pre);
                    lemma_prefix_value_le(d, k);
                }
            }
            return None;
        }
        acc = next;
        i = i + 1;
    }
    assert(s@.subrange(start as int, i as int) =~= d);
    assert(all_digits(d)) by {
        assert forall|j: int| 0 <= j < d.len() implies is_digit(#[trigger] d[j]) by {
            assert(d[j] == s@[j + start]);
        }
    }
    Some(acc as u16)
}

/// The port to listen on, from the custom port setting if there is one.
pub fn resolve_port(custom: Option<&str>) -> (r: Result<u16, StartupError>)
    ensures
        match port_setting(str_setting_view(custom)) {
            Some(p) => r == Ok::<u16, StartupError>(p),
            None => r == Err::<u16, StartupError>(StartupError::InvalidPort),
        },
{
    match custom {
        None => Ok(DEFAULT_PORT),
        Some(s) => match parse_port(s) {
            Some(p) => Ok(p),
            None => Err(StartupError::InvalidPort),
        },
    }
}

/// The text of an optional string setting.
pub open spec fn setting_view(o: Option<String>) -> Option<Seq<char>> {
    match o {
        Some(s) => Some(s@),
        None => None,
    }
}

/// The address bound to: every interface in production, loopback otherwise.
pub open spec fn bind_address(production: bool) -> Seq<char> {
    if production {
        "0.0.0.0"@
    } else {
        "127.0.0.1"@
    }
}

/// The log level: normal in production, debug otherwise.
pub open spec fn log_level_for(production: bool) -> LogLevel {
    if production {
        LogLevel::Normal
    } else {
        LogLevel::Debug
    }
}

/// Whether `r` holds the listening settings for the mode and the port.
pub open spec fn is_server_settings(r: ServerSettings, production: bool, port: u16) -> bool {
    &&& r.production == production
    &&& r.address@ == bind_address(production)
    &&& r.port == port
    &&& r.log_level == log_level_for(production)
}

/// The listening settings for the mode and the port.
pub fn server_settings(production: bool, port: u16) -> (r: ServerSettings)
    ensures
        is_server_settings(r, production, port),
{
    if production {
        ServerSettings {
            production,
            address: String::from_str("0.0.0.0"),
            port,
            log_level: LogLevel::Normal,
        }
    } else {
        ServerSettings {
            production,
            address: String::from_str("127.0.0.1"),
            port,
            log_level: LogLevel::Debug,
        }
    }
}

/// Resolves the configuration and listening settings from the settings that
/// the process was given, before any connection is accepted. A missing
/// credential or list identifier, or an invalid custom port, stops startup.
pub fn startup(
    api_key: Option<String>,
    list_id: Option<String>,
    custom_port: Option<String>,
    production: bool,
) -> (r: Result<Startup, StartupError>)
    ensures
        (api_key is None || list_id is None) ==> r is Err,
        api_key is None ==> r == Err::<Startup, StartupError>(StartupError::MissingApiKey),
        api_key is Some && list_id is None ==> r == Err::<Startup, StartupError>(
            StartupError::MissingListId,
        ),
        api_key is Some && list_id is Some && port_setting(setting_view(custom_port)) is None
            ==> r == Err::<Startup, StartupError>(StartupError::InvalidPort),
        r is Ok <==> (api_key is Some && list_id is Some && port_setting(
            setting_view(custom_port),
        ) is Some),
        r is Ok ==> {
            &&& r->Ok_0.config.api_key@ == api_key->Some_0@
            &&& r->Ok_0.config.list_id@ == list_id->Some_0@
            &&& is_server_settings(
                r->Ok_0.server,
                production,
                port_setting(setting_view(custom_port))->Some_0,
            )
        },
{
    let api_key = match api_key {
        Some(k) => k,
        None => return Err(StartupError::MissingApiKey),
    };
    let list_id = match list_id {
        Some(l) => l,
        None => return Err(StartupError::MissingListId),
    };
    let custom: Option<&str> = match &custom_port {
        Some(s) => Some(s.as_str()),
        None => None,
    };
    let port = match resolve_port(custom) {
        Ok(p) => p,
        Err(e) => return Err(e),
    };
    Ok(Startup { config: Config { api_key, list_id }, server: server_settings(production, port) })
}

} // verus!
