use vstd::prelude::*;
use crate::error::{ConfigField, ConfigParseErr};
use crate::parse::{
    field_end, parse_ipv4, parse_ipv4_spec, parse_mode, parse_mode_spec, parse_u16,
    parse_u16_spec, find_field_end, SPACE,
};
use crate::types::{ASNum, Ipv4Addr};

verus! {

/// Which side opens the TCP connection.
#[derive(Debug, Clone, Copy, Hash, PartialEq, Eq, Structural)]
pub enum Mode {
    /// Connect out to the remote peer.
    Active,
    /// Listen on the local address and accept one connection.
    Passive,
}

/// One peer's session parameters.
#[derive(Debug, Clone, Copy, Hash, PartialEq, Eq, Structural)]
pub struct Config {
    pub local_as: ASNum,
    pub local_ip: Ipv4Addr,
    pub remote_as: ASNum,
    pub remote_ip: Ipv4Addr,
    pub mode: Mode,
}

impl Default for Config {
    /// AS 64512 at 127.0.0.1, connecting out to AS 64513 at 127.0.0.2.
    fn default() -> (r: Config)
        ensures
            r.local_as@ == 64512,
            r.local_ip == Ipv4Addr(127, 0, 0, 1),
            r.remote_as@ == 64513,
            r.remote_ip == Ipv4Addr(127, 0, 0, 2),
            r.mode == Mode::Active,
    {
        Config {
            local_as: ASNum::from(64512),
            local_ip: Ipv4Addr::new(127, 0, 0, 1),
            remote_as: ASNum::from(64513),
            remote_ip: Ipv4Addr::new(127, 0, 0, 2),
            mode: Mode::Active,
        }
    }
}

/// The values of a configuration line: five fields separated by single
/// spaces (local AS, local address, remote AS, remote address, mode); fields
/// after the fifth are ignored. On failure, the first field that is missing
/// or does not read.
pub open spec fn parse_config_spec(s: Seq<u8>) -> Result<(u16, Ipv4Addr, u16, Ipv4Addr, Mode), ConfigField> {
    let e0 = field_end(s, 0, SPACE);
    let e1 = field_end(s, e0 + 1, SPACE);
    let e2 = field_end(s, e1 + 1, SPACE);
    let e3 = field_end(s, e2 + 1, SPACE);
    let e4 = field_end(s, e3 + 1, SPACE);
    match parse_u16_spec(s.subrange(0, e0)) {
        None => Err(ConfigField::LocalAs),
        Some(local_as) => match if e0 < s.len() { parse_ipv4_spec(s.subrange(e0 + 1, e1)) } else { None } {
            None => Err(ConfigField::LocalIp),
            Some(local_ip) => match if e1 < s.len() { parse_u16_spec(s.subrange(e1 + 1, e2)) } else { None } {
                None => Err(ConfigField::RemoteAs),
                Some(remote_as) => match if e2 < s.len() { parse_ipv4_spec(s.subrange(e2 + 1, e3)) } else { None } {
                    None => Err(ConfigField::RemoteIp),
                    Some(remote_ip) => match if e3 < s.len() { parse_mode_spec(s.subrange(e3 + 1, e4)) } else { None } {
                        None => Err(ConfigField::Mode),
                        Some(mode) => Ok((local_as, local_ip, remote_as, remote_ip, mode)),
                    },
                },
            },
        },
    }
}

impl Mode {
    /// Reads `active` or `passive`, in any ASCII case.
    pub fn parse(b: &[u8]) -> (r: Result<Mode, ConfigParseErr>)
        ensures
            match r {
                Ok(m) => parse_mode_spec(b@) == Some(m),
                Err(e) => parse_mode_spec(b@) is None && e.field == ConfigField::Mode,
            },
    {
        assert(b@.subrange(0, b@.len() as int) =~= b@);
        match parse_mode(b, 0, b.len()) {
            Some(m) => Ok(m),
            None => Err(ConfigParseErr { field: ConfigField::Mode }),
        }
    }
}

impl std::str::FromStr for Mode {
    type Err = ConfigParseErr;

    fn from_str(s: &str) -> Result<Mode, ConfigParseErr> {
        Mode::parse(s.as_bytes())
    }
}

impl Config {
    /// Reads a configuration line such as
    /// `64512 127.0.0.1 64513 127.0.0.2 active`.
    pub fn parse(b: &[u8]) -> (r: Result<Config, ConfigParseErr>)
        ensures
            match r {
                Ok(c) => parse_config_spec(b@) == Ok::<_, ConfigField>(
                    (c.local_as@, c.local_ip, c.remote_as@, c.remote_ip, c.mode),
                ),
                Err(e) => parse_config_spec(b@) == Err::<(u16, Ipv4Addr, u16, Ipv4Addr, Mode), _>(e.field),
            },
    {
        let n = b.len();
        let e0 = find_field_end(b, 0, SPACE);
        let local_as = match parse_u16(b, 0, e0) {
            Some(v) => ASNum::from(v),
            None => return Err(ConfigParseErr { field: ConfigField::LocalAs }),
        };
        if e0 >= n {
            return Err(ConfigParseErr { field: ConfigField::LocalIp });
        }
        let e1 = find_field_end(b, e0 + 1, SPACE);
        let local_ip = match parse_ipv4(b, e0 + 1, e1) {
            Some(ip) => ip,
            None => return Err(ConfigParseErr { field: ConfigField::LocalIp }),
        };
        if e1 >= n {
            return Err(ConfigParseErr { field: ConfigField::RemoteAs });
        }
        let e2 = find_field_end(b, e1 + 1, SPACE);
        let remote_as = match parse_u16(b, e1 + 1, e2) {
            Some(v) => ASNum::from(v),
            None => return Err(ConfigParseErr { field: ConfigField::RemoteAs }),
        };
        if e2 >= n {
            return Err(ConfigParseErr { field: ConfigField::RemoteIp });
        }
        let e3 = find_field_end(b, e2 + 1, SPACE);
        let remote_ip = match parse_ipv4(b, e2 + 1, e3) {
            Some(ip) => ip,
            None => return Err(ConfigParseErr { field: ConfigField::RemoteIp }),
        };
        if e3 >= n {
            return Err(ConfigParseErr { field: ConfigField::Mode });
        }
        let e4 = find_field_end(b, e3 + 1, SPACE);
        let mode = match parse_mode(b, e3 + 1, e4) {
            Some(m) => m,
            None => return Err(ConfigParseErr { field: ConfigField::Mode }),
        };
        Ok(Config { local_as, local_ip, remote_as, remote_ip, mode })
    }
}

impl std::str::FromStr for Config {
    type Err = ConfigParseErr;

    fn from_str(s: &str) -> Result<Config, ConfigParseErr> {
        Config::parse(s.as_bytes())
    }
}

} // verus!
