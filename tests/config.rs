use ekkyo::config::{Config, Mode};
use ekkyo::error::{ConfigField, ConfigParseErr};
use ekkyo::types::{ASNum, Ipv4Addr};

#[test]
fn config_can_parse() {
    let config: Config = "64512 127.0.0.1 65413 127.0.0.2 active".parse().unwrap();
    assert_eq!(config.local_as, ASNum::from(64512));
    assert_eq!(config.local_ip, Ipv4Addr::new(127, 0, 0, 1));
    assert_eq!(config.remote_as, ASNum::from(65413));
    assert_eq!(config.remote_ip, Ipv4Addr::new(127, 0, 0, 2));
    assert_eq!(config.mode, Mode::Active);
}

#[test]
fn invalid_config() {
    let config: Result<Config, ConfigParseErr> = "foo bar baz qux quux".parse();
    assert!(config.is_err());
    assert_eq!(config.unwrap_err().field, ConfigField::LocalAs);
}

#[test]
fn config_errors_name_the_field() {
    let field = |s: &str| s.parse::<Config>().unwrap_err().field;
    assert_eq!(field("65536 127.0.0.1 1 127.0.0.2 active"), ConfigField::LocalAs);
    assert_eq!(field("1"), ConfigField::LocalIp);
    assert_eq!(field("1 127.0.0.1.5 1 127.0.0.2 active"), ConfigField::LocalIp);
    assert_eq!(field("1 127.0.0.1 x 127.0.0.2 active"), ConfigField::RemoteAs);
    assert_eq!(field("1 127.0.0.1 2 256.0.0.2 active"), ConfigField::RemoteIp);
    assert_eq!(field("1 127.0.0.1 2 127.0.0.02 active"), ConfigField::RemoteIp);
    assert_eq!(field("1 127.0.0.1 2 127.0.0.2"), ConfigField::Mode);
    assert_eq!(field("1 127.0.0.1 2 127.0.0.2 both"), ConfigField::Mode);
    assert_eq!(field("1  127.0.0.1 2 127.0.0.2 active"), ConfigField::LocalIp);
}

#[test]
fn config_fields_at_their_limits() {
    let config: Config = "0 0.0.0.0 +65535 255.255.255.255 PASSIVE extra".parse().unwrap();
    assert_eq!(config.local_as, ASNum::from(0));
    assert_eq!(config.local_ip, Ipv4Addr::new(0, 0, 0, 0));
    assert_eq!(config.remote_as, ASNum::from(65535));
    assert_eq!(config.remote_ip, Ipv4Addr::new(255, 255, 255, 255));
    assert_eq!(config.mode, Mode::Passive);
}

#[test]
fn mode_parses_in_any_case() {
    assert_eq!("passive".parse::<Mode>().unwrap(), Mode::Passive);
    assert_eq!("Passive".parse::<Mode>().unwrap(), Mode::Passive);
    assert_eq!("aCtIvE".parse::<Mode>().unwrap(), Mode::Active);
    assert_eq!("activ".parse::<Mode>().unwrap_err().field, ConfigField::Mode);
}

#[test]
fn default_config() {
    let config = Config::default();
    assert_eq!(config.local_as, ASNum::from(64512));
    assert_eq!(config.local_ip, Ipv4Addr::new(127, 0, 0, 1));
    assert_eq!(config.remote_as, ASNum::from(64513));
    assert_eq!(config.remote_ip, Ipv4Addr::new(127, 0, 0, 2));
    assert_eq!(config.mode, Mode::Active);
}
