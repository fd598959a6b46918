//! Gateway configuration.

use crate::text::{
    decimal, decimal_text, lemma_numeral_of_decimal, numeral_up_to, parse_u16, parse_usize,
};
use vstd::prelude::*;

verus! {

/// Settings of one gateway process. A value is loaded once; the server and
/// every session keep a copy of their own and never change it.
#[derive(Debug)]
pub struct Config {
    /// Address the SIP2 listener binds to.
    pub sip_address: String,
    /// Port the SIP2 listener binds to.
    pub sip_port: u16,
    /// Host of the HTTP backend.
    pub http_host: String,
    /// Port the HTTP backend listens on.
    pub http_port: u16,
    /// Scheme of the backend URL, `http` or `https`.
    pub http_proto: String,
    /// Path of the backend endpoint, starting with `/`.
    pub http_path: String,
    /// Syslog facility name.
    pub syslog_facility: String,
    /// Syslog level name.
    pub syslog_level: String,
    /// Largest number of sessions that may be running or waiting at once.
    pub max_clients: usize,
    /// Whether responses to SIP2 clients are normalised to ASCII.
    pub ascii: bool,
    /// Whether the process detaches from its terminal.
    pub daemonize: bool,
    /// Whether the HTTP client accepts certificates it cannot verify.
    pub ignore_ssl_errors: bool,
}

/// The mathematical value of a [`Config`].
pub struct ConfigView {
    pub sip_address: Seq<char>,
    pub sip_port: u16,
    pub http_host: Seq<char>,
    pub http_port: u16,
    pub http_proto: Seq<char>,
    pub http_path: Seq<char>,
    pub syslog_facility: Seq<char>,
    pub syslog_level: Seq<char>,
    pub max_clients: usize,
    pub ascii: bool,
    pub daemonize: bool,
    pub ignore_ssl_errors: bool,
}

impl View for Config {
    type V = ConfigView;

    open spec fn view(&self) -> ConfigView {
        ConfigView {
            sip_address: self.sip_address@,
            sip_port: self.sip_port,
            http_host: self.http_host@,
            http_port: self.http_port,
            http_proto: self.http_proto@,
            http_path: self.http_path@,
            syslog_facility: self.syslog_facility@,
            syslog_level: self.syslog_level@,
            max_clients: self.max_clients,
            ascii: self.ascii,
            daemonize: self.daemonize,
            ignore_ssl_errors: self.ignore_ssl_errors,
        }
    }
}

/// The values that were chosen for the settings, as texts; `None` where
/// nothing was chosen. The fields are those of [`Config`].
#[derive(Debug, Default)]
pub struct Choices {
    pub sip_address: Option<String>,
    pub sip_port: Option<String>,
    pub http_host: Option<String>,
    pub http_port: Option<String>,
    pub http_proto: Option<String>,
    pub http_path: Option<String>,
    pub syslog_facility: Option<String>,
    pub syslog_level: Option<String>,
    pub max_clients: Option<String>,
    pub ascii: bool,
    pub daemonize: bool,
    pub ignore_ssl_errors: bool,
}

/// The mathematical value of [`Choices`].
pub struct ChoicesView {
    pub sip_address: Option<Seq<char>>,
    pub sip_port: Option<Seq<char>>,
    pub http_host: Option<Seq<char>>,
    pub http_port: Option<Seq<char>>,
    pub http_proto: Option<Seq<char>>,
    pub http_path: Option<Seq<char>>,
    pub syslog_facility: Option<Seq<char>>,
    pub syslog_level: Option<Seq<char>>,
    pub max_clients: Option<Seq<char>>,
    pub ascii: bool,
    pub daemonize: bool,
    pub ignore_ssl_errors: bool,
}

/// The view of a text that may be missing.
pub open spec fn text_view(text: Option<String>) -> Option<Seq<char>> {
    match text {
        Some(t) => Some(t@),
        None => None,
    }
}

impl View for Choices {
    type V = ChoicesView;

    open spec fn view(&self) -> ChoicesView {
        ChoicesView {
            sip_address: text_view(self.sip_address),
            sip_port: text_view(self.sip_port),
            http_host: text_view(self.http_host),
            http_port: text_view(self.http_port),
            http_proto: text_view(self.http_proto),
            http_path: text_view(self.http_path),
            syslog_facility: text_view(self.syslog_facility),
            syslog_level: text_view(self.syslog_level),
            max_clients: text_view(self.max_clients),
            ascii: self.ascii,
            daemonize: self.daemonize,
            ignore_ssl_errors: self.ignore_ssl_errors,
        }
    }
}

/// The setting whose chosen value is no numeral, or too large a one.
#[derive(Debug, Clone, Copy, PartialEq, Eq)]
pub enum ConfigError {
    /// The SIP2 port is not a number from 0 to 65535.
    SipPort,
    /// The backend port is not a number from 0 to 65535.
    HttpPort,
    /// The maximum number of clients is not a number that fits a machine
    /// word.
    MaxClients,
}

/// The chosen text, or `default` where nothing was chosen.
pub open spec fn chosen(choice: Option<Seq<char>>, default: Seq<char>) -> Seq<char> {
    match choice {
        Some(text) => text,
        None => default,
    }
}

impl ConfigView {
    /// The settings that come of `choices`: every setting has the chosen
    /// value, or the standard one where nothing was chosen. The two ports
    /// and the maximum number of clients are read as numerals; the first of
    /// them that cannot be read is the error.
    pub open spec fn of_choices(choices: ChoicesView) -> Result<ConfigView, ConfigError> {
        let standard = ConfigView::standard();
        let sip_port = numeral_up_to(chosen(choices.sip_port, "6001"@), u16::MAX as nat);
        let http_port = numeral_up_to(chosen(choices.http_port, "80"@), u16::MAX as nat);
        let max_clients = numeral_up_to(chosen(choices.max_clients, "256"@), usize::MAX as nat);
        if sip_port is None {
            Err(ConfigError::SipPort)
        } else if http_port is None {
            Err(ConfigError::HttpPort)
        } else if max_clients is None {
            Err(ConfigError::MaxClients)
        } else {
            Ok(
                ConfigView {
                    sip_address: chosen(choices.sip_address, standard.sip_address),
                    sip_port: sip_port->0 as u16,
                    http_host: chosen(choices.http_host, standard.http_host),
                    http_port: http_port->0 as u16,
                    http_proto: chosen(choices.http_proto, standard.http_proto),
                    http_path: chosen(choices.http_path, standard.http_path),
                    syslog_facility: chosen(choices.syslog_facility, standard.syslog_facility),
                    syslog_level: chosen(choices.syslog_level, standard.syslog_level),
                    max_clients: max_clients->0 as usize,
                    ascii: choices.ascii,
                    daemonize: choices.daemonize,
                    ignore_ssl_errors: choices.ignore_ssl_errors,
                },
            )
        }
    }

    /// The settings of a gateway that was given no options: it listens on
    /// `localhost:6001` for at most 256 clients and forwards to
    /// `http://localhost:80/sip2-mediator`.
    pub open spec fn standard() -> ConfigView {
        ConfigView {
            sip_address: "localhost"@,
            sip_port: 6001,
            http_host: "localhost"@,
            http_port: 80,
            http_proto: "http"@,
            http_path: "/sip2-mediator"@,
            syslog_facility: "LOCAL0"@,
            syslog_level: "INFO"@,
            max_clients: 256,
            ascii: false,
            daemonize: false,
            ignore_ssl_errors: false,
        }
    }

    /// The address the listener binds to: `<sip_address>:<sip_port>`.
    pub open spec fn bind_address(self) -> Seq<char> {
        self.sip_address + seq![':'] + decimal(self.sip_port as nat)
    }

    /// The backend endpoint: `<proto>://<host>:<port><path>`.
    pub open spec fn backend_url(self) -> Seq<char> {
        self.http_proto + seq![':', '/', '/'] + self.http_host + seq![':'] + decimal(
            self.http_port as nat,
        ) + self.http_path
    }
}

/// The view of settings that may have been refused.
pub open spec fn outcome_view(outcome: Result<Config, ConfigError>) -> Result<
    ConfigView,
    ConfigError,
> {
    match outcome {
        Ok(config) => Ok(config@),
        Err(error) => Err(error),
    }
}

fn text_or(choice: Option<String>, default: &str) -> (text: String)
    ensures
        text@ == chosen(text_view(choice), default@),
{
    match choice {
        Some(text) => text,
        None => String::from_str(default),
    }
}

impl Config {
    /// Makes the settings from what was chosen for them.
    pub fn from_choices(choices: Choices) -> (outcome: Result<Config, ConfigError>)
        ensures
            outcome_view(outcome) == ConfigView::of_choices(choices@),
    {
        let sip_port: u16 = match parse_u16(text_or(choices.sip_port, "6001").as_str()) {
            Some(port) => port,
            None => {
                return Err(ConfigError::SipPort);
            },
        };
        let http_port: u16 = match parse_u16(text_or(choices.http_port, "80").as_str()) {
            Some(port) => port,
            None => {
                return Err(ConfigError::HttpPort);
            },
        };
        let max_clients: usize = match parse_usize(text_or(choices.max_clients, "256").as_str()) {
            Some(count) => count,
            None => {
                return Err(ConfigError::MaxClients);
            },
        };
        Ok(
            Config {
                sip_address: text_or(choices.sip_address, "localhost"),
                sip_port,
                http_host: text_or(choices.http_host, "localhost"),
                http_port,
                http_proto: text_or(choices.http_proto, "http"),
                http_path: text_or(choices.http_path, "/sip2-mediator"),
                syslog_facility: text_or(choices.syslog_facility, "LOCAL0"),
                syslog_level: text_or(choices.syslog_level, "INFO"),
                max_clients,
                ascii: choices.ascii,
                daemonize: choices.daemonize,
                ignore_ssl_errors: choices.ignore_ssl_errors,
            },
        )
    }

    /// The address the listener binds to.
    pub fn bind_address(&self) -> (address: String)
        ensures
            address@ == self@.bind_address(),
    {
        proof {
            reveal_strlit(":");
        }
        let mut address: String = self.sip_address.clone();
        address.append(":");
        address.append(decimal_text(self.sip_port).as_str());
        assert(address@ =~= self@.bind_address());
        address
    }

    /// The URL of the backend endpoint.
    pub fn backend_url(&self) -> (url: String)
        ensures
            url@ == self@.backend_url(),
    {
        proof {
            reveal_strlit("://");
            reveal_strlit(":");
        }
        let mut url: String = self.http_proto.clone();
        url.append("://");
        url.append(self.http_host.as_str());
        url.append(":");
        url.append(decimal_text(self.http_port).as_str());
        url.append(self.http_path.as_str());
        assert(url@ =~= self@.backend_url());
        url
    }
}

impl Default for Config {
    fn default() -> (config: Config)
        ensures
            config@ == ConfigView::standard(),
    {
        Config {
            sip_address: String::from_str("localhost"),
            sip_port: 6001,
            http_host: String::from_str("localhost"),
            http_port: 80,
            http_proto: String::from_str("http"),
            http_path: String::from_str("/sip2-mediator"),
            syslog_facility: String::from_str("LOCAL0"),
            syslog_level: String::from_str("INFO"),
            max_clients: 256,
            ascii: false,
            daemonize: false,
            ignore_ssl_errors: false,
        }
    }
}

impl Clone for Config {
    fn clone(&self) -> (copy: Config)
        ensures
            copy == *self,
    {
        Config {
            sip_address: self.sip_address.clone(),
            sip_port: self.sip_port,
            http_host: self.http_host.clone(),
            http_port: self.http_port,
            http_proto: self.http_proto.clone(),
            http_path: self.http_path.clone(),
            syslog_facility: self.syslog_facility.clone(),
            syslog_level: self.syslog_level.clone(),
            max_clients: self.max_clients,
            ascii: self.ascii,
            daemonize: self.daemonize,
            ignore_ssl_errors: self.ignore_ssl_errors,
        }
    }
}

/// Where nothing is chosen, the settings are the standard ones.
pub proof fn lemma_no_choice_is_standard(choices: ChoicesView)
    requires
        choices.sip_address is None,
        choices.sip_port is None,
        choices.http_host is None,
        choices.http_port is None,
        choices.http_proto is None,
        choices.http_path is None,
        choices.syslog_facility is None,
        choices.syslog_level is None,
        choices.max_clients is None,
        !choices.ascii,
        !choices.daemonize,
        !choices.ignore_ssl_errors,
    ensures
        ConfigView::of_choices(choices) == Ok::<ConfigView, ConfigError>(ConfigView::standard()),
{
    reveal_strlit("6001");
    reveal_strlit("80");
    reveal_strlit("256");
    lemma_numeral_of_decimal(6001);
    lemma_numeral_of_decimal(80);
    lemma_numeral_of_decimal(256);
    reveal_with_fuel(decimal, 4);
    assert("6001"@ =~= decimal(6001));
    assert("80"@ =~= decimal(80));
    assert("256"@ =~= decimal(256));
}

} // verus!
