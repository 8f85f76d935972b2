//! The settings of the daemon, from the values of its configuration
//! variables.
use vstd::prelude::*;
use vstd::string::*;
use crate::cadence::Cadence;
use crate::text::{decimal_i64, decimal_u64, parse_i64, parse_u64, same_text};

verus! {

/// The record sinks that can be chosen.
#[derive(Clone, Copy, Debug, PartialEq, Eq, Structural)]
pub enum DnsType {
    CloudDns,
    Route53,
}

/// The sink that a text names, if it names one.
pub open spec fn dns_type_of(value: Seq<char>) -> Option<DnsType> {
    if value == "cloud_dns"@ {
        Some(DnsType::CloudDns)
    } else if value == "route53"@ {
        Some(DnsType::Route53)
    } else {
        None
    }
}

/// What is said of a text that names no sink.
pub open spec fn unsupported_text() -> Seq<char> {
    "Unsupported dns type. Supported type: cloud_dns"@
}

impl DnsType {
    /// The sink that `value` names, or what to say of a text that names
    /// none.
    pub fn try_from(value: &str) -> (r: Result<DnsType, String>)
        ensures
            r matches Ok(dns_type) ==> dns_type_of(value@) == Some(dns_type),
            r matches Err(message) ==> dns_type_of(value@) is None && message@
                == unsupported_text(),
    {
        if same_text(value, "cloud_dns") {
            Ok(DnsType::CloudDns)
        } else if same_text(value, "route53") {
            Ok(DnsType::Route53)
        } else {
            Err(String::from_str("Unsupported dns type. Supported type: cloud_dns"))
        }
    }
}


/// The configuration variables that have to be set: the first three for
/// every sink, the others for the sink that needs them.
#[derive(Clone, Copy, Debug, PartialEq, Eq, Structural)]
pub enum Required {
    DnsType,
    RecordName,
    CredId,
    ManagedZone,
    GoogleApplicationCredentials,
    ZoneId,
}

/// What is said of a variable that has to be set and is not.
pub open spec fn not_set_text(variable: Required) -> Seq<char> {
    match variable {
        Required::DnsType => "DNS_TYPE not set. DNS_TYPE=[cloud_dns]"@,
        Required::RecordName => "RECORD_NAME not set. RECORD_NAME=<Managed Zone>"@,
        Required::CredId => "CRED_ID not set. CRED_ID=<Credential ID>"@,
        Required::ManagedZone => "MANAGED_ZONE not set. MANAGED_ZONE=<Managed Zone>"@,
        Required::GoogleApplicationCredentials =>
            "GOOGLE_APPLICATION_CREDENTIALS not set. GOOGLE_APPLICATION_CREDENTIALS=<file path of the credential>"@,
        Required::ZoneId => "ZONE_ID not set. ZONE_ID=<Route53 Zone ID>"@,
    }
}

/// What is said of a time to live that is no number.
pub open spec fn invalid_ttl_text() -> Seq<char> {
    "TTL should be number of sections in number."@
}

/// Why the configuration gives no settings. The daemon does not start on
/// any of these.
#[derive(Debug, PartialEq, Eq)]
pub enum ConfigError {
    /// A variable that has to be set is not.
    NotSet(Required),
    /// `DNS_TYPE` names no sink; holds what to say of it.
    UnsupportedDnsType(String),
    /// `CADENCE` is no number of seconds; holds the reason.
    InvalidCadence(String),
    /// `TTL` is no number of seconds.
    InvalidTtl,
}

/// A `ConfigError` with its texts as the characters they are made of.
pub enum ConfigErrorView {
    NotSet(Required),
    UnsupportedDnsType(Seq<char>),
    InvalidCadence(Seq<char>),
    InvalidTtl,
}

impl View for ConfigError {
    type V = ConfigErrorView;

    open spec fn view(&self) -> ConfigErrorView {
        match self {
            ConfigError::NotSet(variable) => ConfigErrorView::NotSet(*variable),
            ConfigError::UnsupportedDnsType(message) => ConfigErrorView::UnsupportedDnsType(
                message@,
            ),
            ConfigError::InvalidCadence(why) => ConfigErrorView::InvalidCadence(why@),
            ConfigError::InvalidTtl => ConfigErrorView::InvalidTtl,
        }
    }
}

impl ConfigErrorView {
    /// What to show to the user.
    pub open spec fn message(self) -> Seq<char> {
        match self {
            ConfigErrorView::NotSet(variable) => not_set_text(variable),
            ConfigErrorView::UnsupportedDnsType(message) => message,
            ConfigErrorView::InvalidCadence(why) => why,
            ConfigErrorView::InvalidTtl => invalid_ttl_text(),
        }
    }
}

impl ConfigError {
    /// What to show to the user: which variable is not set and what it is
    /// for, or why a value is refused.
    pub fn message(&self) -> (r: String)
        ensures
            r@ == self@.message(),
    {
        match self {
            ConfigError::NotSet(Required::DnsType) => String::from_str(
                "DNS_TYPE not set. DNS_TYPE=[cloud_dns]",
            ),
            ConfigError::NotSet(Required::RecordName) => String::from_str(
                "RECORD_NAME not set. RECORD_NAME=<Managed Zone>",
            ),
            ConfigError::NotSet(Required::CredId) => String::from_str(
                "CRED_ID not set. CRED_ID=<Credential ID>",
            ),
            ConfigError::NotSet(Required::ManagedZone) => String::from_str(
                "MANAGED_ZONE not set. MANAGED_ZONE=<Managed Zone>",
            ),
            ConfigError::NotSet(Required::GoogleApplicationCredentials) => String::from_str(
                "GOOGLE_APPLICATION_CREDENTIALS not set. GOOGLE_APPLICATION_CREDENTIALS=<file path of the credential>",
            ),
            ConfigError::NotSet(Required::ZoneId) => String::from_str(
                "ZONE_ID not set. ZONE_ID=<Route53 Zone ID>",
            ),
            ConfigError::UnsupportedDnsType(message) => message.clone(),
            ConfigError::InvalidCadence(why) => why.clone(),
            ConfigError::InvalidTtl => String::from_str(
                "TTL should be number of sections in number.",
            ),
        }
    }
}

/// The values of the configuration variables as they were found, each
/// absent where the variable is not set.
pub struct Environment {
    /// `DNS_TYPE`: the sink to write to.
    pub dns_type: Option<String>,
    /// `CADENCE`: the seconds between two cycles.
    pub cadence: Option<String>,
    /// `RECORD_NAME`: the name of the record to keep.
    pub record_name: Option<String>,
    /// `CRED_ID`: the key of the Cloud DNS credential.
    pub cred_id: Option<String>,
    /// `MANAGED_ZONE`: the Cloud DNS zone of the record.
    pub managed_zone: Option<String>,
    /// `GOOGLE_APPLICATION_CREDENTIALS`: where the Cloud DNS credential
    /// lies. Only whether it is set is looked at.
    pub google_application_credentials: Option<String>,
    /// `ZONE_ID`: the Route 53 zone of the record.
    pub zone_id: Option<String>,
    /// `TTL`: the time to live of the Route 53 record, in seconds.
    pub ttl: Option<String>,
}

/// The values of the configuration variables with the numbers among them
/// read: for the cadence the seconds or the reason why the text is no
/// number, for the time to live the seconds or nothing.
pub struct Readings {
    pub dns_type: Option<String>,
    pub cadence: Option<Result<u64, String>>,
    pub record_name: Option<String>,
    pub cred_id: Option<String>,
    pub managed_zone: Option<String>,
    pub google_application_credentials: Option<String>,
    pub zone_id: Option<String>,
    pub ttl: Option<Option<i64>>,
}

/// `Readings` with their texts as the characters they are made of.
pub struct ReadingsView {
    pub dns_type: Option<Seq<char>>,
    pub cadence: Option<Result<u64, Seq<char>>>,
    pub record_name: Option<Seq<char>>,
    pub cred_id: Option<Seq<char>>,
    pub managed_zone: Option<Seq<char>>,
    pub google_application_credentials: Option<Seq<char>>,
    pub zone_id: Option<Seq<char>>,
    pub ttl: Option<Option<i64>>,
}

/// A text that may be absent, as the characters it is made of.
pub open spec fn text_view(text: Option<String>) -> Option<Seq<char>> {
    match text {
        Some(text) => Some(text@),
        None => None,
    }
}

impl View for Readings {
    type V = ReadingsView;

    open spec fn view(&self) -> ReadingsView {
        ReadingsView {
            dns_type: text_view(self.dns_type),
            cadence: match self.cadence {
                Some(Ok(seconds)) => Some(Ok(seconds)),
                Some(Err(why)) => Some(Err(why@)),
                None => None,
            },
            record_name: text_view(self.record_name),
            cred_id: text_view(self.cred_id),
            managed_zone: text_view(self.managed_zone),
            google_application_credentials: text_view(self.google_application_credentials),
            zone_id: text_view(self.zone_id),
            ttl: self.ttl,
        }
    }
}

/// What reading the numbers of an environment gives.
pub open spec fn readings_of(environment: Environment) -> ReadingsView {
    ReadingsView {
        dns_type: text_view(environment.dns_type),
        cadence: match environment.cadence {
            Some(text) => Some(decimal_u64(text@)),
            None => None,
        },
        record_name: text_view(environment.record_name),
        cred_id: text_view(environment.cred_id),
        managed_zone: text_view(environment.managed_zone),
        google_application_credentials: text_view(environment.google_application_credentials),
        zone_id: text_view(environment.zone_id),
        ttl: match environment.ttl {
            Some(text) => Some(decimal_i64(text@)),
            None => None,
        },
    }
}

/// What the chosen sink needs to know.
#[derive(Debug, PartialEq, Eq)]
pub enum Backend {
    CloudDns { key_id: String, managed_zone: String },
    Route53 { zone_id: String, ttl: Option<i64> },
}

/// A `Backend` with its texts as the characters they are made of.
pub enum BackendView {
    CloudDns { key_id: Seq<char>, managed_zone: Seq<char> },
    Route53 { zone_id: Seq<char>, ttl: Option<i64> },
}

impl View for Backend {
    type V = BackendView;

    open spec fn view(&self) -> BackendView {
        match self {
            Backend::CloudDns { key_id, managed_zone } => BackendView::CloudDns {
                key_id: key_id@,
                managed_zone: managed_zone@,
            },
            Backend::Route53 { zone_id, ttl } => BackendView::Route53 {
                zone_id: zone_id@,
                ttl: *ttl,
            },
        }
    }
}

/// What the daemon runs with.
#[derive(Debug, PartialEq, Eq)]
pub struct Settings {
    /// The seconds between two cycles, where the configuration says so.
    pub cadence_secs: Option<u64>,
    /// The name of the record to keep.
    pub record_name: String,
    /// The sink to write to.
    pub backend: Backend,
}

/// `Settings` with their texts as the characters they are made of.
pub struct SettingsView {
    pub cadence_secs: Option<u64>,
    pub record_name: Seq<char>,
    pub backend: BackendView,
}

impl View for Settings {
    type V = SettingsView;

    open spec fn view(&self) -> SettingsView {
        SettingsView {
            cadence_secs: self.cadence_secs,
            record_name: self.record_name@,
            backend: self.backend@,
        }
    }
}

/// Settings or the reason why there are none, with their texts as the
/// characters they are made of.
pub open spec fn outcome_view(outcome: Result<Settings, ConfigError>) -> Result<
    SettingsView,
    ConfigErrorView,
> {
    match outcome {
        Ok(settings) => Ok(settings@),
        Err(error) => Err(error@),
    }
}

/// What the sink-specific variables are found to lack, if anything: for
/// Cloud DNS the key, the zone and the place of the credential, in this
/// order; for Route 53 the zone, and then a time to live that is a number
/// where there is one.
pub open spec fn backend_fault(dns_type: DnsType, found: ReadingsView) -> Option<
    ConfigErrorView,
> {
    match dns_type {
        DnsType::CloudDns => if found.cred_id is None {
            Some(ConfigErrorView::NotSet(Required::CredId))
        } else if found.managed_zone is None {
            Some(ConfigErrorView::NotSet(Required::ManagedZone))
        } else if found.google_application_credentials is None {
            Some(ConfigErrorView::NotSet(Required::GoogleApplicationCredentials))
        } else {
            None
        },
        DnsType::Route53 => if found.zone_id is None {
            Some(ConfigErrorView::NotSet(Required::ZoneId))
        } else if found.ttl == Some(None::<i64>) {
            Some(ConfigErrorView::InvalidTtl)
        } else {
            None
        },
    }
}

/// The first thing that the readings are found to lack, if anything: the
/// sink's name, a name that is known, a cadence that is a number where
/// there is one, the record's name, and then what the sink needs.
pub open spec fn fault(found: ReadingsView) -> Option<ConfigErrorView> {
    if found.dns_type is None {
        Some(ConfigErrorView::NotSet(Required::DnsType))
    } else if dns_type_of(found.dns_type->0) is None {
        Some(ConfigErrorView::UnsupportedDnsType(unsupported_text()))
    } else if found.cadence is Some && found.cadence->0 is Err {
        Some(ConfigErrorView::InvalidCadence(found.cadence->0->Err_0))
    } else if found.record_name is None {
        Some(ConfigErrorView::NotSet(Required::RecordName))
    } else {
        backend_fault(dns_type_of(found.dns_type->0)->0, found)
    }
}

/// The settings that readings without a fault stand for.
pub open spec fn settings_of(found: ReadingsView) -> SettingsView {
    SettingsView {
        cadence_secs: match found.cadence {
            Some(Ok(seconds)) => Some(seconds),
            _ => None,
        },
        record_name: found.record_name->0,
        backend: match dns_type_of(found.dns_type->0) {
            Some(DnsType::Route53) => BackendView::Route53 {
                zone_id: found.zone_id->0,
                ttl: match found.ttl {
                    Some(ttl) => ttl,
                    None => None,
                },
            },
            _ => BackendView::CloudDns {
                key_id: found.cred_id->0,
                managed_zone: found.managed_zone->0,
            },
        },
    }
}

/// What readings come to: their first fault, or the settings that they
/// stand for.
pub open spec fn resolved(found: ReadingsView) -> Result<SettingsView, ConfigErrorView> {
    match fault(found) {
        Some(error) => Err(error),
        None => Ok(settings_of(found)),
    }
}

impl Environment {
    /// Reads the numbers: the cadence as a decimal `u64`, the time to live
    /// as a decimal `i64`. The other values pass as they are.
    pub fn read(self) -> (r: Readings)
        ensures
            r@ == readings_of(self),
    {
        let cadence = match self.cadence {
            Some(text) => Some(parse_u64(text.as_str())),
            None => None,
        };
        let ttl = match self.ttl {
            Some(text) => Some(parse_i64(text.as_str())),
            None => None,
        };
        Readings {
            dns_type: self.dns_type,
            cadence,
            record_name: self.record_name,
            cred_id: self.cred_id,
            managed_zone: self.managed_zone,
            google_application_credentials: self.google_application_credentials,
            zone_id: self.zone_id,
            ttl,
        }
    }
}

impl Settings {
    /// The settings that the readings stand for, or the first thing that
    /// they are found to lack.
    pub fn from_readings(found: Readings) -> (r: Result<Settings, ConfigError>)
        ensures
            outcome_view(r) == resolved(found@),
    {
        let dns_type = match found.dns_type {
            Some(value) => value,
            None => {
                return Err(ConfigError::NotSet(Required::DnsType));
            },
        };
        let dns_type = match DnsType::try_from(dns_type.as_str()) {
            Ok(dns_type) => dns_type,
            Err(message) => {
                return Err(ConfigError::UnsupportedDnsType(message));
            },
        };
        let cadence_secs = match found.cadence {
            Some(Ok(seconds)) => Some(seconds),
            Some(Err(why)) => {
                return Err(ConfigError::InvalidCadence(why));
            },
            None => None,
        };
        let record_name = match found.record_name {
            Some(value) => value,
            None => {
                return Err(ConfigError::NotSet(Required::RecordName));
            },
        };
        match dns_type {
            DnsType::CloudDns => {
                let key_id = match found.cred_id {
                    Some(value) => value,
                    None => {
                        return Err(ConfigError::NotSet(Required::CredId));
                    },
                };
                let managed_zone = match found.managed_zone {
                    Some(value) => value,
                    None => {
                        return Err(ConfigError::NotSet(Required::ManagedZone));
                    },
                };
                if found.google_application_credentials.is_none() {
                    return Err(ConfigError::NotSet(Required::GoogleApplicationCredentials));
                }
                Ok(
                    Settings {
                        cadence_secs,
                        record_name,
                        backend: Backend::CloudDns { key_id, managed_zone },
                    },
                )
            },
            DnsType::Route53 => {
                let zone_id = match found.zone_id {
                    Some(value) => value,
                    None => {
                        return Err(ConfigError::NotSet(Required::ZoneId));
                    },
                };
                let ttl = match found.ttl {
                    Some(Some(seconds)) => Some(seconds),
                    Some(None) => {
                        return Err(ConfigError::InvalidTtl);
                    },
                    None => None,
                };
                Ok(
                    Settings {
                        cadence_secs,
                        record_name,
                        backend: Backend::Route53 { zone_id, ttl },
                    },
                )
            },
        }
    }

    /// The settings that an environment stands for, or the first thing that
    /// it is found to lack, with its numbers read first.
    pub fn from_environment(environment: Environment) -> (r: Result<Settings, ConfigError>)
        ensures
            outcome_view(r) == resolved(readings_of(environment)),
    {
        Settings::from_readings(environment.read())
    }

    /// The cadence that the settings ask for: that of the configured
    /// seconds, and none where the configuration names none or names zero
    /// seconds, so that a watcher then keeps its own.
    pub fn cadence(&self) -> (r: Option<Cadence>)
        ensures
            r is Some <==> (self.cadence_secs matches Some(seconds) && seconds > 0),
            r matches Some(cadence) ==> cadence.whole_secs() == self.cadence_secs->0
                && cadence.extra_nanos() == 0,
    {
        match self.cadence_secs {
            Some(seconds) => Cadence::from_secs(seconds),
            None => None,
        }
    }
}

} // verus!
