//! Settings of the user producer, with the defaults that a settings file
//! may leave out.

use vstd::prelude::*;

verus! {

/// The security protocol used when none is set.
pub fn default_security_protocol() -> (r: String)
    ensures
        r@ == "SASL_SSL"@,
{
    "SASL_SSL".to_owned()
}

/// The SASL mechanism used when none is set.
pub fn default_sasl_mechanism() -> (r: String)
    ensures
        r@ == "PLAIN"@,
{
    "PLAIN".to_owned()
}

/// Settings of the user producer.
#[derive(Debug)]
pub struct Settings {
    pub interval_millis: u64,
    pub topic: String,
    pub brokers: String,
    pub username: String,
    pub password: String,
    pub security_protocol: String,
    pub sasl_mechanism: String,
}

impl Settings {
    /// The settings from the values a settings file gives; a missing
    /// security protocol is SASL_SSL and a missing SASL mechanism PLAIN.
    pub fn from_fields(
        interval_millis: u64,
        topic: String,
        brokers: String,
        username: String,
        password: String,
        security_protocol: Option<String>,
        sasl_mechanism: Option<String>,
    ) -> (r: Self)
        ensures
            r.interval_millis == interval_millis,
            r.topic == topic,
            r.brokers == brokers,
            r.username == username,
            r.password == password,
            r.security_protocol@ == (match security_protocol {
                Some(p) => p@,
                None => "SASL_SSL"@,
            }),
            r.sasl_mechanism@ == (match sasl_mechanism {
                Some(m) => m@,
                None => "PLAIN"@,
            }),
    {
        let security_protocol = match security_protocol {
            Some(p) => p,
            None => default_security_protocol(),
        };
        let sasl_mechanism = match sasl_mechanism {
            Some(m) => m,
            None => default_sasl_mechanism(),
        };
        Settings { interval_millis, topic, brokers, username, password, security_protocol, sasl_mechanism }
    }
}

} // verus!
