//! Settings of the classroom simulator, with the defaults that a settings
//! file may leave out.

use vstd::prelude::*;

verus! {

/// Settings of the simulator.
#[derive(Debug, Clone)]
pub struct Settings {
    pub brokers: String,
    pub username: String,
    pub password: String,
    pub security_protocol: String,
    pub sasl_mechanism: String,
    pub instances_per_team: u32,
}

/// The security protocol used when none is set.
pub fn default_security_protocol() -> (r: String)
    ensures
        r@ == "SASL_PLAINTEXT"@,
{
    "SASL_PLAINTEXT".to_owned()
}

/// The SASL mechanism used when none is set.
pub fn default_sasl_mechanism() -> (r: String)
    ensures
        r@ == "PLAIN"@,
{
    "PLAIN".to_owned()
}

/// The number of consumer instances per team when none is set.
pub fn default_instances_per_team() -> (r: u32)
    ensures
        r == 1,
{
    1
}

impl Settings {
    /// The settings from the values a settings file gives; a missing
    /// security protocol is SASL_PLAINTEXT, a missing SASL mechanism PLAIN
    /// and a missing instance count one.
    pub fn from_fields(
        brokers: String,
        username: String,
        password: String,
        security_protocol: Option<String>,
        sasl_mechanism: Option<String>,
        instances_per_team: Option<u32>,
    ) -> (r: Self)
        ensures
            r.brokers == brokers,
            r.username == username,
            r.password == password,
            r.security_protocol@ == (match security_protocol {
                Some(p) => p@,
                None => "SASL_PLAINTEXT"@,
            }),
            r.sasl_mechanism@ == (match sasl_mechanism {
                Some(m) => m@,
                None => "PLAIN"@,
            }),
            r.instances_per_team == (match instances_per_team {
                Some(n) => n,
                None => 1,
            }),
    {
        let security_protocol = match security_protocol {
            Some(p) => p,
            None => default_security_protocol(),
        };
        let sasl_mechanism = match sasl_mechanism {
            Some(m) => m,
            None => default_sasl_mechanism(),
        };
        let instances_per_team = match instances_per_team {
            Some(n) => n,
            None => default_instances_per_team(),
        };
        Settings { brokers, username, password, security_protocol, sasl_mechanism, instances_per_team }
    }
}

} // verus!
