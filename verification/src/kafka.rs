//! Client configurations for the brokers: SASL authentication settings on an
//! `rdkafka` client configuration, whose entries are read as a map from
//! keys to values.

use vstd::prelude::*;
use rdkafka::ClientConfig;

verus! {

/// An `rdkafka` client configuration, carried through verified code and
/// read through `config_entries`.
#[verifier::external_type_specification]
#[verifier::external_body]
pub struct ExClientConfig(rdkafka::ClientConfig);

/// The key/value entries of a client configuration (its `conf_map`).
pub uninterp spec fn config_entries(c: rdkafka::ClientConfig) -> Map<Seq<char>, Seq<char>>;

/// A configuration without entries.
pub open spec fn no_entries() -> Map<Seq<char>, Seq<char>> {
    Map::empty()
}

/// Calls `ClientConfig::new`, which starts with no entries (its log level,
/// read from the global logger, is not an entry).
#[verifier::external_body]
fn client_config_new() -> (r: ClientConfig)
    ensures
        config_entries(r) == no_entries(),
{
    ClientConfig::new()
}

/// Calls `ClientConfig::set`, which inserts the entry, replacing any value
/// the key had.
#[verifier::external_body]
fn config_set(c: &mut ClientConfig, key: &str, value: &str)
    ensures
        config_entries(*final(c)) == config_entries(*old(c)).insert(key@, value@),
{
    c.set(key, value);
}

/// Calls `ClientConfig::get`, which reads the value of a key.
#[verifier::external_body]
fn config_get(c: &ClientConfig, key: &str) -> (r: Option<String>)
    ensures
        r matches Some(v) ==> config_entries(*c).contains_key(key@) && v@ == config_entries(*c)[key@],
        r is None ==> !config_entries(*c).contains_key(key@),
{
    c.get(key).map(|v| v.to_string())
}

/// Set `key` to `value`, replacing any value it had.
pub fn set_entry(c: &mut ClientConfig, key: &str, value: &str)
    ensures
        config_entries(*final(c)) == config_entries(*old(c)).insert(key@, value@),
{
    config_set(c, key, value);
}

/// The value set for `key`, if any.
pub fn config_value(c: &ClientConfig, key: &str) -> (r: Option<String>)
    ensures
        r matches Some(v) ==> config_entries(*c).contains_key(key@) && v@ == config_entries(*c)[key@],
        r is None ==> !config_entries(*c).contains_key(key@),
{
    config_get(c, key)
}

/// The entries after setting a SASL connection to `brokers`.
pub open spec fn with_sasl(
    m: Map<Seq<char>, Seq<char>>,
    brokers: Seq<char>,
    username: Seq<char>,
    password: Seq<char>,
    security_protocol: Seq<char>,
    sasl_mechanism: Seq<char>,
) -> Map<Seq<char>, Seq<char>> {
    m.insert("bootstrap.servers"@, brokers).insert("security.protocol"@, security_protocol).insert(
        "sasl.mechanisms"@,
        sasl_mechanism,
    ).insert("sasl.username"@, username).insert("sasl.password"@, password)
}

/// Configure a client with SASL authentication: the brokers, the security
/// protocol, the SASL mechanism, the user name and the password.
pub fn configure_sasl<'a>(
    config: &'a mut ClientConfig,
    brokers: &str,
    username: &str,
    password: &str,
    security_protocol: &str,
    sasl_mechanism: &str,
) -> (r: &'a mut ClientConfig)
    ensures
        config_entries(*r) == with_sasl(
            config_entries(*old(config)),
            brokers@,
            username@,
            password@,
            security_protocol@,
            sasl_mechanism@,
        ),
        *final(config) == *final(r),
{
    config_set(config, "bootstrap.servers", brokers);
    config_set(config, "security.protocol", security_protocol);
    config_set(config, "sasl.mechanisms", sasl_mechanism);
    config_set(config, "sasl.username", username);
    config_set(config, "sasl.password", password);
    config
}

/// A new client configuration with SASL authentication.
pub fn new_sasl_config(
    brokers: &str,
    username: &str,
    password: &str,
    security_protocol: &str,
    sasl_mechanism: &str,
) -> (r: ClientConfig)
    ensures
        config_entries(r) == with_sasl(Map::empty(), brokers@, username@, password@, security_protocol@, sasl_mechanism@),
{
    let mut config = client_config_new();
    configure_sasl(&mut config, brokers, username, password, security_protocol, sasl_mechanism);
    config
}

/// Configure a client with SASL over SSL and the PLAIN mechanism.
pub fn configure_sasl_ssl<'a>(
    config: &'a mut ClientConfig,
    brokers: &str,
    username: &str,
    password: &str,
) -> (r: &'a mut ClientConfig)
    ensures
        config_entries(*r) == with_sasl(config_entries(*old(config)), brokers@, username@, password@, "SASL_SSL"@, "PLAIN"@),
        *final(config) == *final(r),
{
    configure_sasl(config, brokers, username, password, "SASL_SSL", "PLAIN")
}

/// A new client configuration with SASL over SSL and the PLAIN mechanism.
pub fn new_sasl_ssl_config(brokers: &str, username: &str, password: &str) -> (r: ClientConfig)
    ensures
        config_entries(r) == with_sasl(Map::empty(), brokers@, username@, password@, "SASL_SSL"@, "PLAIN"@),
{
    new_sasl_config(brokers, username, password, "SASL_SSL", "PLAIN")
}

/// A SASL configuration holds the brokers, the security protocol, the
/// mechanism, the user name and the password, each under its own key, and
/// keeps every other entry it was given.
pub proof fn lemma_sasl_entries(
    m: Map<Seq<char>, Seq<char>>,
    brokers: Seq<char>,
    username: Seq<char>,
    password: Seq<char>,
    security_protocol: Seq<char>,
    sasl_mechanism: Seq<char>,
    k: Seq<char>,
)
    ensures
        ({
            let c = with_sasl(m, brokers, username, password, security_protocol, sasl_mechanism);
            &&& c.contains_key("bootstrap.servers"@) && c["bootstrap.servers"@] == brokers
            &&& c.contains_key("security.protocol"@) && c["security.protocol"@] == security_protocol
            &&& c.contains_key("sasl.mechanisms"@) && c["sasl.mechanisms"@] == sasl_mechanism
            &&& c.contains_key("sasl.username"@) && c["sasl.username"@] == username
            &&& c.contains_key("sasl.password"@) && c["sasl.password"@] == password
            &&& (k != "bootstrap.servers"@ && k != "security.protocol"@ && k != "sasl.mechanisms"@ && k
                != "sasl.username"@ && k != "sasl.password"@) ==> (c.contains_key(k) == m.contains_key(k) && (
            m.contains_key(k) ==> c[k] == m[k]))
        }),
{
    reveal_strlit("bootstrap.servers");
    reveal_strlit("security.protocol");
    reveal_strlit("sasl.mechanisms");
    reveal_strlit("sasl.username");
    reveal_strlit("sasl.password");
    assert("bootstrap.servers"@[0] != "security.protocol"@[0]);
    assert("bootstrap.servers"@.len() != "sasl.mechanisms"@.len());
    assert("bootstrap.servers"@.len() != "sasl.username"@.len());
    assert("bootstrap.servers"@.len() != "sasl.password"@.len());
    assert("security.protocol"@.len() != "sasl.mechanisms"@.len());
    assert("security.protocol"@.len() != "sasl.username"@.len());
    assert("security.protocol"@.len() != "sasl.password"@.len());
    assert("sasl.mechanisms"@.len() != "sasl.username"@.len());
    assert("sasl.mechanisms"@.len() != "sasl.password"@.len());
    assert("sasl.username"@[5] != "sasl.password"@[5]);
}

} // verus!
