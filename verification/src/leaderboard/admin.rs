//! The leaderboard's clients of the brokers: the configurations they are
//! created with, and the consumer group statuses it starts from.

use vstd::prelude::*;
use rdkafka::ClientConfig;
use crate::kafka::{config_entries, new_sasl_ssl_config, with_sasl};
use crate::leaderboard::team::{ConsumerGroupStatus, GroupState};
use crate::roster::{team_label, team_name_of};

verus! {

/// The statuses of all fifteen teams' groups before any is read: `team-1`
/// to `team-15` in order, each unknown, without members or lag.
pub fn fetch_consumer_group_statuses() -> (r: Vec<ConsumerGroupStatus>)
    ensures
        r@.len() == 15,
        forall|i: int| 0 <= i < 15 ==> {
            &&& (#[trigger] r@[i]).team_name@ == team_name_of((i + 1) as nat)
            &&& r@[i].state == GroupState::Unknown
            &&& r@[i].members == 0
            &&& r@[i].lag == 0
        },
{
    let mut statuses: Vec<ConsumerGroupStatus> = Vec::new();
    let mut n: u32 = 1;
    while n <= 15
        invariant
            1 <= n <= 16,
            statuses@.len() == n - 1,
            forall|i: int| 0 <= i < n - 1 ==> {
                &&& (#[trigger] statuses@[i]).team_name@ == team_name_of((i + 1) as nat)
                &&& statuses@[i].state == GroupState::Unknown
                &&& statuses@[i].members == 0
                &&& statuses@[i].lag == 0
            },
        decreases 16 - n,
    {
        statuses.push(ConsumerGroupStatus { team_name: team_label(n), state: GroupState::Unknown, members: 0, lag: 0 });
        n = n + 1;
    }
    statuses
}

/// The configuration of the admin client: SASL over SSL with PLAIN.
pub fn admin_client_config(brokers: &str, username: &str, password: &str) -> (r: ClientConfig)
    ensures
        config_entries(r) == with_sasl(Map::empty(), brokers@, username@, password@, "SASL_SSL"@, "PLAIN"@),
{
    new_sasl_ssl_config(brokers, username, password)
}

/// The entries of a consumer of group `group_id` that commits its offsets
/// every five seconds and starts from the latest messages.
pub open spec fn consumer_entries(base: Map<Seq<char>, Seq<char>>, group_id: Seq<char>) -> Map<Seq<char>, Seq<char>> {
    base.insert("group.id"@, group_id).insert("enable.auto.commit"@, "true"@).insert(
        "auto.commit.interval.ms"@,
        "5000"@,
    ).insert("auto.offset.reset"@, "latest"@).insert("session.timeout.ms"@, "10000"@)
}

/// Add the consumer entries of group `group_id` to a configuration.
pub fn configure_consumer(config: &mut ClientConfig, group_id: &str)
    ensures
        config_entries(*final(config)) == consumer_entries(config_entries(*old(config)), group_id@),
{
    crate::kafka::set_entry(config, "group.id", group_id);
    crate::kafka::set_entry(config, "enable.auto.commit", "true");
    crate::kafka::set_entry(config, "auto.commit.interval.ms", "5000");
    crate::kafka::set_entry(config, "auto.offset.reset", "latest");
    crate::kafka::set_entry(config, "session.timeout.ms", "10000");
}

/// The configuration of a consumer of the topics (SASL over SSL).
pub fn consumer_config(brokers: &str, username: &str, password: &str, group_id: &str) -> (r: ClientConfig)
    ensures
        config_entries(r) == consumer_entries(
            with_sasl(Map::empty(), brokers@, username@, password@, "SASL_SSL"@, "PLAIN"@),
            group_id@,
        ),
{
    let mut config = new_sasl_ssl_config(brokers, username, password);
    configure_consumer(&mut config, group_id);
    config
}

/// The configuration of the leaderboard's producer (SASL over SSL).
pub fn producer_config(brokers: &str, username: &str, password: &str) -> (r: ClientConfig)
    ensures
        config_entries(r) == with_sasl(Map::empty(), brokers@, username@, password@, "SASL_SSL"@, "PLAIN"@).insert(
            "client.id"@,
            "leaderboard-producer"@,
        ).insert("message.timeout.ms"@, "5000"@),
{
    let mut config = new_sasl_ssl_config(brokers, username, password);
    crate::kafka::set_entry(&mut config, "client.id", "leaderboard-producer");
    crate::kafka::set_entry(&mut config, "message.timeout.ms", "5000");
    config
}

/// A consumer joins group `group_id`, commits automatically every five
/// seconds, starts from the latest offset when it has none, and times out
/// its session after ten seconds; every other entry stays as it was.
pub proof fn lemma_consumer_entries(base: Map<Seq<char>, Seq<char>>, group_id: Seq<char>, k: Seq<char>)
    ensures
        ({
            let c = consumer_entries(base, group_id);
            &&& c.contains_key("group.id"@) && c["group.id"@] == group_id
            &&& c.contains_key("enable.auto.commit"@) && c["enable.auto.commit"@] == "true"@
            &&& c.contains_key("auto.commit.interval.ms"@) && c["auto.commit.interval.ms"@] == "5000"@
            &&& c.contains_key("auto.offset.reset"@) && c["auto.offset.reset"@] == "latest"@
            &&& c.contains_key("session.timeout.ms"@) && c["session.timeout.ms"@] == "10000"@
            &&& (k != "group.id"@ && k != "enable.auto.commit"@ && k != "auto.commit.interval.ms"@ && k
                != "auto.offset.reset"@ && k != "session.timeout.ms"@) ==> (c.contains_key(k) == base.contains_key(k)
                && (base.contains_key(k) ==> c[k] == base[k]))
        }),
{
    reveal_strlit("group.id");
    reveal_strlit("enable.auto.commit");
    reveal_strlit("auto.commit.interval.ms");
    reveal_strlit("auto.offset.reset");
    reveal_strlit("session.timeout.ms");
    reveal_strlit("true");
    reveal_strlit("5000");
    reveal_strlit("latest");
    reveal_strlit("10000");
    assert("group.id"@.len() != "enable.auto.commit"@.len());
    assert("group.id"@.len() != "auto.commit.interval.ms"@.len());
    assert("group.id"@.len() != "auto.offset.reset"@.len());
    assert("group.id"@.len() != "session.timeout.ms"@.len());
    assert("enable.auto.commit"@.len() != "auto.commit.interval.ms"@.len());
    assert("enable.auto.commit"@.len() != "auto.offset.reset"@.len());
    assert("enable.auto.commit"@[0] != "session.timeout.ms"@[0]);
    assert("auto.commit.interval.ms"@.len() != "auto.offset.reset"@.len());
    assert("auto.commit.interval.ms"@.len() != "session.timeout.ms"@.len());
    assert("auto.offset.reset"@.len() != "session.timeout.ms"@.len());
}

} // verus!
