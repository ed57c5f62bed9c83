use kafka_tutorial::kafka::{
    config_value, configure_sasl, configure_sasl_ssl, new_sasl_config, new_sasl_ssl_config, set_entry,
};
use kafka_tutorial::leaderboard::admin::{admin_client_config, consumer_config, producer_config};
use kafka_tutorial::messages::{TeamStats, User};
use kafka_tutorial::producer;
use kafka_tutorial::roster::team_label;
use kafka_tutorial::simulator::config::{default_instances_per_team, Settings};
use kafka_tutorial::simulator::filters::{
    get_filter, Team10Filter, Team11Filter, Team12Filter, Team13Filter, Team14Filter, Team15Filter, Team1Filter,
    Team2Filter, Team3Filter, Team4Filter, Team5Filter, Team6Filter, Team7Filter, Team8Filter, Team9Filter,
    TeamFilter,
};
use kafka_tutorial::simulator::stats::StatsState;
use kafka_tutorial::simulator::team::process_user;
use kafka_tutorial::simulator::watchlist::WatchlistState;

fn plain_user() -> User {
    User {
        email: "someone@gmail.com".to_string(),
        credit_card_number: "4532000000000000".to_string(),
        company_name: "Acme".to_string(),
        company_slogan: "We make things".to_string(),
        industry: "Retail".to_string(),
        user_name: "someone".to_string(),
        avatar: "https://robohash.org/someone.png".to_string(),
        name: "Some One".to_string(),
        profession: "teacher".to_string(),
        field: "Marketing".to_string(),
        premium: false,
        credit: 0,
        time_zone: "America/New_York".to_string(),
        user_agent: "Mozilla/5.0 (X11; Linux x86_64)".to_string(),
        pack: "small".to_string(),
    }
}

fn verdict<F: TeamFilter>(filter: &F, user: &User) -> Option<(&'static str, &'static str)> {
    filter.matches(user).map(|m| (m.action_type, m.reason))
}

#[test]
fn no_filter_flags_a_plain_user() {
    let user = plain_user();
    for n in 1..=15 {
        assert!(get_filter(n).matches(&user).is_none(), "team {} flagged a plain user", n);
    }
}

#[test]
fn each_team_flags_its_users() {
    let mut u = plain_user();
    u.email = "Someone@HOTMAIL.com".to_string();
    assert_eq!(verdict(&Team1Filter, &u), Some(("CONTACT_CUSTOMER", "LEGACY_EMAIL_PROVIDER")));

    let mut u = plain_user();
    u.credit_card_number = "378282246310005".to_string();
    assert_eq!(verdict(&Team2Filter, &u), Some(("CREDIT_CARD_VERIFICATION", "AMEX_CARD")));

    let mut u = plain_user();
    u.industry = "Investment Banking".to_string();
    assert_eq!(verdict(&Team3Filter, &u), Some(("SALES_LEAD", "FINANCIAL_SECTOR")));

    let mut u = plain_user();
    u.industry = "Semiconductors".to_string();
    assert_eq!(verdict(&Team4Filter, &u), Some(("ACQUISITION_TARGET", "TECH_COMPANY")));

    let mut u = plain_user();
    u.industry = "Veterinary".to_string();
    assert_eq!(verdict(&Team5Filter, &u), Some(("CONTACT_CUSTOMER", "HEALTHCARE_COMPLIANCE")));

    let mut u = plain_user();
    u.profession = "Engineer".to_string();
    assert_eq!(verdict(&Team6Filter, &u), Some(("HIRE_CUSTOMER", "IS_ENGINEER")));
    u.profession = "Software Engineer".to_string();
    assert_eq!(verdict(&Team6Filter, &u), None);

    let mut u = plain_user();
    u.premium = true;
    u.credit = 11;
    assert_eq!(verdict(&Team7Filter, &u), Some(("CONTACT_CUSTOMER", "VIP_USER")));
    u.credit = 10;
    assert_eq!(verdict(&Team7Filter, &u), None);

    let mut u = plain_user();
    u.credit = -16;
    assert_eq!(verdict(&Team8Filter, &u), Some(("CONTACT_CUSTOMER", "CRITICAL_DEBT")));
    u.credit = -15;
    assert_eq!(verdict(&Team8Filter, &u), None);

    let mut u = plain_user();
    u.time_zone = "Asia/Tokyo".to_string();
    assert_eq!(verdict(&Team9Filter, &u), Some(("CONTACT_CUSTOMER", "APAC_EXPANSION")));

    let mut u = plain_user();
    u.user_agent = "Mozilla/5.0 (Windows NT 6.1; Trident/7.0)".to_string();
    assert_eq!(verdict(&Team10Filter, &u), Some(("CONTACT_CUSTOMER", "LEGACY_BROWSER")));

    let mut u = plain_user();
    u.time_zone = "Europe/Berlin".to_string();
    assert_eq!(verdict(&Team11Filter, &u), Some(("TRIGGER_GDPR_COMPLIANCE", "IN_EUROPE")));

    let mut u = plain_user();
    u.field = "TECHNOLOGY".to_string();
    assert_eq!(verdict(&Team12Filter, &u), Some(("HIRE_CUSTOMER", "TECH_PROFESSIONAL")));
    u.field = "It".to_string();
    assert_eq!(verdict(&Team12Filter, &u), Some(("HIRE_CUSTOMER", "TECH_PROFESSIONAL")));

    let mut u = plain_user();
    u.avatar = "http://robohash.org/x.png".to_string();
    assert_eq!(verdict(&Team13Filter, &u), Some(("CONTACT_CUSTOMER", "INVALID_AVATAR")));
    u.avatar = "https://example.org/x.png".to_string();
    assert_eq!(verdict(&Team13Filter, &u), Some(("CONTACT_CUSTOMER", "INVALID_AVATAR")));

    let mut u = plain_user();
    u.name = "John Doe".to_string();
    assert_eq!(verdict(&Team14Filter, &u), Some(("BAN_CUSTOMER", "SUSPICIOUS_NAME")));
    u.name = "john doe".to_string();
    assert_eq!(verdict(&Team14Filter, &u), None);

    let mut u = plain_user();
    u.pack = "free".to_string();
    assert_eq!(verdict(&Team15Filter, &u), Some(("CONTACT_CUSTOMER", "UPGRADE_FREE")));
    assert_eq!(verdict(&get_filter(15), &u), Some(("CONTACT_CUSTOMER", "UPGRADE_FREE")));
    assert_eq!(get_filter(7).team_number, 7);
}

#[test]
fn processing_counts_and_produces() {
    let mut stats = StatsState::new();
    let filter = get_filter(15);
    let plain = plain_user();
    assert!(process_user(&mut stats, &filter, &plain, "team-15").is_none());
    let mut free = plain_user();
    free.pack = "free".to_string();
    let (action, team_stats) = process_user(&mut stats, &filter, &free, "team-15").expect("flagged");
    assert_eq!(action.customer.as_deref(), Some("someone@gmail.com"));
    assert_eq!(action.action_type.as_deref(), Some("CONTACT_CUSTOMER"));
    assert_eq!(action.reason.as_deref(), Some("UPGRADE_FREE"));
    assert_eq!(action.team, "team-15");
    assert_eq!((team_stats.team.as_str(), team_stats.processed, team_stats.flagged), ("team-15", 2, 1));
    assert_eq!((stats.processed(), stats.flagged()), (2, 1));
    let t = TeamStats::new("team-1", 5, 2);
    assert_eq!((t.team.as_str(), t.processed, t.flagged), ("team-1", 5, 2));
}

#[test]
fn stats_counters() {
    let mut stats = StatsState::default();
    assert_eq!(stats.increment_processed(), 1);
    assert_eq!(stats.increment_processed(), 2);
    assert_eq!(stats.increment_flagged(), (2, 1));
}

#[test]
fn watchlist_reports_from_the_threshold() {
    let mut watchlist = WatchlistState::new(3);
    assert_eq!(watchlist.increment("Acme"), None);
    assert_eq!(watchlist.increment("Acme"), None);
    assert_eq!(watchlist.increment("Other"), None);
    assert_eq!(watchlist.increment("Acme"), Some(3));
    assert_eq!(watchlist.increment("Acme"), Some(4));
    assert_eq!(watchlist.flag_count("Acme"), 4);
    assert_eq!(watchlist.flag_count("Nobody"), 0);
    let mut eager = WatchlistState::new(0);
    assert_eq!(eager.increment("X"), Some(1));
}

#[test]
fn simulator_and_producer_defaults() {
    assert_eq!(default_instances_per_team(), 1);
    let s = Settings::from_fields("b".to_string(), "u".to_string(), "p".to_string(), None, None, None);
    assert_eq!(
        (s.security_protocol.as_str(), s.sasl_mechanism.as_str(), s.instances_per_team),
        ("SASL_PLAINTEXT", "PLAIN", 1)
    );
    let s = Settings::from_fields(
        "b".to_string(),
        "u".to_string(),
        "p".to_string(),
        Some("SSL".to_string()),
        None,
        Some(3),
    );
    assert_eq!((s.security_protocol.as_str(), s.instances_per_team), ("SSL", 3));
    assert_eq!(producer::default_security_protocol(), "SASL_SSL");
    assert_eq!(producer::default_sasl_mechanism(), "PLAIN");
    let p = producer::Settings::from_fields(
        250,
        "new_users".to_string(),
        "b".to_string(),
        "u".to_string(),
        "p".to_string(),
        None,
        None,
    );
    assert_eq!((p.interval_millis, p.security_protocol.as_str(), p.sasl_mechanism.as_str()), (250, "SASL_SSL", "PLAIN"));
}

#[test]
fn client_configurations() {
    let config = new_sasl_config("broker:9092", "alice", SECRET, "SASL_PLAINTEXT", "SCRAM-SHA-512");
    assert_eq!(config_value(&config, "bootstrap.servers").as_deref(), Some("broker:9092"));
    assert_eq!(config_value(&config, "security.protocol").as_deref(), Some("SASL_PLAINTEXT"));
    assert_eq!(config_value(&config, "sasl.mechanisms").as_deref(), Some("SCRAM-SHA-512"));
    assert_eq!(config_value(&config, "sasl.username").as_deref(), Some("alice"));
    assert_eq!(config_value(&config, "sasl.password").as_deref(), Some(SECRET));
    assert_eq!(config_value(&config, "group.id"), None);

    let ssl = new_sasl_ssl_config("b", "u", "p");
    assert_eq!(config_value(&ssl, "security.protocol").as_deref(), Some("SASL_SSL"));
    assert_eq!(config_value(&ssl, "sasl.mechanisms").as_deref(), Some("PLAIN"));

    let mut own = rdkafka::ClientConfig::new();
    own.set("client.id", "mine");
    configure_sasl_ssl(&mut own, "b2", "u2", "p2").set("extra", "1");
    assert_eq!(config_value(&own, "client.id").as_deref(), Some("mine"));
    assert_eq!(config_value(&own, "bootstrap.servers").as_deref(), Some("b2"));
    assert_eq!(config_value(&own, "extra").as_deref(), Some("1"));
    configure_sasl(&mut own, "b3", "u3", "p3", "PLAINTEXT", "PLAIN");
    assert_eq!(config_value(&own, "bootstrap.servers").as_deref(), Some("b3"));
    set_entry(&mut own, "client.id", "other");
    assert_eq!(config_value(&own, "client.id").as_deref(), Some("other"));

    let consumer = consumer_config("b", "u", "p", "team-3");
    assert_eq!(config_value(&consumer, "group.id").as_deref(), Some("team-3"));
    assert_eq!(config_value(&consumer, "enable.auto.commit").as_deref(), Some("true"));
    assert_eq!(config_value(&consumer, "auto.commit.interval.ms").as_deref(), Some("5000"));
    assert_eq!(config_value(&consumer, "auto.offset.reset").as_deref(), Some("latest"));
    assert_eq!(config_value(&consumer, "session.timeout.ms").as_deref(), Some("10000"));
    let producer = producer_config("b", "u", "p");
    assert_eq!(config_value(&producer, "client.id").as_deref(), Some("leaderboard-producer"));
    assert_eq!(config_value(&producer, "message.timeout.ms").as_deref(), Some("5000"));
    let admin = admin_client_config("b", "u", "p");
    assert_eq!(config_value(&admin, "sasl.username").as_deref(), Some("u"));
}

const SECRET: &str = "not-a-real-password";

#[test]
fn team_labels() {
    assert_eq!(team_label(1), "team-1");
    assert_eq!(team_label(15), "team-15");
    assert_eq!(team_label(0), "team-0");
    assert_eq!(team_label(4_000_000_000), "team-4000000000");
}
