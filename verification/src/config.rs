//! The configurations with which the clients of the bus are made.
//!
//! A send is given up after five seconds, so that no publish blocks without
//! bound. A consumer commits nothing by itself: a position is committed only
//! when the loop asks for it.

use rdkafka::config::{ClientConfig, RDKafkaLogLevel};
use vstd::prelude::*;
use crate::secrets::{Secrets, SecretsView};

verus! {

/// `rdkafka::config::ClientConfig`: the parameters and the log level from
/// which a client of the bus is made.
#[verifier::external_type_specification]
#[verifier::external_body]
pub struct ExClientConfig(ClientConfig);

/// The parameters that a configuration holds, each with its value.
pub uninterp spec fn config_entries(config: ClientConfig) -> Map<Seq<char>, Seq<char>>;

/// A configuration's parameters where it has none.
pub open spec fn no_entries() -> Map<Seq<char>, Seq<char>> {
    Map::empty()
}

/// Whether a configuration asks its client to log at the debug level.
pub uninterp spec fn logs_debug(config: ClientConfig) -> bool;

/// `ClientConfig::new`: a configuration without parameters. Nothing is
/// claimed of its log level, which follows the process's logger.
#[verifier::external_body]
fn empty_config() -> (fresh: ClientConfig)
    ensures
        config_entries(fresh) == no_entries(),
{
    ClientConfig::new()
}

/// `ClientConfig::set`: gives the parameter `key` the value `value`, in place
/// of any value it had. The log level stays.
#[verifier::external_body]
fn set_entry(target: &mut ClientConfig, key: &str, value: &str)
    ensures
        config_entries(*final(target)) == config_entries(*old(target)).insert(key@, value@),
        logs_debug(*final(target)) == logs_debug(*old(target)),
{
    target.set(key, value);
}

/// `ClientConfig::set_log_level` with the debug level. The parameters stay.
#[verifier::external_body]
fn set_debug_level(target: &mut ClientConfig)
    ensures
        config_entries(*final(target)) == config_entries(*old(target)),
        logs_debug(*final(target)),
{
    target.set_log_level(RDKafkaLogLevel::Debug);
}

/// The group of the consumer that reads the relay's own topic.
pub const RELAY_GROUP: &'static str = "test";

/// The group of the consumer that answers on a hosted bus.
pub const HOSTED_GROUP: &'static str = "hello";

/// The parameters of a producer for the bus at `url`.
pub open spec fn producer_entries(url: Seq<char>) -> Map<Seq<char>, Seq<char>> {
    no_entries().insert("bootstrap.servers"@, url).insert(
        "message.timeout.ms"@,
        "5000"@,
    )
}

/// The parameters of a consumer in `group` for the bus at `url`.
pub open spec fn consumer_entries(url: Seq<char>, group: Seq<char>) -> Map<Seq<char>, Seq<char>> {
    no_entries().insert("group.id"@, group).insert(
        "bootstrap.servers"@,
        url,
    ).insert("enable.partition.eof"@, "false"@).insert("session.timeout.ms"@, "6000"@).insert(
        "enable.auto.commit"@,
        "false"@,
    )
}

/// `entries`, and the parameters that sign a client in with SASL over TLS.
pub open spec fn with_sign_in(entries: Map<Seq<char>, Seq<char>>, secrets: SecretsView) -> Map<
    Seq<char>,
    Seq<char>,
> {
    entries.insert("sasl.mechanism"@, "SCRAM-SHA-256"@).insert(
        "security.protocol"@,
        "SASL_SSL"@,
    ).insert("sasl.username"@, secrets.username).insert("sasl.password"@, secrets.password)
}

fn sign_in(config: &mut ClientConfig, secrets: &Secrets)
    ensures
        config_entries(*final(config)) == with_sign_in(config_entries(*old(config)), secrets@),
        logs_debug(*final(config)) == logs_debug(*old(config)),
{
    set_entry(config, "sasl.mechanism", "SCRAM-SHA-256");
    set_entry(config, "security.protocol", "SASL_SSL");
    set_entry(config, "sasl.username", secrets.username());
    set_entry(config, "sasl.password", secrets.password());
}

/// The configuration of a producer for the bus at `url`.
pub fn producer_config(url: &str) -> (config: ClientConfig)
    ensures
        config_entries(config) == producer_entries(url@),
{
    let mut config = empty_config();
    set_entry(&mut config, "bootstrap.servers", url);
    set_entry(&mut config, "message.timeout.ms", "5000");
    config
}

/// The configuration of a consumer in `group` for the bus at `url`. Its
/// client logs at the debug level.
pub fn consumer_config(url: &str, group: &str) -> (config: ClientConfig)
    ensures
        config_entries(config) == consumer_entries(url@, group@),
        logs_debug(config),
{
    let mut config = empty_config();
    set_entry(&mut config, "group.id", group);
    set_entry(&mut config, "bootstrap.servers", url);
    set_entry(&mut config, "enable.partition.eof", "false");
    set_entry(&mut config, "session.timeout.ms", "6000");
    set_entry(&mut config, "enable.auto.commit", "false");
    set_debug_level(&mut config);
    config
}

/// The configuration of a producer for a hosted bus: that of a plain
/// producer, and the sign-in.
pub fn hosted_producer_config(secrets: &Secrets) -> (config: ClientConfig)
    ensures
        config_entries(config) == with_sign_in(producer_entries(secrets@.url), secrets@),
{
    let mut config = producer_config(secrets.url());
    sign_in(&mut config, secrets);
    config
}

/// The configuration of a consumer in `group` for a hosted bus: that of a
/// plain consumer, and the sign-in.
pub fn hosted_consumer_config(secrets: &Secrets, group: &str) -> (config: ClientConfig)
    ensures
        config_entries(config) == with_sign_in(
            consumer_entries(secrets@.url, group@),
            secrets@,
        ),
        logs_debug(config),
{
    let mut config = consumer_config(secrets.url(), group);
    sign_in(&mut config, secrets);
    config
}

} // verus!
