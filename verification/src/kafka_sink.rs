//! Kafka sink settings. This library is built without a Kafka client, so an enabled
//! `[kafka]` section is refused; the producer settings such a client would be created with
//! are still derived here from the section.

use vstd::prelude::*;

use crate::text::{clone_opt_string, opt_view};

verus! {

/// `[kafka]`: whether to publish matched lines, and where.
#[derive(Debug)]
pub struct KafkaSection {
    pub enabled: bool,
    pub brokers: Vec<String>,
    pub topic: String,
    pub client_id: Option<String>,
}

impl Default for KafkaSection {
    fn default() -> (k: Self)
        ensures
            !k.enabled,
            k.brokers@.len() == 0,
            k.topic@.len() == 0,
            k.client_id is None,
    {
        KafkaSection { enabled: false, brokers: Vec::new(), topic: String::new(), client_id: None }
    }
}

/// Why the Kafka sink cannot be set up.
#[derive(Debug, PartialEq, Eq)]
pub enum KafkaError {
    /// `[kafka].enabled` is true, but no Kafka client is built into this program.
    ClientNotBuilt,
    /// `[kafka].topic` is empty.
    EmptyTopic,
}

/// Settings a Kafka producer is created with.
#[derive(Debug)]
pub struct ProducerSettings {
    /// `bootstrap.servers`.
    pub bootstrap_servers: String,
    /// `message.timeout.ms`.
    pub message_timeout_ms: String,
    /// `client.id`, when given.
    pub client_id: Option<String>,
    /// The topic records go to.
    pub topic: String,
}

/// The sink for matched lines; with `[kafka].enabled = false` it publishes nothing.
#[derive(Debug)]
pub struct KafkaPipeline {}

/// `parts` joined with `sep` between consecutive parts.
pub open spec fn joined(parts: Seq<Seq<char>>, sep: Seq<char>) -> Seq<char>
    decreases parts.len(),
{
    if parts.len() == 0 {
        Seq::empty()
    } else if parts.len() == 1 {
        parts[0]
    } else {
        joined(parts.drop_last(), sep) + sep + parts.last()
    }
}

/// The broker list a producer connects to: the configured brokers joined by commas, or the
/// local default broker.
pub open spec fn bootstrap_of(brokers: Seq<Seq<char>>) -> Seq<char> {
    if brokers.len() == 0 {
        "localhost:9092"@
    } else {
        joined(brokers, ","@)
    }
}

/// `parts` joined with `sep`.
pub fn join_strings(parts: &Vec<String>, sep: &str) -> (r: String)
    ensures
        r@ == joined(parts.deep_view(), sep@),
{
    let ghost all = parts.deep_view();
    let n = parts.len();
    let mut r = String::new();
    let mut i: usize = 0;
    while i < n
        invariant
            n == parts@.len(),
            all == parts.deep_view(),
            i <= n,
            r@ == joined(all.take(i as int), sep@),
        decreases n - i,
    {
        proof {
            assert(all.take(i + 1).drop_last() =~= all.take(i as int));
            assert(all.take(i + 1).last() == parts@[i as int]@);
        }
        if i == 0 {
            proof {
                assert(all.take(1) =~= seq![parts@[0]@]);
            }
            r = parts[i].clone();
        } else {
            r = r.concat(sep);
            r = r.concat(parts[i].as_str());
        }
        i = i + 1;
    }
    proof {
        assert(all.take(n as int) =~= all);
    }
    r
}

impl KafkaPipeline {
    /// The sink an `[kafka]` section asks for: a disabled section gives the no-op sink; an
    /// enabled one is refused, since no Kafka client is built in.
    pub fn from_section(section: &KafkaSection) -> (r: Result<Self, KafkaError>)
        ensures
            r is Ok <==> !section.enabled,
            section.enabled ==> r == Err::<Self, KafkaError>(KafkaError::ClientNotBuilt),
    {
        if !section.enabled {
            Ok(KafkaPipeline {  })
        } else {
            Err(KafkaError::ClientNotBuilt)
        }
    }

    /// Publish one line; the no-op sink accepts every line.
    pub fn publish(&self, line: &str) -> (r: Result<(), KafkaError>)
        ensures
            r is Ok,
    {
        Ok(())
    }
}

/// The producer settings an enabled `[kafka]` section gives: the topic must be non-empty;
/// an empty broker list means the local default broker; messages time out after 5000 ms.
pub fn producer_settings(section: &KafkaSection) -> (r: Result<ProducerSettings, KafkaError>)
    ensures
        r is Err <==> section.topic@.len() == 0,
        r is Err ==> r == Err::<ProducerSettings, KafkaError>(KafkaError::EmptyTopic),
        r matches Ok(s) ==> {
            &&& s.bootstrap_servers@ == bootstrap_of(section.brokers.deep_view())
            &&& s.message_timeout_ms@ == "5000"@
            &&& opt_view(s.client_id) == opt_view(section.client_id)
            &&& s.topic@ == section.topic@
        },
{
    if section.topic.as_str().unicode_len() == 0 {
        return Err(KafkaError::EmptyTopic);
    }
    let bootstrap_servers = if section.brokers.len() == 0 {
        String::from_str("localhost:9092")
    } else {
        join_strings(&section.brokers, ",")
    };
    Ok(ProducerSettings {
        bootstrap_servers,
        message_timeout_ms: String::from_str("5000"),
        client_id: clone_opt_string(&section.client_id),
        topic: section.topic.clone(),
    })
}

} // verus!
