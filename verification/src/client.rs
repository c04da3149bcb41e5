//! Common client functionalities.
//!
//! A [`Client`] owns the engine-side client instance: it consumes the
//! configuration object a build produced and is tagged with its kind at
//! construction only. For a producer, the delivery callback is registered
//! into the configuration before the client is created, which is the only
//! moment registration takes effect. A [`Topic`] holds a shared handle to
//! its parent client, so the parent cannot be destroyed while the topic is
//! alive — the parent/child ordering is enforced by construction, not by a
//! runtime check. The delivery callback itself lives with the producer.

use std::sync::Arc;

use vstd::prelude::*;

use crate::config::{
    apply_pairs, build_ok, keys_unique, pair_error_matches, pair_ok, pairs_view, upsert,
    upsert_pair, verdicts_view, ConfVerdict, NativeConfig,
};
use crate::error::{Error, RespError};
use crate::util::{contains_nul, has_nul};

verus! {

/// Specifies the type of client.
#[derive(Clone, Copy, Debug, PartialEq, Eq, Structural)]
pub enum ClientType {
    /// A consumer client.
    Consumer,
    /// A producer client.
    Producer,
}

/// An engine client.
#[derive(Debug)]
pub struct Client {
    /// The kind the client was created with; immutable thereafter.
    pub client_type: ClientType,
    /// Whether the delivery callback was registered into the
    /// configuration before the client was created; true exactly for
    /// producers.
    pub dr_callback: bool,
    /// The configuration object the constructor consumed.
    pub conf: NativeConfig,
}

/// Relies on alloc's `Arc::clone`: the returned handle shares the same
/// client; the client is destroyed only when the last handle is dropped.
#[verifier::external_body]
pub(crate) fn share_client(c: &Arc<Client>) -> (r: Arc<Client>)
    ensures
        r == *c,
{
    c.clone()
}

impl Client {
    /// Create the engine client of the given kind from a built
    /// configuration object, consuming it. For a producer, the delivery
    /// callback is registered into the configuration first. The engine
    /// answers with its error-buffer text when it returns no handle;
    /// that answer enters as `creation_error`.
    pub fn new(config: NativeConfig, client_type: ClientType, creation_error: Option<String>) -> (r:
        Result<Client, Error>)
        ensures
            ({
                match r {
                    Ok(c) => creation_error is None && c.client_type == client_type
                        && c.dr_callback == (client_type is Producer) && c.conf@ == config@,
                    Err(e) => creation_error matches Some(s) && e == Error::ClientCreation(s),
                }
            }),
    {
        let dr_callback = match client_type {
            ClientType::Producer => true,
            ClientType::Consumer => false,
        };
        match creation_error {
            Some(errstr) => Err(Error::ClientCreation(errstr)),
            None => Ok(Client { client_type, dr_callback, conf: config }),
        }
    }
}

/// Information returned by the producer after a message has been
/// delivered or failed to be delivered.
#[derive(Clone, Copy, Debug, PartialEq, Eq, Structural)]
pub struct DeliveryStatus {
    /// The engine's response code for the delivery.
    pub error: RespError,
    /// The partition the message went to.
    pub partition: i32,
    /// The offset assigned to the message.
    pub offset: i64,
}

/// One completion record of the engine: handed to the delivery callback
/// during a dispatch step, carrying the opaque token that was attached to
/// the send and the outcome of that send.
#[derive(Clone, Copy, Debug, PartialEq, Eq, Structural)]
pub struct DeliveryEvent {
    /// The completion token the send was enqueued with.
    pub token: u64,
    /// The engine's response code for the delivery.
    pub error: RespError,
    /// The partition the message went to.
    pub partition: i32,
    /// The offset assigned to the message.
    pub offset: i64,
}

impl DeliveryEvent {
    /// The delivery status this record carries.
    pub open spec fn spec_status(self) -> DeliveryStatus {
        DeliveryStatus { error: self.error, partition: self.partition, offset: self.offset }
    }

    /// Build the delivery status this record carries.
    pub fn status(&self) -> (s: DeliveryStatus)
        ensures
            s == self.spec_status(),
    {
        DeliveryStatus { error: self.error, partition: self.partition, offset: self.offset }
    }
}

/// Builder for a Topic.
pub struct TopicBuilder {
    /// The topic name.
    pub name: String,
    /// The accumulated topic options, keys unique.
    pub conf: Vec<(String, String)>,
    /// The parent client the topic will belong to.
    pub client: Arc<Client>,
}

/// Represents a topic, associated to a client. The topic keeps a shared
/// handle to its parent, so the parent outlives it by construction.
#[derive(Debug)]
pub struct Topic {
    /// The topic name.
    pub name: String,
    /// The parent client; held so the parent cannot be destroyed while
    /// this topic is alive.
    pub client: Arc<Client>,
}

impl TopicBuilder {
    /// Start building a topic of the given name under a client.
    pub fn new(client: &Arc<Client>, name: &str) -> (b: TopicBuilder)
        ensures
            b.name@ == name@,
            b.conf@.len() == 0,
            b.client == *client,
    {
        TopicBuilder { name: name.to_owned(), conf: Vec::new(), client: share_client(client) }
    }

    /// Set a topic option; a later write of the same key wins. Returns
    /// the builder again, for chaining.
    pub fn set(&mut self, key: &str, value: &str) -> (r: &mut TopicBuilder)
        requires
            keys_unique(pairs_view(old(self).conf@)),
        ensures
            pairs_view(r.conf@) == upsert(pairs_view(old(self).conf@), key@, value@),
            keys_unique(pairs_view(r.conf@)),
            r.name == old(self).name,
            r.client == old(self).client,
            *final(self) == *final(r),
    {
        upsert_pair(&mut self.conf, key, value);
        self
    }

    /// Create the topic: apply every accumulated option, in insertion
    /// order, to a fresh engine-side topic configuration — `verdicts[i]`
    /// is the engine's answer to option `i` — then ask the engine for the
    /// topic itself; `created` is whether it returned a handle. The first
    /// failing option fails the whole creation; a refused handle
    /// implicates the topic name, which the engine does not distinguish
    /// from other failures on this path.
    pub fn create(&self, verdicts: &Vec<ConfVerdict>, created: bool) -> (r: Result<Topic, Error>)
        requires
            verdicts@.len() == self.conf@.len(),
        ensures
            ({
                let ps = pairs_view(self.conf@);
                let vs = verdicts_view(verdicts@);
                match r {
                    Ok(t) => !has_nul(self.name@) && build_ok(ps, vs) && created && t.name@
                        == self.name@ && t.client == self.client,
                    Err(e) => {
                        if has_nul(self.name@) {
                            e matches Error::Nul(s) && s@ == self.name@
                        } else if !build_ok(ps, vs) {
                            exists|i: int|
                                0 <= i < ps.len() && !pair_ok(ps[i], vs[i]) && (forall|j: int|
                                    0 <= j < i ==> pair_ok(ps[j], vs[j]))
                                    && #[trigger] pair_error_matches(e, ps[i], vs[i])
                        } else {
                            !created && (e matches Error::TopicName(s) && s@ == self.name@)
                        }
                    },
                }
            }),
    {
        if contains_nul(self.name.as_str()) {
            return Err(Error::Nul(self.name.clone()));
        }
        match apply_pairs(&self.conf, verdicts) {
            Err(e) => Err(e),
            Ok(_) => {
                if !created {
                    Err(Error::TopicName(self.name.clone()))
                } else {
                    Ok(Topic { name: self.name.clone(), client: share_client(&self.client) })
                }
            },
        }
    }
}

} // verus!
