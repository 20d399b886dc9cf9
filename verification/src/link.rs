//! Late-bound, cached address resolution: a read handle over "the
//! current address for this logical role, if known", fed by a publisher
//! over a broadcast-style update channel.
//!
//! The resolution state moves monotonically from unknown to known: once
//! an address has been observed it is cached, and no later silence or
//! reset of the publisher ever regresses the link to unknown. The
//! contracts of `poll_get` and `adopt` state that monotonicity; the
//! suspending wait for a first value is driven by the surrounding
//! runtime, which hands the observed address to `adopt`.

use vstd::prelude::*;

use tokio::sync::watch;

use crate::act::Act;
use crate::actor::ActorId;
use crate::errors::LinkError;
use crate::errors::SendError;

verus! {

#[verifier::external_type_specification]
#[verifier::external_body]
#[verifier::reject_recursive_types(T)]
pub struct ExWatchSender<T>(watch::Sender<T>);

#[verifier::external_type_specification]
#[verifier::external_body]
#[verifier::reject_recursive_types(T)]
pub struct ExWatchReceiver<T>(watch::Receiver<T>);

/// Relies on tokio::sync::watch::channel: a single-value broadcast
/// channel, holding no address yet.
#[verifier::external_body]
fn address_channel<Msg>() -> (r: (
    watch::Sender<Option<Act<Msg>>>,
    watch::Receiver<Option<Act<Msg>>>,
))
{
    watch::channel(None)
}

/// Relies on tokio::sync::watch::Sender::send: replaces the current
/// value and marks it seen by nobody; a send with every receiver gone is
/// ignored, as publishing to no listeners is harmless.
#[verifier::external_body]
fn publish_address<Msg>(tx: &watch::Sender<Option<Act<Msg>>>, act: Act<Msg>) {
    let _ = tx.send(Some(act));
}

/// Relies on tokio::sync::watch::Receiver::has_changed: whether a value
/// newer than the last one observed is pending; a closed channel counts
/// as nothing new.
#[verifier::external_body]
fn address_changed<Msg>(rx: &watch::Receiver<Option<Act<Msg>>>) -> (r: bool) {
    match rx.has_changed() {
        Ok(changed) => changed,
        Err(_) => false,
    }
}

/// Relies on tokio::sync::watch::Receiver::borrow_and_update: reads the
/// current value out of the channel and marks it observed. The borrow
/// guard cannot leave this body, so the value is cloned out through the
/// library's own `Act` clone — a one-for-one conversion, nothing more.
#[verifier::external_body]
fn observe_address<Msg>(rx: &mut watch::Receiver<Option<Act<Msg>>>) -> (r: Option<Act<Msg>>) {
    match rx.borrow_and_update().as_ref() {
        Some(act) => Some(act.clone()),
        None => None,
    }
}

/// Relies on the Clone impl of tokio::sync::watch::Receiver: a clone
/// observes the same publisher, with its own notion of what it has seen.
#[verifier::external_body]
fn clone_watch_receiver<Msg>(rx: &watch::Receiver<Option<Act<Msg>>>) -> (r: watch::Receiver<
    Option<Act<Msg>>,
>) {
    rx.clone()
}

/// The writing side of a link: publishes the current address for a
/// logical role as it becomes known or changes.
#[verifier::reject_recursive_types(Msg)]
pub struct LinkPublisher<Msg> {
    tx: watch::Sender<Option<Act<Msg>>>,
}

impl<Msg> LinkPublisher<Msg> {
    /// A fresh publisher and a link on it that knows no address yet.
    pub fn new() -> (r: (LinkPublisher<Msg>, Link<Msg>))
        ensures
            r.1.cached() is None,
    {
        let (tx, rx) = address_channel();
        (LinkPublisher { tx }, Link::new(rx))
    }

    /// Publishes a fresh address for the role.
    pub fn update(&self, act: Act<Msg>) {
        publish_address(&self.tx, act);
    }
}

/// A lazily-resolved, cached reference to an address that may not exist
/// yet: reads adopt whatever the publisher has made known, and once an
/// address has been observed the cache keeps resolving even if the
/// publisher goes silent.
#[verifier::reject_recursive_types(Msg)]
pub struct Link<Msg> {
    rx: watch::Receiver<Option<Act<Msg>>>,
    cache: Option<Act<Msg>>,
}

impl<Msg> Link<Msg> {
    /// The identity of the cached address, if an address was ever
    /// observed.
    pub closed spec fn cached(&self) -> Option<ActorId> {
        match self.cache {
            Some(act) => Some(act@),
            None => None,
        }
    }

    pub fn new(rx: watch::Receiver<Option<Act<Msg>>>) -> (r: Link<Msg>)
        ensures
            r.cached() is None,
    {
        Link { rx, cache: None }
    }

    /// Resolves without suspending: adopts a fresher published address
    /// if one is pending, else answers from the cache. Yields nothing
    /// only while no address has ever been observed — a link that has
    /// once resolved resolves forever.
    pub fn poll_get(&mut self) -> (r: Option<Act<Msg>>)
        ensures
            r is Some <==> final(self).cached() is Some,
            old(self).cached() is Some ==> r is Some,
            r matches Some(act) ==> final(self).cached() == Some(act@),
            r is None ==> old(self).cached() is None && final(self).cached() is None,
    {
        if address_changed(&self.rx) {
            match observe_address(&mut self.rx) {
                Some(act) => {
                    let adopted = act.clone();
                    self.cache = Some(act);
                    return Some(adopted);
                },
                None => {},
            }
        }
        match &self.cache {
            Some(act) => Some(act.clone()),
            None => None,
        }
    }

    /// Adopts an address the surrounding runtime awaited from the
    /// publisher: from here on the link resolves without suspending.
    pub fn adopt(&mut self, act: Act<Msg>) -> (r: Act<Msg>)
        ensures
            final(self).cached() == Some(act@),
            r@ == act@,
    {
        let adopted = act.clone();
        self.cache = Some(act);
        adopted
    }

    /// A fresh handle on the publisher's channel, for the surrounding
    /// runtime to await a first value on; what it observes is handed to
    /// `adopt`.
    pub fn watch(&self) -> watch::Receiver<Option<Act<Msg>>> {
        clone_watch_receiver(&self.rx)
    }

    /// Resolves and delegates a non-suspending send: `Unavailable` hands
    /// the message back when no address was ever observed, and a
    /// delegated failure hands it back inside the send error. Any
    /// outcome other than `Unavailable` means an address was resolved
    /// and is now cached.
    pub fn try_cast(&mut self, msg: Msg) -> (r: Result<(), LinkError<Msg, Msg>>)
        ensures
            old(self).cached() is Some ==> !(r matches Err(LinkError::Unavailable(_))),
            r is Ok ==> final(self).cached() is Some,
            r matches Err(LinkError::Send(_)) ==> final(self).cached() is Some,
            r matches Err(LinkError::Unavailable(m)) ==> m == msg && final(self).cached() is None,
            r matches Err(LinkError::Send(SendError::Full(m))) ==> m == msg,
            r matches Err(LinkError::Send(SendError::Closed(m))) ==> m == msg,
            !(r matches Err(LinkError::Call(_))),
    {
        match self.poll_get() {
            None => Err(LinkError::Unavailable(msg)),
            Some(act) => {
                match act.try_cast(msg) {
                    Ok(()) => Ok(()),
                    Err(e) => Err(LinkError::Send(e)),
                }
            },
        }
    }
}

impl<Msg> Clone for Link<Msg> {
    /// A clone observes the same publisher and starts from the same
    /// cache.
    fn clone(&self) -> (r: Self)
        ensures
            r.cached() == self.cached(),
    {
        let cache = match &self.cache {
            Some(act) => Some(act.clone()),
            None => None,
        };
        Link { rx: clone_watch_receiver(&self.rx), cache }
    }
}

/// Re-attaches the message a failed resolution was carrying, so the
/// caller can retry, queue, or drop it instead of losing it.
pub fn attach_msg<Msg>(err: LinkError<(), Msg>, msg: Msg) -> (r: LinkError<Msg, Msg>)
    ensures
        err is Unavailable ==> r == LinkError::<Msg, Msg>::Unavailable(msg),
        err matches LinkError::Send(e) ==> r == LinkError::<Msg, Msg>::Send(e),
        err matches LinkError::Call(e) ==> r == LinkError::<Msg, Msg>::Call(e),
{
    match err {
        LinkError::Unavailable(()) => LinkError::Unavailable(msg),
        LinkError::Send(e) => LinkError::Send(e),
        LinkError::Call(e) => LinkError::Call(e),
    }
}

} // verus!
