use vstd::prelude::*;
use crate::error::Error;
use crate::handshake::ConnInfo;

verus! {

/// The outcome of server bootstrap, as the connection-info channel
/// carries it. Failure is a first-class outcome, not an exceptional
/// short-circuit: a subscriber must be able to react to bootstrap
/// failure without the process crashing in its context.
#[derive(Debug)]
pub enum HandshakeResult {
    /// The server is listening and reachable as the record says.
    Ready(ConnInfo),
    /// Bootstrap failed; no server is listening.
    Failed(Error),
}

/// A broadcast of one value: the write-once slot through which the
/// bootstrap hands the handshake outcome to any number of internal
/// subscribers, present or future.
///
/// The slot is written at most once and never overwritten, so every
/// subscriber that ever observes a value observes the same one. The
/// embedding process supplies the waiting (a subscriber that arrives
/// before publication blocks on its side until the slot is filled);
/// the library supplies the single-assignment semantics.
#[derive(Debug)]
pub struct ConnInfoChannel {
    /// The published outcome, once there is one.
    pub published: Option<HandshakeResult>,
}

/// What one publish attempt leaves in the channel: the value lands in an
/// empty slot, and a filled slot is never overwritten.
pub open spec fn spec_publish(c: ConnInfoChannel, r: HandshakeResult) -> ConnInfoChannel {
    if c.published is None {
        ConnInfoChannel { published: Some(r) }
    } else {
        c
    }
}

/// The channel after a whole sequence of publish attempts.
pub open spec fn run_publishes(c: ConnInfoChannel, attempts: Seq<HandshakeResult>) -> ConnInfoChannel
    decreases attempts.len(),
{
    if attempts.len() == 0 {
        c
    } else {
        run_publishes(spec_publish(c, attempts[0]), attempts.skip(1))
    }
}

impl ConnInfoChannel {
    /// A fresh channel, with nothing published yet.
    pub fn new() -> (c: Self)
        ensures
            c.published is None,
    {
        ConnInfoChannel { published: None }
    }

    /// Publishes the handshake outcome.
    ///
    /// Exactly one publish succeeds: the first call fills the slot and
    /// returns `Ok` whether or not any subscriber exists; a second call
    /// fails fast with an explicit error and leaves the first value
    /// untouched, so a published outcome is never silently overwritten.
    pub fn publish(&mut self, r: HandshakeResult) -> (res: Result<(), Error>)
        ensures
            *final(self) == spec_publish(*old(self), r),
            res is Ok <==> old(self).published is None,
            res matches Err(e) ==> e matches Error::Generic(d)
                && d@ == "a handshake outcome was already published on this channel"@,
    {
        match self.published {
            None => {
                self.published = Some(r);
                Ok(())
            },
            Some(_) => Err(
                Error::Generic("a handshake outcome was already published on this channel".to_owned()),
            ),
        }
    }

    /// The published outcome, if there is one yet.
    ///
    /// Every subscriber reads the same slot: two subscribers that both
    /// observe a value observe the identical one, whether they asked
    /// before or after publication.
    pub fn subscribe(&self) -> (r: Option<&HandshakeResult>)
        ensures
            r is Some <==> self.published is Some,
            r matches Some(v) ==> self.published == Some(*v),
    {
        self.published.as_ref()
    }
}

/// Once an outcome is published, it is final: whatever later publish
/// attempts are made, the channel still holds the first value, so every
/// subscriber — whenever it arrives — observes the identical outcome,
/// and no subscriber observes a different one than another.
pub proof fn lemma_published_value_is_stable(
    c: ConnInfoChannel,
    v: HandshakeResult,
    attempts: Seq<HandshakeResult>,
)
    requires
        c.published == Some(v),
    ensures
        run_publishes(c, attempts).published == Some(v),
    decreases attempts.len(),
{
    if attempts.len() > 0 {
        lemma_published_value_is_stable(spec_publish(c, attempts[0]), v, attempts.skip(1));
    }
}

/// From an empty channel, the first publish decides the outcome for
/// good: after it, any sequence of further attempts leaves the channel
/// holding exactly the first value.
pub proof fn lemma_first_publish_decides(
    c: ConnInfoChannel,
    first: HandshakeResult,
    attempts: Seq<HandshakeResult>,
)
    requires
        c.published is None,
    ensures
        run_publishes(spec_publish(c, first), attempts).published == Some(first),
{
    lemma_published_value_is_stable(spec_publish(c, first), first, attempts);
}

} // verus!
