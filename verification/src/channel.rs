//! Channels and their delivery guarantees.
//!
//! A channel is declared once, with a fixed delivery mode; the receiving
//! side of a sequenced channel keeps, per sender, the newest sequence
//! number it has applied and discards anything stale.

use vstd::prelude::*;
use std::collections::HashMap;

verus! {

broadcast use vstd::std_specs::hash::group_hash_axioms;

/// The delivery guarantee a channel is declared with, fixed at startup.
///
/// `UnorderedReliable` delivers every message, in arbitrary arrival order.
/// `SequencedReliable` delivers every message but discards one that
/// arrives after a newer message from the same sender. `SequencedUnreliable`
/// neither retransmits nor buffers; it only discards stale arrivals.
#[derive(Clone, Copy, Debug, PartialEq, Eq, Structural)]
pub enum DeliveryMode {
    UnorderedReliable,
    SequencedReliable,
    SequencedUnreliable,
}

impl DeliveryMode {
    /// Whether this mode discards arrivals older than the newest applied.
    pub open spec fn is_sequenced(self) -> bool {
        self is SequencedReliable || self is SequencedUnreliable
    }

    pub fn sequenced(&self) -> (r: bool)
        ensures
            r == self.is_sequenced(),
    {
        match self {
            DeliveryMode::UnorderedReliable => false,
            DeliveryMode::SequencedReliable => true,
            DeliveryMode::SequencedUnreliable => true,
        }
    }
}

/// Whether an arrival with sequence number `seq` may be applied when the
/// newest applied number from its sender is `newest` (`None` before any).
pub open spec fn admits(mode: DeliveryMode, newest: Option<u64>, seq: u64) -> bool {
    if mode.is_sequenced() {
        match newest {
            None => true,
            Some(n) => seq > n,
        }
    } else {
        true
    }
}

/// Receiving side of one declared channel: its mode and, per sender, the
/// newest sequence number applied so far.
#[derive(Debug)]
pub struct ChannelReceiver {
    pub mode: DeliveryMode,
    pub newest: HashMap<u64, u64>,
}

impl ChannelReceiver {
    /// The newest sequence number this receiver has applied from `sender`.
    pub open spec fn newest_of(self, sender: u64) -> Option<u64> {
        if self.newest@.contains_key(sender) {
            Some(self.newest@[sender])
        } else {
            None
        }
    }

    pub fn new(mode: DeliveryMode) -> (r: ChannelReceiver)
        ensures
            r.mode == mode,
            forall|s: u64| #[trigger] r.newest_of(s) is None,
    {
        ChannelReceiver { mode, newest: HashMap::new() }
    }

    /// Decide whether an arrival from `sender` with number `seq` is applied,
    /// and remember it if so. On a sequenced channel an arrival is applied
    /// exactly when it is newer than everything already applied from that
    /// sender; an unordered channel applies everything and keeps no state.
    pub fn accept(&mut self, sender: u64, seq: u64) -> (applied: bool)
        ensures
            applied == admits(old(self).mode, old(self).newest_of(sender), seq),
            final(self).mode == old(self).mode,
            applied && old(self).mode.is_sequenced() ==> final(self).newest@ == old(
                self,
            ).newest@.insert(sender, seq),
            !(applied && old(self).mode.is_sequenced()) ==> final(self).newest@ == old(
                self,
            ).newest@,
    {
        if self.mode.sequenced() {
            let stale = match self.newest.get(&sender) {
                Some(n) => seq <= *n,
                None => false,
            };
            if stale {
                false
            } else {
                self.newest.insert(sender, seq);
                true
            }
        } else {
            true
        }
    }
}

/// Sequencing law: on a sequenced channel, once a message with number
/// `newer` has been applied, any arrival from the same sender with an
/// older-or-equal number is discarded: a stale message cannot be applied
/// after a newer one, because the remembered number only grows.
pub proof fn lemma_stale_never_applied(
    mode: DeliveryMode,
    newest: Option<u64>,
    newer: u64,
    stale: u64,
)
    requires
        mode.is_sequenced(),
        newest matches Some(n) && n >= newer,
        stale <= newer,
    ensures
        !admits(mode, newest, stale),
{
}

/// Whatever arrives, the remembered number of a sender only grows.
pub proof fn lemma_newest_monotone(pre: ChannelReceiver, post: ChannelReceiver, sender: u64, seq: u64)
    requires
        pre.mode.is_sequenced(),
        post.newest@ == if admits(pre.mode, pre.newest_of(sender), seq) {
            pre.newest@.insert(sender, seq)
        } else {
            pre.newest@
        },
    ensures
        forall|s: u64| pre.newest_of(s) matches Some(n) ==> #[trigger] post.newest_of(s) matches Some(m)
            && m >= n,
{
}

} // verus!
