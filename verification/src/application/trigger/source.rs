use super::channel::Channel;
use super::edge::Edge;
use vstd::prelude::*;

verus! {

/// What the instrument is armed with: one value for each pair of a channel and
/// an edge.
#[allow(non_camel_case_types)]
#[derive(Clone, Copy, Debug, PartialEq, Eq, Structural)]
pub enum TriggerSource {
    CH1_PE,
    CH1_NE,
    CH2_PE,
    CH2_NE,
    EXT_PE,
    EXT_NE,
}

impl TriggerSource {
    /// The source of a channel and an edge.
    pub open spec fn of(channel: Channel, edge: Edge) -> TriggerSource {
        match (channel, edge) {
            (Channel::CH1, Edge::Positive) => TriggerSource::CH1_PE,
            (Channel::CH1, Edge::Negative) => TriggerSource::CH1_NE,
            (Channel::CH2, Edge::Positive) => TriggerSource::CH2_PE,
            (Channel::CH2, Edge::Negative) => TriggerSource::CH2_NE,
            (Channel::EXT, Edge::Positive) => TriggerSource::EXT_PE,
            (Channel::EXT, Edge::Negative) => TriggerSource::EXT_NE,
        }
    }

    /// The channel this source listens on.
    pub open spec fn channel(self) -> Channel {
        match self {
            TriggerSource::CH1_PE | TriggerSource::CH1_NE => Channel::CH1,
            TriggerSource::CH2_PE | TriggerSource::CH2_NE => Channel::CH2,
            TriggerSource::EXT_PE | TriggerSource::EXT_NE => Channel::EXT,
        }
    }

    /// The edge this source fires on.
    pub open spec fn edge(self) -> Edge {
        match self {
            TriggerSource::CH1_PE | TriggerSource::CH2_PE | TriggerSource::EXT_PE => Edge::Positive,
            TriggerSource::CH1_NE | TriggerSource::CH2_NE | TriggerSource::EXT_NE => Edge::Negative,
        }
    }
}

/// The source that two selections determine: defined once both are made.
pub open spec fn resolved(channel: Option<Channel>, edge: Option<Edge>) -> Option<TriggerSource> {
    match (channel, edge) {
        (Some(c), Some(e)) => Some(TriggerSource::of(c, e)),
        _ => None,
    }
}

/// Derives the trigger source from the selected channel and edge. While either
/// selection is still missing there is no source, which is a state to wait in
/// and not a fault.
pub fn resolve(channel: Option<Channel>, edge: Option<Edge>) -> (source: Option<TriggerSource>)
    ensures
        source == resolved(channel, edge),
        source is Some <==> channel is Some && edge is Some,
{
    match (channel, edge) {
        (Some(Channel::CH1), Some(Edge::Positive)) => Some(TriggerSource::CH1_PE),
        (Some(Channel::CH1), Some(Edge::Negative)) => Some(TriggerSource::CH1_NE),
        (Some(Channel::CH2), Some(Edge::Positive)) => Some(TriggerSource::CH2_PE),
        (Some(Channel::CH2), Some(Edge::Negative)) => Some(TriggerSource::CH2_NE),
        (Some(Channel::EXT), Some(Edge::Positive)) => Some(TriggerSource::EXT_PE),
        (Some(Channel::EXT), Some(Edge::Negative)) => Some(TriggerSource::EXT_NE),
        _ => None,
    }
}

/// The six pairs of a channel and an edge and the six sources match one to one:
/// every pair has a source, which listens on the pair's channel and fires on the
/// pair's edge; two pairs with one source are one pair; and every source is the
/// source of the pair of its own channel and edge.
pub proof fn lemma_resolved_one_to_one(
    channel: Channel,
    edge: Edge,
    other_channel: Channel,
    other_edge: Edge,
    source: TriggerSource,
)
    ensures
        resolved(Some(channel), Some(edge)) is Some,
        resolved(Some(channel), Some(edge))->0.channel() == channel,
        resolved(Some(channel), Some(edge))->0.edge() == edge,
        resolved(Some(channel), Some(edge)) == resolved(Some(other_channel), Some(other_edge))
            ==> channel == other_channel && edge == other_edge,
        resolved(Some(source.channel()), Some(source.edge())) == Some(source),
{
}

/// With a selection missing there is no source, whatever the other selection is.
pub proof fn lemma_resolved_needs_both(channel: Option<Channel>, edge: Option<Edge>)
    ensures
        resolved(None, edge) is None,
        resolved(channel, None) is None,
{
}

} // verus!
