use super::channel::Channel;
use super::edge::Edge;
use super::mode::Mode;
use super::Signal;
use crate::router::Relabel;
use crate::widget::radio;
use vstd::prelude::*;

verus! {

/// The mapping that the page holds for its three radio groups. What a group's
/// choice means follows from the kind of its options: a chosen channel is the
/// message `Channel`, a chosen edge `Edge`, a chosen mode `Mode`.
#[derive(Clone, Copy, Debug)]
pub struct Radios;

impl Relabel<radio::Signal<Channel>> for Radios {
    type Parent = Signal;

    open spec fn relabeled(&self, child: radio::Signal<Channel>) -> Signal {
        match child {
            radio::Signal::Change(channel) => Signal::Channel(channel),
        }
    }

    fn relabel(&self, child: radio::Signal<Channel>) -> (parent: Signal) {
        match child {
            radio::Signal::Change(channel) => Signal::Channel(channel),
        }
    }
}

impl Relabel<radio::Signal<Edge>> for Radios {
    type Parent = Signal;

    open spec fn relabeled(&self, child: radio::Signal<Edge>) -> Signal {
        match child {
            radio::Signal::Change(edge) => Signal::Edge(edge),
        }
    }

    fn relabel(&self, child: radio::Signal<Edge>) -> (parent: Signal) {
        match child {
            radio::Signal::Change(edge) => Signal::Edge(edge),
        }
    }
}

impl Relabel<radio::Signal<Mode>> for Radios {
    type Parent = Signal;

    open spec fn relabeled(&self, child: radio::Signal<Mode>) -> Signal {
        match child {
            radio::Signal::Change(mode) => Signal::Mode(mode),
        }
    }

    fn relabel(&self, child: radio::Signal<Mode>) -> (parent: Signal) {
        match child {
            radio::Signal::Change(mode) => Signal::Mode(mode),
        }
    }
}

} // verus!
