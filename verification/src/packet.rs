//! What the chain answers: packet sequence numbers and the height of the
//! answer.

use std::cmp::Ordering;
use vstd::prelude::*;

verus! {

/// The sequence number of a packet: its place in the order in which a channel
/// end sent its packets.
#[derive(Clone, Copy, Debug, PartialEq, Eq, Hash, Structural)]
pub struct Sequence(pub u64);

/// The height of a chain: a revision number and the height of a block within
/// that revision. Heights are ordered by revision first.
#[derive(Clone, Copy, Debug, PartialEq, Eq, Ord, Hash, Structural)]
pub struct Height {
    /// The revision of the chain.
    pub revision_number: u64,
    /// The height of a block.
    pub revision_height: u64,
}

impl PartialOrd for Height {
    fn partial_cmp(&self, other: &Self) -> (r: Option<Ordering>) {
        if self.revision_number < other.revision_number {
            Some(Ordering::Less)
        } else if self.revision_number > other.revision_number {
            Some(Ordering::Greater)
        } else if self.revision_height < other.revision_height {
            Some(Ordering::Less)
        } else if self.revision_height > other.revision_height {
            Some(Ordering::Greater)
        } else {
            Some(Ordering::Equal)
        }
    }
}

impl vstd::std_specs::cmp::PartialOrdSpecImpl for Height {
    open spec fn obeys_partial_cmp_spec() -> bool {
        true
    }

    open spec fn partial_cmp_spec(&self, other: &Self) -> Option<Ordering> {
        if self.revision_number < other.revision_number {
            Some(Ordering::Less)
        } else if self.revision_number > other.revision_number {
            Some(Ordering::Greater)
        } else if self.revision_height < other.revision_height {
            Some(Ordering::Less)
        } else if self.revision_height > other.revision_height {
            Some(Ordering::Greater)
        } else {
            Some(Ordering::Equal)
        }
    }
}

/// The answer to the query: the sequence numbers of the packets with a
/// commitment on the channel end, and the height at which the chain answered.
#[derive(Debug, PartialEq, Eq)]
pub struct PacketSeqs {
    /// The height of the answer.
    pub height: Height,
    /// The sequence numbers, in the order in which the chain gave them.
    pub seqs: Vec<Sequence>,
}

/// An answer with its sequence numbers as a mathematical sequence.
pub struct PacketSeqsView {
    pub height: Height,
    pub seqs: Seq<Sequence>,
}

impl View for PacketSeqs {
    type V = PacketSeqsView;

    open spec fn view(&self) -> PacketSeqsView {
        PacketSeqsView { height: self.height, seqs: self.seqs@ }
    }
}

} // verus!
