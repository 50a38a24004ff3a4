//! Volume sources. The constant fallback provider lives here in full; for
//! the live peak monitor, whose stream is pumped by the process around the
//! library, this module decides what one peek at the stream means and which
//! bytes hold the newest peak sample.

use vstd::prelude::*;

verus! {

/// Intensity the constant fallback provider reports: 0.8 units.
pub const FALLBACK_INTENSITY: u64 = 800_000;

/// A provider that always reports the same configured amplitude, used when
/// no live audio monitor can be constructed.
#[derive(Clone, Copy, PartialEq, Debug)]
pub struct ConstantVolumeProvider {
    pub intensity: u64,
}

impl ConstantVolumeProvider {
    pub fn new(intensity: u64) -> (p: Self)
        ensures
            p.intensity == intensity,
    {
        ConstantVolumeProvider { intensity }
    }

    /// Always has a sample ready: the configured amplitude.
    pub fn poll_volume(&self) -> (r: Option<u64>)
        ensures
            r == Some(self.intensity),
    {
        Some(self.intensity)
    }
}

/// One peek at the live monitor stream, as the poller sees it: nothing new,
/// a hole in the record, or a fragment of raw sample bytes.
#[derive(Clone, PartialEq, Debug)]
pub enum PeekOutcome {
    Empty,
    Hole,
    Data(Vec<u8>),
}

/// What the poller must do after one peek.
#[derive(Clone, Copy, PartialEq, Debug)]
pub enum PollAction {
    /// Nothing new arrived: leave the stream alone, report no sample.
    KeepWaiting,
    /// A hole: discard the fragment, report no sample.
    DiscardOnly,
    /// A data fragment: discard it and decode the newest sample from these
    /// four bytes, the last of the fragment.
    DecodeSample { b0: u8, b1: u8, b2: u8, b3: u8 },
    /// A data fragment too short to hold one sample: a malformed read.
    Malformed,
}

/// Decides what one peek at the peak-detect stream yields: the newest
/// sample sits in the last four bytes of a data fragment.
pub fn poll_decision(outcome: &PeekOutcome) -> (a: PollAction)
    ensures
        match outcome {
            PeekOutcome::Empty => a is KeepWaiting,
            PeekOutcome::Hole => a is DiscardOnly,
            PeekOutcome::Data(items) => if items@.len() >= 4 {
                a == (PollAction::DecodeSample {
                    b0: items@[items@.len() - 4],
                    b1: items@[items@.len() - 3],
                    b2: items@[items@.len() - 2],
                    b3: items@[items@.len() - 1],
                })
            } else {
                a is Malformed
            },
        },
{
    match outcome {
        PeekOutcome::Empty => PollAction::KeepWaiting,
        PeekOutcome::Hole => PollAction::DiscardOnly,
        PeekOutcome::Data(items) => {
            let len = items.len();
            if len >= 4 {
                PollAction::DecodeSample {
                    b0: items[len - 4],
                    b1: items[len - 3],
                    b2: items[len - 2],
                    b3: items[len - 1],
                }
            } else {
                PollAction::Malformed
            }
        }
    }
}

} // verus!
