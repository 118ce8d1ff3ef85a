use vstd::prelude::*;

use crate::audio::engine::{advance_generation, lemma_generations_distinct, PlaybackPayload};

verus! {

/// The mathematical state of a `Reporter`.
pub struct ReporterView {
    /// The generation of the session the reporter watches.
    pub generation: u64,
    /// Whether the reporter has stopped for good.
    pub stopped: bool,
}

/// Whether a reporter in state `r` forwards a sample taken at
/// `sample_generation`.
pub open spec fn forwards(r: ReporterView, sample_generation: u64) -> bool {
    !r.stopped && r.generation == sample_generation
}

/// The state of a reporter in state `r` after a sample taken at
/// `sample_generation`.
pub open spec fn after_tick(r: ReporterView, sample_generation: u64) -> ReporterView {
    ReporterView { stopped: !forwards(r, sample_generation), ..r }
}

/// How many of the samples, taken at the generations `gens` in turn, a
/// reporter in state `r` forwards.
pub open spec fn emitted(r: ReporterView, gens: Seq<u64>) -> nat
    decreases gens.len(),
{
    if gens.len() == 0 {
        0
    } else {
        (if forwards(r, gens[0]) {
            1nat
        } else {
            0nat
        }) + emitted(after_tick(r, gens[0]), gens.drop_first())
    }
}

/// A stopped reporter forwards none of any later samples.
pub proof fn lemma_stopped_reporter_is_silent(r: ReporterView, gens: Seq<u64>)
    requires
        r.stopped,
    ensures
        emitted(r, gens) == 0,
    decreases gens.len(),
{
    if gens.len() > 0 {
        lemma_stopped_reporter_is_silent(after_tick(r, gens[0]), gens.drop_first());
    }
}

/// Once the engine has moved on from the reporter's session, by any number of
/// starts short of a full wrap of the counter, the reporter forwards none of
/// the samples taken from then on.
pub proof fn lemma_superseded_reporter_is_silent(r: ReporterView, starts: nat, gens: Seq<u64>)
    requires
        0 < starts < 0x1_0000_0000_0000_0000,
        gens.len() > 0,
        gens[0] == advance_generation(r.generation, starts),
    ensures
        emitted(r, gens) == 0,
{
    lemma_generations_distinct(r.generation, starts);
    lemma_stopped_reporter_is_silent(after_tick(r, gens[0]), gens.drop_first());
}

/// Decides, tick by tick, whether a progress sample reaches the consumer. It
/// is bound to the generation of one session, and stops for good at the first
/// sample of another session or when the consumer is gone.
pub struct Reporter {
    generation: u64,
    stopped: bool,
}

impl View for Reporter {
    type V = ReporterView;

    closed spec fn view(&self) -> ReporterView {
        ReporterView { generation: self.generation, stopped: self.stopped }
    }
}

impl Reporter {
    /// A live reporter for the session of `generation`.
    pub fn new(generation: u64) -> (r: Reporter)
        ensures
            r@ == (ReporterView { generation, stopped: false }),
    {
        Reporter { generation, stopped: false }
    }

    /// The generation the reporter is bound to.
    pub fn generation(&self) -> (r: u64)
        ensures
            r == self@.generation,
    {
        self.generation
    }

    /// Whether the reporter still polls.
    pub fn is_live(&self) -> (r: bool)
        ensures
            r == !self@.stopped,
    {
        !self.stopped
    }

    /// Takes one sample, as `Engine::get_status` returns it: the payload to
    /// forward, or `None` where the sample belongs to another session (which
    /// stops the reporter) or the reporter has stopped.
    pub fn tick(&mut self, sample: (PlaybackPayload, u64)) -> (r: Option<PlaybackPayload>)
        ensures
            final(self)@ == after_tick(old(self)@, sample.1),
            r == if forwards(old(self)@, sample.1) {
                Some(sample.0)
            } else {
                None
            },
    {
        if !self.stopped && sample.1 == self.generation {
            Some(sample.0)
        } else {
            self.stopped = true;
            None
        }
    }

    /// Records whether the consumer took the last payload; a consumer that
    /// is gone stops the reporter.
    pub fn delivered(&mut self, accepted: bool)
        ensures
            final(self)@ == (ReporterView { stopped: old(self)@.stopped || !accepted, ..old(self)@ }),
    {
        if !accepted {
            self.stopped = true;
        }
    }
}

} // verus!
