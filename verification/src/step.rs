//! The phase-by-phase session behind the step API.
//!
//! A session is created once its input is loaded, then runs the exploration
//! phase, then the compression phase, and then hands out the final layout.
//! Each phase runs at most once and only in that order; a request out of
//! order is refused and leaves the session as it was.
use crate::rng::{advanced, next_rng, next_word, seeded_generator};
use rand::rngs::Xoshiro256PlusPlus;
use vstd::prelude::*;

verus! {

/// Where a session stands.
#[derive(Clone, Copy, Debug, PartialEq, Eq, Structural)]
pub enum Phase {
    /// Loaded; nothing has run yet.
    Init,
    /// The exploration phase has run.
    Exploration,
    /// The compression phase has run; the final layout is available.
    Compression,
    /// Finished.
    Done,
}

/// May the exploration phase start from `phase`?
pub open spec fn exploration_allowed(phase: Phase) -> bool {
    phase == Phase::Init
}

/// May the compression phase start from `phase`, when the exploration phase
/// left `n_solutions` feasible layouts?
pub open spec fn compression_allowed(phase: Phase, n_solutions: nat) -> bool {
    phase == Phase::Exploration && n_solutions > 0
}

/// A step session over layouts of type `S`.
pub struct StepSession<S> {
    phase: Phase,
    rng: Xoshiro256PlusPlus,
    solutions: Vec<S>,
    solution: Option<S>,
    emit_json: bool,
}

impl<S> StepSession<S> {
    pub closed spec fn phase(&self) -> Phase {
        self.phase
    }

    /// The feasible layouts that the exploration phase left, oldest first.
    pub closed spec fn solutions(&self) -> Seq<S> {
        self.solutions@
    }

    /// The final layout, once the compression phase has run.
    pub closed spec fn solution(&self) -> Option<S> {
        self.solution
    }

    /// Whether progress reports of the improving kinds carry the layout.
    pub closed spec fn emits_json(&self) -> bool {
        self.emit_json
    }

    /// The session's generator, from which each phase's generator is drawn.
    pub closed spec fn rng(&self) -> Xoshiro256PlusPlus {
        self.rng
    }

    /// The phases leave the session consistent: nothing is recorded before
    /// the phase that records it has run, and the final layout exists exactly
    /// when the compression phase has run.
    pub closed spec fn wf(&self) -> bool {
        &&& self.phase != Phase::Done
        &&& (self.phase == Phase::Init ==> self.solutions@.len() == 0)
        &&& (self.solution is Some <==> self.phase == Phase::Compression)
    }

    /// A fresh session with its generator.
    pub fn new(rng: Xoshiro256PlusPlus) -> (session: Self)
        ensures
            session.wf(),
            session.phase() == Phase::Init,
            session.solutions() == Seq::<S>::empty(),
            session.solution() is None,
            !session.emits_json(),
            session.rng() == rng,
    {
        StepSession { phase: Phase::Init, rng, solutions: Vec::new(), solution: None, emit_json: false }
    }

    /// Chooses whether improving reports carry the layout: they do when the
    /// C flag `emit_json` is non-zero.
    pub fn set_emit_json(&mut self, emit_json: i32)
        requires
            old(self).wf(),
        ensures
            final(self).wf(),
            final(self).emits_json() == (emit_json != 0),
            final(self).phase() == old(self).phase(),
            final(self).solutions() == old(self).solutions(),
            final(self).solution() == old(self).solution(),
            final(self).rng() == old(self).rng(),
    {
        self.emit_json = emit_json != 0;
    }

    pub fn emit_json(&self) -> (b: bool)
        ensures
            b == self.emits_json(),
    {
        self.emit_json
    }

    pub fn current_phase(&self) -> (p: Phase)
        ensures
            p == self.phase(),
    {
        self.phase
    }

    /// Asks to start the exploration phase.  It is granted only to a fresh
    /// session, and then comes with the phase's generator, drawn from the
    /// session's; a refusal changes nothing.
    pub fn start_exploration(&mut self) -> (rng: Option<Xoshiro256PlusPlus>)
        requires
            old(self).wf(),
        ensures
            final(self).wf(),
            rng is Some <==> exploration_allowed(old(self).phase()),
            rng is Some <==> old(self).phase() == Phase::Init,
            rng matches Some(r) ==> r == seeded_generator(next_word(old(self).rng())),
            rng is Some ==> final(self).rng() == advanced(old(self).rng()),
            rng is None ==> *final(self) == *old(self),
            final(self).phase() == old(self).phase(),
            final(self).solutions() == old(self).solutions(),
            final(self).solution() == old(self).solution(),
            final(self).emits_json() == old(self).emits_json(),
    {
        if self.phase != Phase::Init {
            return None;
        }
        Some(next_rng(&mut self.rng))
    }

    /// The exploration phase has run and left `solutions`.
    pub fn finish_exploration(&mut self, solutions: Vec<S>)
        requires
            old(self).wf(),
            exploration_allowed(old(self).phase()),
        ensures
            final(self).wf(),
            final(self).phase() == Phase::Exploration,
            final(self).solutions() == solutions@,
            final(self).solution() is None,
            final(self).emits_json() == old(self).emits_json(),
            final(self).rng() == old(self).rng(),
    {
        self.solutions = solutions;
        self.phase = Phase::Exploration;
    }

    /// Asks to start the compression phase.  It is granted only after the
    /// exploration phase, and only when that left a layout to start from; it
    /// then comes with the phase's generator.  A refusal changes nothing.
    pub fn start_compression(&mut self) -> (rng: Option<Xoshiro256PlusPlus>)
        requires
            old(self).wf(),
        ensures
            final(self).wf(),
            rng is Some <==> compression_allowed(old(self).phase(), old(self).solutions().len()),
            rng is Some <==> (old(self).phase() == Phase::Exploration && old(self).solutions().len()
                > 0),
            rng matches Some(r) ==> r == seeded_generator(next_word(old(self).rng())),
            rng is Some ==> final(self).rng() == advanced(old(self).rng()),
            rng is None ==> *final(self) == *old(self),
            final(self).phase() == old(self).phase(),
            final(self).solutions() == old(self).solutions(),
            final(self).solution() == old(self).solution(),
            final(self).emits_json() == old(self).emits_json(),
    {
        if self.phase != Phase::Exploration {
            return None;
        }
        if self.solutions.len() == 0 {
            return None;
        }
        Some(next_rng(&mut self.rng))
    }

    /// The layout the compression phase starts from: the last one the
    /// exploration phase found.
    pub fn compression_input(&self) -> (start: &S)
        requires
            self.wf(),
            compression_allowed(self.phase(), self.solutions().len()),
        ensures
            *start == self.solutions().last(),
    {
        &self.solutions[self.solutions.len() - 1]
    }

    /// The compression phase has run and produced `solution`.
    pub fn finish_compression(&mut self, solution: S)
        requires
            old(self).wf(),
            compression_allowed(old(self).phase(), old(self).solutions().len()),
        ensures
            final(self).wf(),
            final(self).phase() == Phase::Compression,
            final(self).solution() == Some(solution),
            final(self).solutions() == old(self).solutions(),
            final(self).emits_json() == old(self).emits_json(),
            final(self).rng() == old(self).rng(),
    {
        self.solution = Some(solution);
        self.phase = Phase::Compression;
    }

    /// The final layout, when the compression phase has run.
    pub fn final_solution(&self) -> (solution: Option<&S>)
        requires
            self.wf(),
        ensures
            solution is Some <==> self.phase() == Phase::Compression,
            solution matches Some(s) ==> self.solution() == Some(*s),
    {
        match &self.solution {
            Some(s) => Some(s),
            None => None,
        }
    }
}

/// Each phase runs once, and in order: a fresh session may explore but not
/// compress; once exploration has run, exploring again is refused; once
/// compression has run, neither phase may start again.
pub proof fn lemma_each_phase_runs_once(n_solutions: nat)
    ensures
        exploration_allowed(Phase::Init),
        !compression_allowed(Phase::Init, n_solutions),
        !exploration_allowed(Phase::Exploration),
        n_solutions > 0 ==> compression_allowed(Phase::Exploration, n_solutions),
        !exploration_allowed(Phase::Compression),
        !compression_allowed(Phase::Compression, n_solutions),
{
}

} // verus!
