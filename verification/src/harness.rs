//! The dual-node run: a state machine over the submit/produce/fetch/validate
//! loop.
//!
//! The harness drives two nodes that start from the same genesis: a producer
//! that seals one block per batch on request, and a validator that
//! independently re-executes every sealed block. The decisions of that loop
//! live here as a pure step function from state and observed event to the
//! next state; the surrounding program performs each requested action against
//! the real nodes and feeds the outcome back in. Every unexpected outcome is
//! fatal: the machine moves to a failure state and stops.

use vstd::prelude::*;

verus! {

/// The fatal outcome of a run, each variant one unexpected condition.
#[derive(Clone, Copy, Debug, PartialEq, Eq)]
pub enum Failure {
    /// The producer's pool refused a batch.
    SubmitFailed,
    /// The producer failed to seal a block on request.
    ProduceFailed,
    /// The sealed block was absent at the expected height.
    MissingBlock,
    /// The sealed block held the wrong number of transactions.
    CountMismatch,
    /// The validator rejected a block the producer sealed.
    ValidatorRejected,
    /// The driver reported an event the current phase cannot produce.
    UnexpectedEvent,
}

/// Where the harness stands inside the current batch.
#[derive(Clone, Copy, Debug, PartialEq, Eq)]
pub enum Phase {
    /// Submitting the current batch to the producer's pool.
    Submitting,
    /// Asking the producer to seal one block.
    Producing,
    /// Fetching the sealed block at the expected height.
    Fetching,
    /// Handing the sealed block to the validator.
    Validating,
    /// Every batch was processed and validated.
    Done,
    /// The run aborted.
    Failed(Failure),
}

/// The outcome of one action, as observed by the driver.
#[derive(Clone, Copy, Debug, PartialEq, Eq)]
pub enum Event {
    /// The pool accepted the batch.
    Submitted,
    /// The pool refused the batch.
    SubmitError,
    /// The producer sealed a block.
    Produced,
    /// The producer reported an error while sealing.
    ProduceError,
    /// The sealed block exists; it holds this many transactions.
    Fetched(usize),
    /// No sealed block exists at the expected height.
    BlockMissing,
    /// The validator executed and committed the block.
    Validated,
    /// The validator rejected the block.
    ValidationFailed,
}

/// The next action the driver must perform against the nodes.
#[derive(Clone, Copy, Debug, PartialEq, Eq)]
pub enum Action {
    /// Submit batch `i` (0-indexed) to the producer's pool.
    SubmitBatch(usize),
    /// Ask the producer to seal one block.
    ProduceBlock,
    /// Fetch the sealed block at this height from the producer.
    FetchBlock(usize),
    /// Hand the fetched block to the validator to execute and commit.
    ValidateBlock,
    /// The run is over; perform nothing further.
    Stop,
}

/// The fixed shape of a run.
#[derive(Clone, Copy, Debug, PartialEq, Eq)]
pub struct Config {
    /// How many batches, each sealed into one block.
    pub num_blocks: usize,
    /// How many transfers each batch holds.
    pub num_transactions: usize,
}

/// The harness state: the configured shape, how many batches are fully
/// validated, the chain heights confirmed on each node, and the phase.
#[derive(Clone, Copy, Debug, PartialEq, Eq)]
pub struct Harness {
    pub cfg: Config,
    /// Batches submitted, sealed, checked and validated so far.
    pub batches_done: usize,
    /// Producer height as confirmed by fetching sealed blocks.
    pub producer_height: usize,
    /// Validator height reached by committing sealed blocks.
    pub validator_height: usize,
    pub phase: Phase,
}

/// The starting state for a configuration: nothing processed; a run of zero
/// batches is already complete.
pub open spec fn spec_init(cfg: Config) -> Harness {
    Harness {
        cfg,
        batches_done: 0,
        producer_height: 0,
        validator_height: 0,
        phase: if cfg.num_blocks == 0 {
            Phase::Done
        } else {
            Phase::Submitting
        },
    }
}

/// The transition function of the run: from a state and the observed outcome
/// of the last action to the next state. Any outcome the phase cannot
/// produce, and any expected-but-wrong outcome, is fatal.
pub open spec fn spec_step(h: Harness, e: Event) -> Harness {
    match h.phase {
        Phase::Submitting => match e {
            Event::Submitted => Harness { phase: Phase::Producing, ..h },
            Event::SubmitError => Harness { phase: Phase::Failed(Failure::SubmitFailed), ..h },
            _ => Harness { phase: Phase::Failed(Failure::UnexpectedEvent), ..h },
        },
        Phase::Producing => match e {
            Event::Produced => Harness { phase: Phase::Fetching, ..h },
            Event::ProduceError => Harness { phase: Phase::Failed(Failure::ProduceFailed), ..h },
            _ => Harness { phase: Phase::Failed(Failure::UnexpectedEvent), ..h },
        },
        Phase::Fetching => match e {
            Event::Fetched(n) => if n == h.cfg.num_transactions + 1 {
                Harness {
                    producer_height: (h.batches_done + 1) as usize,
                    phase: Phase::Validating,
                    ..h
                }
            } else {
                Harness { phase: Phase::Failed(Failure::CountMismatch), ..h }
            },
            Event::BlockMissing => Harness { phase: Phase::Failed(Failure::MissingBlock), ..h },
            _ => Harness { phase: Phase::Failed(Failure::UnexpectedEvent), ..h },
        },
        Phase::Validating => match e {
            Event::Validated => Harness {
                batches_done: (h.batches_done + 1) as usize,
                validator_height: (h.batches_done + 1) as usize,
                phase: if h.batches_done + 1 == h.cfg.num_blocks {
                    Phase::Done
                } else {
                    Phase::Submitting
                },
                ..h
            },
            Event::ValidationFailed => Harness {
                phase: Phase::Failed(Failure::ValidatorRejected),
                ..h
            },
            _ => Harness { phase: Phase::Failed(Failure::UnexpectedEvent), ..h },
        },
        Phase::Done => h,
        Phase::Failed(_) => h,
    }
}

/// The action a state calls for.
pub open spec fn spec_next_action(h: Harness) -> Action {
    match h.phase {
        Phase::Submitting => Action::SubmitBatch(h.batches_done),
        Phase::Producing => Action::ProduceBlock,
        Phase::Fetching => Action::FetchBlock((h.batches_done + 1) as usize),
        Phase::Validating => Action::ValidateBlock,
        Phase::Done => Action::Stop,
        Phase::Failed(_) => Action::Stop,
    }
}

impl Harness {
    /// The state invariant: the confirmed heights track the finished batches.
    /// While a batch is in flight up to the fetch, both heights equal the
    /// number of finished batches; once the sealed block is fetched and its
    /// composition checked, the producer is one ahead until the validator
    /// commits; a finished run has both nodes at `num_blocks`.
    pub open spec fn wf(self) -> bool {
        match self.phase {
            Phase::Submitting | Phase::Producing | Phase::Fetching => {
                &&& self.batches_done < self.cfg.num_blocks
                &&& self.producer_height == self.batches_done
                &&& self.validator_height == self.batches_done
            },
            Phase::Validating => {
                &&& self.batches_done < self.cfg.num_blocks
                &&& self.producer_height == self.batches_done + 1
                &&& self.validator_height == self.batches_done
            },
            Phase::Done => {
                &&& self.batches_done == self.cfg.num_blocks
                &&& self.producer_height == self.cfg.num_blocks
                &&& self.validator_height == self.cfg.num_blocks
            },
            Phase::Failed(_) => true,
        }
    }

    /// The starting state for a configuration.
    pub fn new(cfg: Config) -> (r: Harness)
        ensures
            r == spec_init(cfg),
            r.wf(),
    {
        let phase = if cfg.num_blocks == 0 {
            Phase::Done
        } else {
            Phase::Submitting
        };
        Harness { cfg, batches_done: 0, producer_height: 0, validator_height: 0, phase }
    }

    /// The action the driver must perform next.
    pub fn next_action(&self) -> (a: Action)
        requires
            self.wf(),
        ensures
            a == spec_next_action(*self),
    {
        match self.phase {
            Phase::Submitting => Action::SubmitBatch(self.batches_done),
            Phase::Producing => Action::ProduceBlock,
            Phase::Fetching => Action::FetchBlock(self.batches_done + 1),
            Phase::Validating => Action::ValidateBlock,
            Phase::Done => Action::Stop,
            Phase::Failed(_) => Action::Stop,
        }
    }

    /// Advances the run by the observed outcome of the last action.
    pub fn step(&mut self, e: Event)
        requires
            old(self).wf(),
        ensures
            *final(self) == spec_step(*old(self), e),
            final(self).wf(),
            final(self).cfg == old(self).cfg,
    {
        let next = match self.phase {
            Phase::Submitting => match e {
                Event::Submitted => Harness { phase: Phase::Producing, ..*self },
                Event::SubmitError => Harness {
                    phase: Phase::Failed(Failure::SubmitFailed),
                    ..*self
                },
                _ => Harness { phase: Phase::Failed(Failure::UnexpectedEvent), ..*self },
            },
            Phase::Producing => match e {
                Event::Produced => Harness { phase: Phase::Fetching, ..*self },
                Event::ProduceError => Harness {
                    phase: Phase::Failed(Failure::ProduceFailed),
                    ..*self
                },
                _ => Harness { phase: Phase::Failed(Failure::UnexpectedEvent), ..*self },
            },
            Phase::Fetching => match e {
                Event::Fetched(n) => if n > 0 && n - 1 == self.cfg.num_transactions {
                    Harness {
                        producer_height: self.batches_done + 1,
                        phase: Phase::Validating,
                        ..*self
                    }
                } else {
                    Harness { phase: Phase::Failed(Failure::CountMismatch), ..*self }
                },
                Event::BlockMissing => Harness {
                    phase: Phase::Failed(Failure::MissingBlock),
                    ..*self
                },
                _ => Harness { phase: Phase::Failed(Failure::UnexpectedEvent), ..*self },
            },
            Phase::Validating => match e {
                Event::Validated => Harness {
                    batches_done: self.batches_done + 1,
                    validator_height: self.batches_done + 1,
                    phase: if self.batches_done + 1 == self.cfg.num_blocks {
                        Phase::Done
                    } else {
                        Phase::Submitting
                    },
                    ..*self
                },
                Event::ValidationFailed => Harness {
                    phase: Phase::Failed(Failure::ValidatorRejected),
                    ..*self
                },
                _ => Harness { phase: Phase::Failed(Failure::UnexpectedEvent), ..*self },
            },
            Phase::Done => *self,
            Phase::Failed(_) => *self,
        };
        *self = next;
    }
}

/// The state after feeding a whole sequence of observed events, in order.
pub open spec fn spec_run(h: Harness, events: Seq<Event>) -> Harness
    decreases events.len(),
{
    if events.len() == 0 {
        h
    } else {
        spec_run(spec_step(h, events[0]), events.drop_first())
    }
}

/// One step keeps the invariant and never changes the configuration.
pub proof fn lemma_step_preserves_wf(h: Harness, e: Event)
    requires
        h.wf(),
    ensures
        spec_step(h, e).wf(),
        spec_step(h, e).cfg == h.cfg,
{
}

/// A whole run from an invariant state keeps the invariant and the
/// configuration.
pub proof fn lemma_run_preserves_wf(h: Harness, events: Seq<Event>)
    requires
        h.wf(),
    ensures
        spec_run(h, events).wf(),
        spec_run(h, events).cfg == h.cfg,
    decreases events.len(),
{
    if events.len() > 0 {
        lemma_step_preserves_wf(h, events[0]);
        lemma_run_preserves_wf(spec_step(h, events[0]), events.drop_first());
    }
}

/// Batch-height mapping: finishing batch `i` (0-indexed, so `i` equals the
/// number of batches finished before it) moves the producer's confirmed chain
/// height to exactly `i + 1`, and the validator's along with it.
pub proof fn lemma_batch_height_mapping(h: Harness, e: Event)
    requires
        h.wf(),
        h.phase is Validating,
        e is Validated,
    ensures
        spec_step(h, e).batches_done == h.batches_done + 1,
        spec_step(h, e).producer_height == h.batches_done + 1,
        spec_step(h, e).validator_height == h.batches_done + 1,
{
}

/// Block composition: a fetched sealed block moves the run forward exactly
/// when it holds `num_transactions + 1` entries (the batch plus the one
/// implicit system transaction); any other count aborts the run as a count
/// mismatch.
pub proof fn lemma_block_composition(h: Harness, n: usize)
    requires
        h.wf(),
        h.phase is Fetching,
    ensures
        (spec_step(h, Event::Fetched(n)).phase is Validating) <==> n == h.cfg.num_transactions
            + 1,
        n != h.cfg.num_transactions + 1 ==> spec_step(h, Event::Fetched(n)).phase == Phase::Failed(
            Failure::CountMismatch,
        ),
{
}

/// Cross-node agreement, certified by completion: a run that reaches `Done`
/// has submitted, sealed, fetched, composition-checked and independently
/// validated every one of its `num_blocks` batches, so both nodes stand at
/// height `num_blocks` and the validator committed every block the producer
/// sealed.
pub proof fn lemma_completion_implies_agreement(h: Harness, events: Seq<Event>)
    requires
        h.wf(),
        spec_run(h, events).phase is Done,
    ensures
        spec_run(h, events).batches_done == spec_run(h, events).cfg.num_blocks,
        spec_run(h, events).producer_height == spec_run(h, events).cfg.num_blocks,
        spec_run(h, events).validator_height == spec_run(h, events).cfg.num_blocks,
        spec_run(h, events).cfg == h.cfg,
{
    lemma_run_preserves_wf(h, events);
}

} // verus!
