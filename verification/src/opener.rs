//! The open sequence: the steps by which a device becomes a usable link,
//! as a state machine that the host drives.
//!
//! The host performs each step against the operating system and reports how
//! it ended; the machine decides what comes next. A link is handed out only
//! after every step has succeeded, the forcing of non-blocking mode among
//! them.

use crate::config::{Platform, SerialTtyOptions};
use crate::error::TtyError;
use crate::link::TtyView;
use crate::quirk::{manufacturer_of, route, strategy_for, OpenStrategy};
use crate::resolver::{has_match, is_first_match, resolve, PortDescriptor};
use crate::text::lowercase;
use crate::transport::SerialTty;
use vstd::prelude::*;

verus! {

/// One call that the host makes against the operating system.
#[derive(Debug, Clone, Copy, PartialEq, Eq, Structural)]
pub enum OpenStep {
    /// Open the named device with the configured line parameters.
    OpenDevice,
    /// Force the open handle into non-blocking mode.
    ForceNonBlocking,
    /// Set the DTR line to `level`.
    SetDtr { level: bool },
}

/// How a step ended.
#[derive(Debug, Clone, Copy, PartialEq, Eq, Structural)]
pub enum StepOutcome {
    Done,
    /// The operating system refused, with this error number.
    Failed { code: i32 },
}

/// Where an open sequence stands.
#[derive(Debug, Clone, Copy, PartialEq, Eq, Structural)]
pub enum OpenProgress {
    /// The host is to perform this step and report its outcome.
    Perform(OpenStep),
    /// Every step succeeded: the link can be taken.
    Ready,
    /// A step failed; nothing more is to be done.
    Failed(TtyError),
}

/// The state of an open sequence.
pub struct OpenerView {
    pub strategy: OpenStrategy,
    pub dtr_level: bool,
    pub progress: OpenProgress,
}

/// The error that reports a failed step of the sequence `strategy`.
pub open spec fn open_failure(strategy: OpenStrategy, code: i32) -> TtyError {
    match strategy {
        OpenStrategy::Standard => TtyError::Open { code },
        OpenStrategy::Specialized => TtyError::QuirkOpen { code },
    }
}

impl OpenerView {
    /// A sequence of which no step has been performed yet.
    pub open spec fn begin(strategy: OpenStrategy, dtr_level: bool) -> OpenerView {
        OpenerView { strategy, dtr_level, progress: OpenProgress::Perform(OpenStep::OpenDevice) }
    }

    /// The sequence after the pending step ended with `outcome`. A sequence
    /// that is ready or has failed stays as it is.
    pub open spec fn advance(self, outcome: StepOutcome) -> OpenerView {
        match self.progress {
            OpenProgress::Perform(step) => {
                let progress = match outcome {
                    StepOutcome::Failed { code } => OpenProgress::Failed(
                        open_failure(self.strategy, code),
                    ),
                    StepOutcome::Done => match step {
                        OpenStep::OpenDevice => OpenProgress::Perform(OpenStep::ForceNonBlocking),
                        OpenStep::ForceNonBlocking => OpenProgress::Perform(
                            OpenStep::SetDtr { level: self.dtr_level },
                        ),
                        OpenStep::SetDtr { .. } => OpenProgress::Ready,
                    },
                };
                OpenerView { progress, ..self }
            },
            _ => self,
        }
    }

    /// The sequence after the outcomes of `outcomes` were reported in order.
    pub open spec fn run(self, outcomes: Seq<StepOutcome>) -> OpenerView
        decreases outcomes.len(),
    {
        if outcomes.len() == 0 {
            self
        } else {
            self.advance(outcomes.first()).run(outcomes.drop_first())
        }
    }
}

/// An open sequence in progress.
#[derive(Debug, Clone, Copy)]
pub struct Opener {
    strategy: OpenStrategy,
    dtr_level: bool,
    progress: OpenProgress,
}

impl View for Opener {
    type V = OpenerView;

    closed spec fn view(&self) -> OpenerView {
        OpenerView { strategy: self.strategy, dtr_level: self.dtr_level, progress: self.progress }
    }
}

impl Opener {
    /// Starts the sequence `strategy`, which will set the DTR line to
    /// `dtr_level`. The first step is to open the device.
    pub fn begin(strategy: OpenStrategy, dtr_level: bool) -> (opener: Opener)
        ensures
            opener@ == OpenerView::begin(strategy, dtr_level),
    {
        Opener { strategy, dtr_level, progress: OpenProgress::Perform(OpenStep::OpenDevice) }
    }

    /// The strategy that this sequence follows.
    pub fn strategy(&self) -> (strategy: OpenStrategy)
        ensures
            strategy == self@.strategy,
    {
        self.strategy
    }

    /// Where the sequence stands: the step to perform next, or how it ended.
    pub fn progress(&self) -> (progress: OpenProgress)
        ensures
            progress == self@.progress,
    {
        self.progress
    }

    /// Records that the pending step ended with `outcome`.
    ///
    /// A success moves on to the next step, and after the last one to
    /// `Ready`. A failure ends the sequence with the error of its strategy:
    /// `Open` on the standard path, `QuirkOpen` on the specialized one. Once
    /// the sequence is ready or has failed, reports change nothing.
    pub fn advance(&mut self, outcome: StepOutcome)
        ensures
            final(self)@ == old(self)@.advance(outcome),
    {
        if let OpenProgress::Perform(step) = self.progress {
            self.progress = match outcome {
                StepOutcome::Failed { code } => OpenProgress::Failed(
                    match self.strategy {
                        OpenStrategy::Standard => TtyError::Open { code },
                        OpenStrategy::Specialized => TtyError::QuirkOpen { code },
                    },
                ),
                StepOutcome::Done => match step {
                    OpenStep::OpenDevice => OpenProgress::Perform(OpenStep::ForceNonBlocking),
                    OpenStep::ForceNonBlocking => OpenProgress::Perform(
                        OpenStep::SetDtr { level: self.dtr_level },
                    ),
                    OpenStep::SetDtr { .. } => OpenProgress::Ready,
                },
            };
        }
    }

    /// The link that the sequence has opened: registered with the
    /// multiplexer and with nothing queued. `None` unless the sequence is
    /// ready.
    pub fn into_transport(self) -> (link: Option<SerialTty>)
        ensures
            link is Some <==> self@.progress == OpenProgress::Ready,
            link matches Some(tty) ==> tty@ == TtyView::initial(),
    {
        match self.progress {
            OpenProgress::Ready => Some(SerialTty::registered()),
            _ => None,
        }
    }
}

/// The strategy that routing selects for `descriptor` on `platform`.
pub open spec fn routed(descriptor: PortDescriptor, platform: Platform) -> OpenStrategy {
    strategy_for(descriptor.kind is Usb, lowercase(manufacturer_of(descriptor.kind)), platform)
}

/// Decides how the device that `config` names is to be opened.
///
/// `enumeration` is what the operating system listed, or `None` where the
/// listing failed. Where no listed device has the configured name, or
/// nothing was listed, the error is returned and there is no open sequence:
/// nothing is opened. Otherwise the sequence starts at its first step, with
/// the strategy routed for the first device of that name and the DTR level
/// of the configuration.
pub fn plan_open(
    config: &SerialTtyOptions,
    enumeration: &Option<Vec<PortDescriptor>>,
    platform: Platform,
) -> (plan: Result<Opener, TtyError>)
    ensures
        match (*enumeration, plan) {
            (None, Err(error)) => error == TtyError::Enumeration,
            (None, Ok(_)) => false,
            (Some(ports), Err(error)) => error == TtyError::DeviceNotFound && !has_match(
                ports@,
                config.name@,
            ),
            (Some(ports), Ok(opener)) => exists|i: int|
                is_first_match(ports@, config.name@, i) && opener@ == OpenerView::begin(
                    routed(ports@[i], platform),
                    config.dtr_level(),
                ),
        },
{
    match resolve(config, enumeration) {
        Ok(descriptor) => Ok(Opener::begin(route(descriptor, platform), config.dtr_level())),
        Err(error) => Err(error),
    }
}

/// A link is ready exactly when the opening of the device, the forcing of
/// non-blocking mode and the setting of the DTR line were each reported as
/// done, in this order: whatever the strategy and the DTR level, no sequence
/// of reports reaches `Ready` without a successful non-blocking step.
pub proof fn lemma_ready_needs_every_step(
    strategy: OpenStrategy,
    dtr_level: bool,
    outcomes: Seq<StepOutcome>,
)
    ensures
        OpenerView::begin(strategy, dtr_level).run(outcomes).progress == OpenProgress::Ready <==> (
        outcomes.len() >= 3 && outcomes[0] == StepOutcome::Done && outcomes[1] == StepOutcome::Done
            && outcomes[2] == StepOutcome::Done),
        OpenerView::begin(strategy, dtr_level).run(outcomes.take(0)).progress
            == OpenProgress::Perform(OpenStep::OpenDevice),
        outcomes.len() >= 1 && outcomes[0] == StepOutcome::Done ==> OpenerView::begin(
            strategy,
            dtr_level,
        ).run(outcomes.take(1)).progress == OpenProgress::Perform(OpenStep::ForceNonBlocking),
        outcomes.len() >= 2 && outcomes[0] == StepOutcome::Done && outcomes[1] == StepOutcome::Done
            ==> OpenerView::begin(strategy, dtr_level).run(outcomes.take(2)).progress
            == OpenProgress::Perform(OpenStep::SetDtr { level: dtr_level }),
{
    let start = OpenerView::begin(strategy, dtr_level);
    reveal_with_fuel(OpenerView::run, 4);
    assert(outcomes.take(0).len() == 0);
    if outcomes.len() >= 1 {
        let one = outcomes.take(1);
        assert(one.first() == outcomes[0]);
        assert(one.drop_first().len() == 0);
        let after_one = start.advance(outcomes[0]);
        lemma_settled_stays(after_one, outcomes.drop_first());
        if outcomes.len() >= 2 {
            let two = outcomes.take(2);
            assert(two.first() == outcomes[0]);
            assert(two.drop_first().first() == outcomes[1]);
            assert(two.drop_first().drop_first().len() == 0);
            let rest = outcomes.drop_first();
            assert(rest.first() == outcomes[1]);
            let after_two = after_one.advance(outcomes[1]);
            lemma_settled_stays(after_two, rest.drop_first());
            if outcomes.len() >= 3 {
                let tail = rest.drop_first();
                assert(tail.first() == outcomes[2]);
                let after_three = after_two.advance(outcomes[2]);
                lemma_settled_stays(after_three, tail.drop_first());
            }
        }
    }
}

/// Every failure of a step ends the sequence with the error of its strategy
/// and the step's error number: `Open` on the standard path, `QuirkOpen` on
/// the specialized one. Later reports do not change that.
pub proof fn lemma_failure_is_kept(
    opener: OpenerView,
    code: i32,
    later: Seq<StepOutcome>,
)
    requires
        opener.progress is Perform,
    ensures
        opener.advance(StepOutcome::Failed { code }).run(later).progress == OpenProgress::Failed(
            open_failure(opener.strategy, code),
        ),
        open_failure(OpenStrategy::Standard, code) == (TtyError::Open { code }),
        open_failure(OpenStrategy::Specialized, code) == (TtyError::QuirkOpen { code }),
{
    lemma_settled_stays(opener.advance(StepOutcome::Failed { code }), later);
}

/// A sequence that is ready or has failed stays as it is.
proof fn lemma_settled_stays(opener: OpenerView, outcomes: Seq<StepOutcome>)
    ensures
        !(opener.progress is Perform) ==> opener.run(outcomes) == opener,
    decreases outcomes.len(),
{
    if outcomes.len() > 0 && !(opener.progress is Perform) {
        lemma_settled_stays(opener.advance(outcomes.first()), outcomes.drop_first());
    }
}

} // verus!
