//! The latch that lets the native toolkit be initialised once.
use vstd::prelude::*;
use crate::error::{Error, XmpError};

verus! {

/// How far initialisation has come.
#[derive(Clone, Copy, Debug, PartialEq, Eq, Structural)]
pub enum InitState {
    /// The native initialisation has not run.
    Fresh,
    /// The native initialisation has run, with this outcome.
    Done(bool),
}

/// What a caller has to do to learn whether the toolkit is initialised.
#[derive(Clone, Copy, Debug, PartialEq, Eq, Structural)]
pub enum InitStep {
    /// Run the native initialisation and report its outcome to the latch.
    CallNative,
    /// Nothing: initialisation ran earlier, with this outcome.
    Known(bool),
}

/// Remembers whether the native initialisation ran, and how it ended.
///
/// Whoever holds the latch for the process keeps it behind a lock, so that
/// `begin` and `finish` of one caller are not interleaved with another's.
#[derive(Debug)]
pub struct InitOnce {
    state: InitState,
}

impl InitOnce {
    /// The state of the latch.
    pub closed spec fn view(&self) -> InitState {
        self.state
    }

    /// The state after the outcome of a native initialisation is reported:
    /// the first report is kept, later ones change nothing.
    pub open spec fn after(state: InitState, outcome: bool) -> InitState {
        match state {
            InitState::Fresh => InitState::Done(outcome),
            InitState::Done(first) => InitState::Done(first),
        }
    }

    /// The outcome that the latch stands for, once one is known.
    pub open spec fn known(state: InitState) -> Option<bool> {
        match state {
            InitState::Fresh => None,
            InitState::Done(first) => Some(first),
        }
    }

    /// A latch that has seen no initialisation.
    pub fn new() -> (r: InitOnce)
        ensures
            r@ == InitState::Fresh,
    {
        InitOnce { state: InitState::Fresh }
    }

    /// What the caller has to do: run the native initialisation if it has
    /// not run, and otherwise nothing.
    pub fn begin(&self) -> (r: InitStep)
        ensures
            self@ == InitState::Fresh ==> r == InitStep::CallNative,
            self@ matches InitState::Done(first) ==> r == InitStep::Known(first),
    {
        match self.state {
            InitState::Fresh => InitStep::CallNative,
            InitState::Done(first) => InitStep::Known(first),
        }
    }

    /// Reports the outcome of a native initialisation and returns the
    /// outcome that every caller observes: that of the first report.
    pub fn finish(&mut self, outcome: bool) -> (r: bool)
        ensures
            final(self)@ == Self::after(old(self)@, outcome),
            Self::known(final(self)@) == Some(r),
    {
        match self.state {
            InitState::Fresh => {
                self.state = InitState::Done(outcome);
                outcome
            },
            InitState::Done(first) => first,
        }
    }

    /// Whether the native initialisation ran and succeeded.
    pub fn is_ready(&self) -> (r: bool)
        ensures
            r == (self@ == InitState::Done(true)),
    {
        match self.state {
            InitState::Done(true) => true,
            _ => false,
        }
    }

    /// Refuses work on a toolkit that is not initialised: the toolkit is
    /// then unavailable.
    pub fn require_ready(&self) -> (r: Result<(), Error>)
        ensures
            self@ == InitState::Done(true) ==> r == Ok::<(), Error>(()),
            self@ != InitState::Done(true) ==> r == Err::<(), Error>(Error(XmpError::Unavailable)),
    {
        if self.is_ready() {
            Ok(())
        } else {
            Err(Error(XmpError::Unavailable))
        }
    }
}

impl Default for InitOnce {
    /// A latch that has seen no initialisation.
    fn default() -> (r: InitOnce)
        ensures
            r@ == InitState::Fresh,
    {
        InitOnce::new()
    }
}

/// Initialisation is idempotent. Once one outcome has been reported, the
/// latch asks for no further native call, and whatever is reported later, in
/// whatever number, every caller observes the first outcome.
pub proof fn lemma_first_outcome_stays(state: InitState, first: bool, later: Seq<bool>)
    ensures
        InitOnce::known(InitOnce::after(state, first)).is_some(),
        InitOnce::known(
            later.fold_left(
                InitOnce::after(state, first),
                |s: InitState, o: bool| InitOnce::after(s, o),
            ),
        ) == InitOnce::known(InitOnce::after(state, first)),
        state == InitState::Fresh ==> InitOnce::known(InitOnce::after(state, first)) == Some(first),
    decreases later.len(),
{
    if later.len() > 0 {
        lemma_first_outcome_stays(state, first, later.drop_last());
    }
}

} // verus!
