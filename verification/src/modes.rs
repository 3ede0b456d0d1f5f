//! The mode machine: the mode the game is in, and the one change of mode
//! that may wait for the end of the frame.

use vstd::prelude::*;
use crate::components::{AppState, Keys};

verus! {

/// Why a change of mode was turned down.
#[derive(Clone, Copy, Debug, PartialEq, Eq, Hash, Structural)]
pub enum ModeError {
    /// The game is in that mode already.
    AlreadyInState,
    /// Another change of mode is waiting.
    TransitionInFlight,
}

/// The mode machine. A change of mode is asked for with [`Modes::set`] and
/// waits in a single slot until [`Modes::take`] carries it out, which the
/// driver of the frames does once, when a frame has ended.
#[derive(Clone, Copy, Debug, PartialEq, Eq, Hash, Structural)]
pub struct Modes {
    /// The mode the game is in.
    pub current: AppState,
    /// The mode that the game is about to change to.
    pub scheduled: Option<AppState>,
}

impl Modes {
    /// The machine at rest in `mode`.
    pub open spec fn resting(mode: AppState) -> Modes {
        Modes { current: mode, scheduled: None }
    }

    /// What asking for `next` leads to: the machine with `next` waiting, or
    /// the reason why the machine turns the request down.
    pub open spec fn asked(self, next: AppState) -> Result<Modes, ModeError> {
        if self.current == next {
            Err(ModeError::AlreadyInState)
        } else if self.scheduled.is_some() {
            Err(ModeError::TransitionInFlight)
        } else {
            Ok(Modes { current: self.current, scheduled: Some(next) })
        }
    }

    /// The machine once the waiting change, if any, is carried out.
    pub open spec fn settled(self) -> Modes {
        match self.scheduled {
            Some(next) => Modes::resting(next),
            None => self,
        }
    }

    /// The machine at rest in `mode`.
    pub fn new(mode: AppState) -> (m: Modes)
        ensures
            m == Modes::resting(mode),
    {
        Modes { current: mode, scheduled: None }
    }

    /// Asks for a change to `next`. The request is turned down, and the
    /// machine stays as it is, where the game is in `next` already, or else
    /// where another change is waiting.
    pub fn set(&mut self, next: AppState) -> (r: Result<(), ModeError>)
        ensures
            match old(self).asked(next) {
                Ok(m) => r == Ok::<(), ModeError>(()) && *final(self) == m,
                Err(e) => r == Err::<(), ModeError>(e) && *final(self) == *old(self),
            },
    {
        if self.current == next {
            Err(ModeError::AlreadyInState)
        } else if self.scheduled.is_some() {
            Err(ModeError::TransitionInFlight)
        } else {
            self.scheduled = Some(next);
            Ok(())
        }
    }

    /// Carries out the waiting change and returns the mode that was left and
    /// the mode that was entered; none, and no change, where nothing waits.
    pub fn take(&mut self) -> (r: Option<(AppState, AppState)>)
        ensures
            *final(self) == old(self).settled(),
            r == match old(self).scheduled {
                Some(next) => Some((old(self).current, next)),
                None => None,
            },
    {
        match self.scheduled {
            Some(next) => {
                let left = self.current;
                self.current = next;
                self.scheduled = None;
                Some((left, next))
            },
            None => None,
        }
    }
}

/// While the game runs: asks for the pause where the pause key is held.
pub fn pause_handler(modes: &mut Modes, keys: Keys) -> (r: Result<(), ModeError>)
    ensures
        !keys.pause ==> r == Ok::<(), ModeError>(()) && *final(modes) == *old(modes),
        keys.pause ==> match old(modes).asked(AppState::Paused) {
            Ok(m) => r == Ok::<(), ModeError>(()) && *final(modes) == m,
            Err(e) => r == Err::<(), ModeError>(e) && *final(modes) == *old(modes),
        },
{
    if keys.pause {
        modes.set(AppState::Paused)
    } else {
        Ok(())
    }
}

/// While the game rests: asks for the game to go on where the pause key is
/// held.
pub fn pause(modes: &mut Modes, keys: Keys) -> (r: Result<(), ModeError>)
    ensures
        !keys.pause ==> r == Ok::<(), ModeError>(()) && *final(modes) == *old(modes),
        keys.pause ==> match old(modes).asked(AppState::InGame) {
            Ok(m) => r == Ok::<(), ModeError>(()) && *final(modes) == m,
            Err(e) => r == Err::<(), ModeError>(e) && *final(modes) == *old(modes),
        },
{
    if keys.pause {
        modes.set(AppState::InGame)
    } else {
        Ok(())
    }
}

} // verus!
