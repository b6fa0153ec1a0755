use vstd::prelude::*;

verus! {

/// Represents the presence of a user.
///
/// The *last* presence is what the user chose before last logging
/// off; the *displayed* presence additionally depends on whether the
/// user currently has a gateway connection.
#[derive(Debug, Clone, Copy, PartialEq, Eq, Hash, Structural)]
pub enum Presence {
    /// The user is currently active.
    Online,
    /// The user is idle or away from the keyboard.
    Away,
    /// The user is busy. Clients should try to disable notifications in this state.
    Busy,
    /// The user is offline or invisible.
    Offline,
}

impl Presence {
    /// The wire and storage code of this presence.
    pub fn code(&self) -> (r: i16)
        ensures
            r == self.spec_code(),
    {
        match self {
            Presence::Online => 0,
            Presence::Away => 1,
            Presence::Busy => 2,
            Presence::Offline => 3,
        }
    }

    /// The code that [`Presence::code`] returns.
    pub open spec fn spec_code(self) -> i16 {
        match self {
            Presence::Online => 0,
            Presence::Away => 1,
            Presence::Busy => 2,
            Presence::Offline => 3,
        }
    }

    /// The presence stored under the given code; unknown codes fall
    /// back to `Offline`.
    pub fn from_code(code: i16) -> (r: Self)
        ensures
            r == Self::spec_from_code(code),
    {
        match code {
            0 => Presence::Online,
            1 => Presence::Away,
            2 => Presence::Busy,
            _ => Presence::Offline,
        }
    }

    /// The presence that [`Presence::from_code`] returns.
    pub open spec fn spec_from_code(code: i16) -> Self {
        if code == 0 {
            Presence::Online
        } else if code == 1 {
            Presence::Away
        } else if code == 2 {
            Presence::Busy
        } else {
            Presence::Offline
        }
    }
}

impl Default for Presence {
    /// A fresh user starts out online.
    fn default() -> (r: Self)
        ensures
            r == Presence::Online,
    {
        Presence::Online
    }
}

/// Round trip: storing a presence and reading it back yields the
/// same presence, for every variant.
pub proof fn lemma_presence_code_round_trip(p: Presence)
    ensures
        Presence::spec_from_code(p.spec_code()) == p,
{
}

} // verus!
