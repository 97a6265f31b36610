//! Selection of the package-manager front-end present on the host.

use vstd::prelude::*;

verus! {

/// A front-end that drives the package manager. `Pacman` is the package
/// manager itself and the fallback when no other front-end is installed.
#[derive(Clone, Copy, Debug, PartialEq, Eq, Structural)]
pub enum Wrapper {
    Pak,
    Yay,
    Paru,
    Pacman,
}

/// What a look at the host found: for each optional front-end, whether its
/// executable exists.
#[derive(Clone, Copy, Debug, PartialEq, Eq, Structural)]
pub struct Presence {
    pub pak: bool,
    pub yay: bool,
    pub paru: bool,
}

/// The front-end chosen for a given presence: the first installed one in the
/// order pak, yay, paru, and pacman when none of them is installed.
pub open spec fn select_spec(seen: Presence) -> Wrapper {
    if seen.pak {
        Wrapper::Pak
    } else if seen.yay {
        Wrapper::Yay
    } else if seen.paru {
        Wrapper::Paru
    } else {
        Wrapper::Pacman
    }
}

impl Presence {
    /// The presence in which no optional front-end is installed.
    pub fn none() -> (seen: Presence)
        ensures
            seen == (Presence { pak: false, yay: false, paru: false }),
    {
        Presence { pak: false, yay: false, paru: false }
    }
}

/// Chooses the front-end to use. Never fails: absence of every optional
/// front-end yields `Wrapper::Pacman`.
pub fn probe(seen: Presence) -> (wrapper: Wrapper)
    ensures
        wrapper == select_spec(seen),
{
    if seen.pak {
        Wrapper::Pak
    } else if seen.yay {
        Wrapper::Yay
    } else if seen.paru {
        Wrapper::Paru
    } else {
        Wrapper::Pacman
    }
}

/// The choice depends on nothing but the presence facts: two probes of an
/// unchanged host agree, and a front-end is chosen only if it is installed
/// and no front-end of higher priority is.
pub proof fn lemma_probe_is_determined(a: Presence, b: Presence)
    requires
        a == b,
    ensures
        select_spec(a) == select_spec(b),
        select_spec(a) == Wrapper::Pak <==> a.pak,
        select_spec(a) == Wrapper::Yay <==> !a.pak && a.yay,
        select_spec(a) == Wrapper::Paru <==> !a.pak && !a.yay && a.paru,
        select_spec(a) == Wrapper::Pacman <==> !a.pak && !a.yay && !a.paru,
{
}

} // verus!
