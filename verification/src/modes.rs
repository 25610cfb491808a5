//! The display-mode ring: three modes ordered `Primary`, `Secondary`,
//! `Usage`, cycled by `next` and `prev` with wrap-around at both ends.

use vstd::prelude::*;

verus! {

/// Which list (or the usage screen) the caller currently shows.
#[derive(Clone, Copy, Debug, PartialEq, Eq, Structural)]
pub enum Mode {
    Primary,
    Secondary,
    Usage,
}

/// The successor of a mode on the ring.
pub open spec fn next_mode(m: Mode) -> Mode {
    match m {
        Mode::Primary => Mode::Secondary,
        Mode::Secondary => Mode::Usage,
        Mode::Usage => Mode::Primary,
    }
}

/// The predecessor of a mode on the ring.
pub open spec fn prev_mode(m: Mode) -> Mode {
    match m {
        Mode::Primary => Mode::Usage,
        Mode::Secondary => Mode::Primary,
        Mode::Usage => Mode::Secondary,
    }
}

/// The mode with the given 1-based ordinal, if any.
pub open spec fn mode_of_ordinal(n: u32) -> Option<Mode> {
    if n == 1 {
        Some(Mode::Primary)
    } else if n == 2 {
        Some(Mode::Secondary)
    } else if n == 3 {
        Some(Mode::Usage)
    } else {
        None
    }
}

impl Mode {
    /// 1-based position of the mode on the ring.
    pub open spec fn ordinal(self) -> u32 {
        match self {
            Mode::Primary => 1,
            Mode::Secondary => 2,
            Mode::Usage => 3,
        }
    }

    /// Steps forward on the ring, wrapping from `Usage` back to `Primary`.
    pub fn next(&self) -> (r: Mode)
        ensures
            r == next_mode(*self),
    {
        match self {
            Mode::Primary => Mode::Secondary,
            Mode::Secondary => Mode::Usage,
            Mode::Usage => Mode::Primary,
        }
    }

    /// Steps backward on the ring, wrapping from `Primary` to `Usage`.
    pub fn prev(&self) -> (r: Mode)
        ensures
            r == prev_mode(*self),
    {
        match self {
            Mode::Primary => Mode::Usage,
            Mode::Secondary => Mode::Primary,
            Mode::Usage => Mode::Secondary,
        }
    }

    /// Converts a 1-based ordinal back to a mode; out-of-range ordinals have
    /// no mode.
    pub fn from_ordinal(n: u32) -> (r: Option<Mode>)
        ensures
            r == mode_of_ordinal(n),
    {
        if n == 1 {
            Some(Mode::Primary)
        } else if n == 2 {
            Some(Mode::Secondary)
        } else if n == 3 {
            Some(Mode::Usage)
        } else {
            None
        }
    }

    /// All modes, in ring order starting from the first.
    pub fn iter() -> (r: Vec<Mode>)
        ensures
            r@ == seq![Mode::Primary, Mode::Secondary, Mode::Usage],
    {
        let mut v: Vec<Mode> = Vec::new();
        v.push(Mode::Primary);
        v.push(Mode::Secondary);
        v.push(Mode::Usage);
        proof {
            assert(v@ =~= seq![Mode::Primary, Mode::Secondary, Mode::Usage]);
        }
        v
    }
}

impl Default for Mode {
    /// The mode the caller starts in.
    fn default() -> (r: Mode)
        ensures
            r == Mode::Primary,
    {
        Mode::Primary
    }
}

/// Law: `next` and `prev` are inverse walks of the ring, so each mode sits on
/// one cycle of length three.
pub proof fn lemma_mode_ring_inverse(m: Mode)
    ensures
        prev_mode(next_mode(m)) == m,
        next_mode(prev_mode(m)) == m,
{
}

/// Law: stepping forward from a mode moves to the mode whose ordinal follows
/// it cyclically, so three forward steps return to the start.
pub proof fn lemma_mode_ring_cycle(m: Mode)
    ensures
        next_mode(next_mode(next_mode(m))) == m,
        prev_mode(prev_mode(prev_mode(m))) == m,
{
}

} // verus!
