use vstd::prelude::*;

verus! {

/// One side of the torso that can carry an arm.
#[derive(Debug, Clone, Copy, PartialEq, Eq, Structural)]
pub enum Arm {
    Left,
    Right,
}

/// Which arms have been torn off during the current run.
#[derive(Debug, Clone, Copy, PartialEq, Eq, Structural)]
pub struct LostLimbs {
    pub left: bool,
    pub right: bool,
}

/// Number of arms lost: one for each flag that is set.
pub open spec fn lost_count(l: LostLimbs) -> int {
    (if l.left { 1int } else { 0int }) + (if l.right { 1int } else { 0int })
}

impl LostLimbs {
    /// Whether the arm on `side` is recorded as lost.
    pub open spec fn spec_is_lost(self, side: Arm) -> bool {
        match side {
            Arm::Left => self.left,
            Arm::Right => self.right,
        }
    }

    /// The record of a fresh game: both arms present.
    pub fn new() -> (r: LostLimbs)
        ensures
            !r.left,
            !r.right,
    {
        LostLimbs { left: false, right: false }
    }

    /// Forgets every loss, as at the start of a new game.
    pub fn reset(&mut self)
        ensures
            !final(self).left,
            !final(self).right,
    {
        self.left = false;
        self.right = false;
    }

    /// Number of arms still attached: two minus the number of lost arms.
    pub fn limb_count(&self) -> (r: u8)
        ensures
            r <= 2,
            r as int == 2 - lost_count(*self),
    {
        let mut result: u8 = 2;
        if self.left {
            result -= 1;
        }
        if self.right {
            result -= 1;
        }
        result
    }

    /// Whether the arm on `side` is recorded as lost.
    pub fn is_lost(&self, side: Arm) -> (r: bool)
        ensures
            r == self.spec_is_lost(side),
    {
        match side {
            Arm::Left => self.left,
            Arm::Right => self.right,
        }
    }

    /// Records the arm on `side` as lost; the other side is kept.
    pub fn mark_lost(&mut self, side: Arm)
        ensures
            final(self).spec_is_lost(side),
            side == Arm::Left ==> final(self).right == old(self).right,
            side == Arm::Right ==> final(self).left == old(self).left,
    {
        match side {
            Arm::Left => self.left = true,
            Arm::Right => self.right = true,
        }
    }
}

} // verus!
