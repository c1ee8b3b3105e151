//! A value kept twice, so that one copy can be read while the other is
//! written.

use vstd::prelude::*;

verus! {

/// Which of the two copies is read.
#[derive(Clone, Copy, Debug, PartialEq, Eq, Structural)]
pub enum FlipFlopFlag {
    Flip,
    Flop,
}

impl FlipFlopFlag {
    /// The other copy.
    pub open spec fn spec_other(self) -> FlipFlopFlag {
        match self {
            FlipFlopFlag::Flip => FlipFlopFlag::Flop,
            FlipFlopFlag::Flop => FlipFlopFlag::Flip,
        }
    }

    /// The other copy.
    #[verifier::when_used_as_spec(spec_other)]
    pub fn other(self) -> (r: FlipFlopFlag)
        ensures
            r == self.spec_other(),
    {
        match self {
            FlipFlopFlag::Flip => FlipFlopFlag::Flop,
            FlipFlopFlag::Flop => FlipFlopFlag::Flip,
        }
    }
}

/// Two copies of a value and the flag that says which one is read.
pub struct FlipFlop<T: Clone> {
    flip: T,
    flop: T,
    flag: FlipFlopFlag,
}

impl<T: Clone> FlipFlop<T> {
    /// The flag.
    pub closed spec fn flag(self) -> FlipFlopFlag {
        self.flag
    }

    /// The copy that is read.
    pub closed spec fn front(self) -> T {
        match self.flag {
            FlipFlopFlag::Flip => self.flip,
            FlipFlopFlag::Flop => self.flop,
        }
    }

    /// The copy that is written next.
    pub closed spec fn back(self) -> T {
        match self.flag {
            FlipFlopFlag::Flip => self.flop,
            FlipFlopFlag::Flop => self.flip,
        }
    }

    /// Both copies hold `input`; the first is read.
    pub fn new(input: T) -> (r: FlipFlop<T>)
        ensures
            r.flag() == FlipFlopFlag::Flip,
            r.front() == input,
            cloned(input, r.back()),
    {
        let flop = input.clone();
        FlipFlop { flip: input, flop, flag: FlipFlopFlag::Flip }
    }

    /// The copy that is read.
    pub fn read(&self) -> (r: &T)
        ensures
            *r == self.front(),
    {
        match self.flag {
            FlipFlopFlag::Flip => &self.flip,
            FlipFlopFlag::Flop => &self.flop,
        }
    }

    /// Writes `value` to the copy that is not read, turns the flag so
    /// that it is read from now on, and brings the other copy up to date.
    pub fn write(&mut self, value: T)
        ensures
            final(self).flag() == old(self).flag().spec_other(),
            final(self).front() == value,
            cloned(value, final(self).back()),
    {
        let copy = value.clone();
        match self.flag {
            FlipFlopFlag::Flip => {
                self.flop = value;
                self.flip = copy;
                self.flag = FlipFlopFlag::Flop;
            },
            FlipFlopFlag::Flop => {
                self.flip = value;
                self.flop = copy;
                self.flag = FlipFlopFlag::Flip;
            },
        }
    }
}

} // verus!
