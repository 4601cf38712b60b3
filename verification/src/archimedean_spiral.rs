//! The trace of an Archimedean spiral, `radius = a + b * angle`.

use vstd::prelude::*;

verus! {

/// Bit pattern of the angle step, in radians: the double nearest to one
/// tenth. Each new point lies one step past the angle that the spiral's law
/// gives for the radius of the point before it.
pub const STEP: u64 = 0x3FB9_9999_9999_999A;

/// A point of the plane. Each coordinate is the bit pattern of a double.
///
/// Two points are equal when their bit patterns are: positive and negative
/// zero differ, and a NaN equals itself.
#[derive(Clone, Copy, Debug, PartialEq, Eq, Structural)]
pub struct CartesianPos {
    pub x: u64,
    pub y: u64,
}

impl CartesianPos {
    /// The coordinate origin: both coordinates are positive zero.
    pub open spec fn spec_origin() -> CartesianPos {
        CartesianPos { x: 0, y: 0 }
    }

    /// The coordinate origin.
    #[verifier::when_used_as_spec(spec_origin)]
    pub fn origin() -> (p: CartesianPos)
        ensures
            p == Self::spec_origin(),
    {
        CartesianPos { x: 0, y: 0 }
    }
}

/// The straight line between two consecutive points of the trace.
#[derive(Clone, Copy, Debug, PartialEq, Eq, Structural)]
pub struct Segment {
    pub start: CartesianPos,
    pub end: CartesianPos,
}

/// What a spiral's trace holds at one moment.
pub struct SpiralState {
    /// Bit pattern of the radius offset.
    pub a: u64,
    /// Bit pattern of the growth of the radius per radian.
    pub b: u64,
    /// Bit pattern of the angle step.
    pub step: u64,
    /// The segment that was laid last.
    pub last: Segment,
}

/// The trace of one spiral: its two parameters and its angle step, fixed for
/// good when it is made, and the segment that was laid last.
///
/// No angle is kept: each step finds its angle anew from the radius of the
/// point before. The trace has no end: a segment can always be joined to it.
pub struct ArchimedeanSpiral {
    a: u64,
    b: u64,
    last: Segment,
    step: u64,
}

impl View for ArchimedeanSpiral {
    type V = SpiralState;

    closed spec fn view(&self) -> SpiralState {
        SpiralState { a: self.a, b: self.b, step: self.step, last: self.last }
    }
}

impl ArchimedeanSpiral {
    /// Starts a trace with offset `a` and growth `b`. Its angle step is
    /// `STEP`. Its first segment runs from the origin, whatever `a` and `b`
    /// are, to `first_end`.
    ///
    /// `first_end` is for the caller to compute: the point at radius
    /// `a + b` and angle `STEP`.
    pub fn new(a: u64, b: u64, first_end: CartesianPos) -> (s: ArchimedeanSpiral)
        ensures
            s@ == (SpiralState {
                a,
                b,
                step: STEP,
                last: Segment { start: CartesianPos::origin(), end: first_end },
            }),
    {
        ArchimedeanSpiral {
            a,
            b,
            last: Segment { start: CartesianPos::origin(), end: first_end },
            step: STEP,
        }
    }

    /// Joins `new_end` to the trace: the segment from the end of the last
    /// segment to `new_end` is laid, kept as the last one, and handed out.
    /// The parameters and the angle step stay as they are.
    ///
    /// `new_end` is for the caller to compute from `a`, `b`, `step` and the
    /// end of `last`.
    pub fn advance_to(&mut self, new_end: CartesianPos) -> (seg: Segment)
        ensures
            seg == (Segment { start: old(self)@.last.end, end: new_end }),
            final(self)@ == (SpiralState { last: seg, ..old(self)@ }),
    {
        let seg = Segment { start: self.last.end, end: new_end };
        self.last = seg;
        seg
    }

    /// The segment that was laid last.
    pub fn last(&self) -> (seg: Segment)
        ensures
            seg == self@.last,
    {
        self.last
    }

    /// Bit pattern of the angle step.
    pub fn step(&self) -> (r: u64)
        ensures
            r == self@.step,
    {
        self.step
    }

    /// Bit pattern of the radius offset.
    pub fn a(&self) -> (r: u64)
        ensures
            r == self@.a,
    {
        self.a
    }

    /// Bit pattern of the growth of the radius per radian.
    pub fn b(&self) -> (r: u64)
        ensures
            r == self@.b,
    {
        self.b
    }
}

} // verus!
