use vstd::prelude::*;

verus! {

/// Drawing records of a track, in a normal and a selected variant for points
/// (`P`) and for lines (`L`).
#[derive(Clone)]
pub struct StyleTrack<P, L> {
    pub point: P,
    pub line: L,
    pub select_point: P,
    pub select_line: L,
}

/// Visual style of the overlay.
#[derive(Clone)]
pub struct Style<P, L> {
    pub track: StyleTrack<P, L>,
}

impl<P, L> StyleTrack<P, L> {
    /// The line record: the selected one when `select` holds.
    pub fn select_line(&self, select: bool) -> (r: &L)
        ensures
            r == (if select {
                &self.select_line
            } else {
                &self.line
            }),
    {
        if select {
            &self.select_line
        } else {
            &self.line
        }
    }

    /// The point record: the selected one when `select` holds.
    pub fn select_point(&self, select: bool) -> (r: &P)
        ensures
            r == (if select {
                &self.select_point
            } else {
                &self.point
            }),
    {
        if select {
            &self.select_point
        } else {
            &self.point
        }
    }
}

} // verus!
