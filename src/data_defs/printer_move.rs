use vstd::prelude::*;

verus! {

/// An axis of the print head.
#[derive(Debug, Clone, Copy, PartialEq, Eq, Structural)]
pub enum HomeAxis {
    X,
    Y,
    Z,
}

/// A command that moves the print head; distances in mm, speed in mm/min.
#[derive(Debug, Clone, PartialEq, Eq)]
pub enum PrinterMove {
    Move {
        x: Option<i64>,
        y: Option<i64>,
        z: Option<i64>,
        absolute: Option<bool>,
        speed: Option<i64>,
    },
    Home { axes: Vec<HomeAxis> },
}

/// The three axes, in the order they are homed.
pub open spec fn all_axes() -> Seq<HomeAxis> {
    seq![HomeAxis::X, HomeAxis::Y, HomeAxis::Z]
}

impl PrinterMove {
    /// Homes every axis.
    pub fn home_all() -> (r: Self)
        ensures
            r is Home,
            r->Home_axes@ == all_axes(),
    {
        let axes = vec![HomeAxis::X, HomeAxis::Y, HomeAxis::Z];
        assert(axes@ =~= all_axes());
        PrinterMove::Home { axes }
    }
}

} // verus!
