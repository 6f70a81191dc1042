//! A widget showing the next predicted arrival of a bus route.

use vstd::prelude::*;

verus! {

/// Define a widget by its data.
#[derive(Debug, PartialEq, Eq)]
pub struct Bus {
    pub route: String,
    pub prediction: String,
}

/// Mathematical image of a [`Bus`].
pub struct BusV {
    pub route: Seq<char>,
    pub prediction: Seq<char>,
}

impl View for Bus {
    type V = BusV;

    open spec fn view(&self) -> BusV {
        BusV { route: self.route@, prediction: self.prediction@ }
    }
}

impl Clone for Bus {
    fn clone(&self) -> (r: Self)
        ensures
            r == *self,
    {
        Bus { route: self.route.clone(), prediction: self.prediction.clone() }
    }
}

impl Bus {
    pub fn new(prediction: String, route: String) -> (r: Self)
        ensures
            r.prediction == prediction,
            r.route == route,
    {
        Bus { route, prediction }
    }

    /// Fresh predictions arrive through the transport, not locally.
    pub fn update(&mut self)
        ensures
            *final(self) == *old(self),
    {
    }
}

} // verus!
