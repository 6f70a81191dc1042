//! The widget data model: identifiers, refresh frequencies, and the five
//! widget kinds a device can display.

pub mod bus;
pub mod clock;
pub mod github;
pub mod name;
pub mod weather;

use vstd::prelude::*;

pub use bus::{Bus, BusV};
pub use clock::Clock;
pub use github::{Github, GithubV};
pub use name::{Name, NameV};
pub use weather::{Weather, WeatherIcon};

verus! {

/// Opaque identifier of one widget; equality is by value and it keys the
/// device's widget store.
#[derive(Clone, Copy, Debug, PartialEq, Eq, Hash, Structural)]
pub struct WidgetId(pub u32);

impl View for WidgetId {
    type V = WidgetId;

    open spec fn view(&self) -> WidgetId {
        *self
    }
}

/// How often a widget wants its data refreshed.
#[derive(Clone, Copy, Debug, PartialEq, Eq, Structural)]
pub enum UpdateFrequency {
    Seconds(u32),
    Minutes(u32),
    Hours(u32),
    Never,
}

impl View for UpdateFrequency {
    type V = UpdateFrequency;

    open spec fn view(&self) -> UpdateFrequency {
        *self
    }
}

impl UpdateFrequency {
    /// The refresh period in seconds, or `None` for a widget that never
    /// refreshes.
    pub open spec fn spec_to_seconds(&self) -> Option<u32> {
        match self {
            UpdateFrequency::Seconds(s) => Some(*s),
            UpdateFrequency::Minutes(m) => Some((m * 60) as u32),
            UpdateFrequency::Hours(h) => Some((h * 3600) as u32),
            UpdateFrequency::Never => None,
        }
    }

    /// The period can be expressed in whole seconds without overflowing.
    pub open spec fn fits_seconds(&self) -> bool {
        match self {
            UpdateFrequency::Seconds(_) => true,
            UpdateFrequency::Minutes(m) => m * 60 <= u32::MAX,
            UpdateFrequency::Hours(h) => h * 3600 <= u32::MAX,
            UpdateFrequency::Never => true,
        }
    }

    /// A widget refreshes exactly when its frequency is not `Never`.
    pub open spec fn is_set(&self) -> bool {
        !(self is Never)
    }

    pub fn to_seconds(&self) -> (r: Option<u32>)
        requires
            self.fits_seconds(),
        ensures
            r == self.spec_to_seconds(),
            r is Some <==> self.is_set(),
    {
        match self {
            UpdateFrequency::Seconds(s) => Some(*s),
            UpdateFrequency::Minutes(m) => Some(m * 60),
            UpdateFrequency::Hours(h) => Some(h * 3600),
            UpdateFrequency::Never => None,
        }
    }
}

/// The five kinds of widget a device can display.
#[derive(Debug, PartialEq, Eq)]
pub enum WidgetKind {
    Name(Name),
    Clock(Clock),
    Github(Github),
    Weather(Weather),
    Bus(Bus),
}

/// Mathematical image of a [`WidgetKind`].
pub enum WidgetKindV {
    Name(NameV),
    Clock(Clock),
    Github(GithubV),
    Weather(Weather),
    Bus(BusV),
}

impl View for WidgetKind {
    type V = WidgetKindV;

    open spec fn view(&self) -> WidgetKindV {
        match self {
            WidgetKind::Name(n) => WidgetKindV::Name(n@),
            WidgetKind::Clock(c) => WidgetKindV::Clock(*c),
            WidgetKind::Github(g) => WidgetKindV::Github(g@),
            WidgetKind::Weather(w) => WidgetKindV::Weather(*w),
            WidgetKind::Bus(b) => WidgetKindV::Bus(b@),
        }
    }
}

impl Clone for WidgetKind {
    fn clone(&self) -> (r: Self)
        ensures
            r == *self,
    {
        match self {
            WidgetKind::Name(n) => WidgetKind::Name(n.clone()),
            WidgetKind::Clock(c) => WidgetKind::Clock(*c),
            WidgetKind::Github(g) => WidgetKind::Github(g.clone()),
            WidgetKind::Weather(w) => WidgetKind::Weather(*w),
            WidgetKind::Bus(b) => WidgetKind::Bus(b.clone()),
        }
    }
}

impl WidgetKind {
    /// A kind is well formed when its clock, if it is one, holds a valid
    /// time of day.
    pub open spec fn wf(&self) -> bool {
        match self {
            WidgetKind::Clock(c) => c.wf(),
            _ => true,
        }
    }

    /// What one local update step does: clocks advance a second, every
    /// other kind waits for data from the transport.
    pub open spec fn spec_update(&self) -> WidgetKind {
        match self {
            WidgetKind::Clock(c) => WidgetKind::Clock(Clock::spec_next(*c)),
            _ => *self,
        }
    }

    /// Apply one local update step.
    pub fn update(&mut self)
        requires
            old(self).wf(),
        ensures
            *final(self) == old(self).spec_update(),
            final(self).wf(),
    {
        match self {
            WidgetKind::Clock(c) => c.update(),
            WidgetKind::Name(n) => n.update(),
            WidgetKind::Weather(w) => w.update(),
            WidgetKind::Bus(b) => b.update(),
            WidgetKind::Github(g) => g.update(),
        }
    }
}

/// One widget as the device holds it: identifier, kind, and how often it
/// refreshes remotely (through the transport) and locally (on the device).
#[derive(Debug, PartialEq, Eq)]
pub struct MemoriWidget {
    pub id: WidgetId,
    pub kind: WidgetKind,
    pub remote_update_frequency: UpdateFrequency,
    pub local_update_frequency: UpdateFrequency,
}

/// Mathematical image of a [`MemoriWidget`].
pub struct MemoriWidgetV {
    pub id: WidgetId,
    pub kind: WidgetKindV,
    pub remote_update_frequency: UpdateFrequency,
    pub local_update_frequency: UpdateFrequency,
}

impl View for MemoriWidget {
    type V = MemoriWidgetV;

    open spec fn view(&self) -> MemoriWidgetV {
        MemoriWidgetV {
            id: self.id,
            kind: self.kind@,
            remote_update_frequency: self.remote_update_frequency,
            local_update_frequency: self.local_update_frequency,
        }
    }
}

impl Clone for MemoriWidget {
    fn clone(&self) -> (r: Self)
        ensures
            r == *self,
    {
        MemoriWidget {
            id: self.id,
            kind: self.kind.clone(),
            remote_update_frequency: self.remote_update_frequency,
            local_update_frequency: self.local_update_frequency,
        }
    }
}

impl MemoriWidget {
    /// The widget's kind is well formed and its refresh periods can be
    /// expressed in seconds.
    pub open spec fn wf(&self) -> bool {
        &&& self.kind.wf()
        &&& self.remote_update_frequency.fits_seconds()
        &&& self.local_update_frequency.fits_seconds()
    }

    /// The widget asks for periodic refreshes through the transport.
    pub open spec fn wants_refresh(&self) -> bool {
        self.remote_update_frequency.is_set()
    }

    pub fn new(
        id: WidgetId,
        kind: WidgetKind,
        remote_update_frequency: UpdateFrequency,
        local_update_frequency: UpdateFrequency,
    ) -> (r: Self)
        ensures
            r.id == id,
            r.kind == kind,
            r.remote_update_frequency == remote_update_frequency,
            r.local_update_frequency == local_update_frequency,
    {
        Self { id, kind, remote_update_frequency, local_update_frequency }
    }

    /// Apply one local update step to the widget's kind.
    pub fn update(&mut self)
        requires
            old(self).kind.wf(),
        ensures
            final(self).kind == old(self).kind.spec_update(),
            final(self).id == old(self).id,
            final(self).remote_update_frequency == old(self).remote_update_frequency,
            final(self).local_update_frequency == old(self).local_update_frequency,
            final(self).kind.wf(),
    {
        self.kind.update();
    }

    pub fn get_remote_update_frequency(&self) -> (r: UpdateFrequency)
        ensures
            r == self.remote_update_frequency,
    {
        self.remote_update_frequency
    }

    pub fn get_local_update_frequency(&self) -> (r: UpdateFrequency)
        ensures
            r == self.local_update_frequency,
    {
        self.local_update_frequency
    }
}

/// Anything that can absorb one local update step; the device's periodic
/// update task drives its widgets through this.
pub trait Updatable {
    fn update(&mut self);
}

impl Updatable for Name {
    fn update(&mut self) {
    }
}

} // verus!
