//! The device's display state: its widgets, keyed by identifier, and the
//! frames that lay them out.

use crate::layout::MemoriLayout;
use crate::widgets::{MemoriWidget, MemoriWidgetV, Name, UpdateFrequency, WidgetId, WidgetKind};
use vstd::prelude::*;
use vstd::string::StringExecFns;

verus! {

/// No two widgets in the sequence share an identifier: the sequence stands
/// for a map keyed by [`WidgetId`].
pub open spec fn unique_widget_ids(s: Seq<MemoriWidget>) -> bool {
    forall|i: int, j: int| 0 <= i < j < s.len() ==> s[i].id != s[j].id
}

/// Some widget in the sequence carries the identifier.
pub open spec fn has_widget(s: Seq<MemoriWidget>, id: WidgetId) -> bool {
    exists|i: int| 0 <= i < s.len() && s[i].id == id
}

/// Replacing an entry by one carrying the same identifier keeps the
/// store's identifiers pairwise distinct.
proof fn lemma_update_same_id_keeps_unique(s: Seq<MemoriWidget>, i: int, w: MemoriWidget)
    requires
        unique_widget_ids(s),
        0 <= i < s.len(),
        s[i].id == w.id,
    ensures
        unique_widget_ids(s.update(i, w)),
{
    let t = s.update(i, w);
    assert forall|a: int, b: int| 0 <= a < b < t.len() implies t[a].id != t[b].id by {
        assert(s[a].id != s[b].id);
        assert(t[a].id == s[a].id);
        assert(t[b].id == s[b].id);
    }
}

/// The complete state of one device display.
#[derive(Debug, PartialEq, Eq)]
pub struct MemoriState {
    pub active_frame_idx: usize,
    /// The widget store; its entries stand for a map keyed by widget
    /// identifier, so no two entries share one.
    pub widgets: Vec<MemoriWidget>,
    pub frames: Vec<MemoriLayout>,
    pub frame_time: u32,
}

/// Mathematical image of a [`MemoriState`].
pub struct MemoriStateV {
    pub active_frame_idx: usize,
    pub widgets: Seq<MemoriWidgetV>,
    pub frames: Seq<MemoriLayout>,
    pub frame_time: u32,
}

impl View for MemoriState {
    type V = MemoriStateV;

    open spec fn view(&self) -> MemoriStateV {
        MemoriStateV {
            active_frame_idx: self.active_frame_idx,
            widgets: Seq::new(self.widgets@.len(), |i: int| self.widgets@[i]@),
            frames: self.frames@,
            frame_time: self.frame_time,
        }
    }
}

impl Clone for MemoriState {
    fn clone(&self) -> (r: Self)
        ensures
            r.active_frame_idx == self.active_frame_idx,
            r.widgets@ == self.widgets@,
            r.frames@ == self.frames@,
            r.frame_time == self.frame_time,
    {
        let mut widgets: Vec<MemoriWidget> = Vec::new();
        let mut i: usize = 0;
        while i < self.widgets.len()
            invariant
                i <= self.widgets.len(),
                widgets@ == self.widgets@.take(i as int),
            decreases self.widgets.len() - i,
        {
            widgets.push(self.widgets[i].clone());
            proof {
                assert(widgets@ =~= self.widgets@.take(i + 1));
            }
            i = i + 1;
        }
        proof {
            assert(widgets@ =~= self.widgets@);
        }
        MemoriState {
            active_frame_idx: self.active_frame_idx,
            widgets,
            frames: vstd::slice::slice_to_vec(self.frames.as_slice()),
            frame_time: self.frame_time,
        }
    }
}

impl MemoriState {
    /// The active frame index points into the frame list, and the widget
    /// store holds each identifier at most once.
    pub open spec fn wf(&self) -> bool {
        &&& self.active_frame_idx < self.frames@.len()
        &&& unique_widget_ids(self.widgets@)
    }

    /// Build a state from its parts. The widgets stand for a map, so their
    /// identifiers must be pairwise distinct, and the active frame index
    /// must point into the frame list.
    pub fn new(
        active_frame_idx: usize,
        widgets: Vec<MemoriWidget>,
        frames: Vec<MemoriLayout>,
        frame_time: u32,
    ) -> (r: Self)
        requires
            active_frame_idx < frames@.len(),
            unique_widget_ids(widgets@),
        ensures
            r == (MemoriState { active_frame_idx, widgets, frames, frame_time }),
            r.wf(),
    {
        Self { active_frame_idx, widgets, frames, frame_time }
    }

    /// The layout currently shown.
    pub fn active_frame(&self) -> (r: &MemoriLayout)
        requires
            self.wf(),
        ensures
            *r == self.frames@[self.active_frame_idx as int],
    {
        &self.frames[self.active_frame_idx]
    }

    /// Look up the widget carrying `id`, if any.
    pub fn get_widget(&self, id: WidgetId) -> (r: Option<&MemoriWidget>)
        ensures
            r is Some <==> has_widget(self.widgets@, id),
            r matches Some(w) ==> w.id == id && exists|i: int|
                0 <= i < self.widgets@.len() && self.widgets@[i] == *w,
    {
        let mut i: usize = 0;
        while i < self.widgets.len()
            invariant
                i <= self.widgets.len(),
                forall|j: int| 0 <= j < i ==> self.widgets@[j].id != id,
            decreases self.widgets.len() - i,
        {
            if self.widgets[i].id.0 == id.0 {
                return Some(&self.widgets[i]);
            }
            i = i + 1;
        }
        None
    }

    /// Store `w`, replacing the widget that already carries its identifier
    /// or appending it otherwise — map insertion over the widget store.
    pub fn insert_widget(&mut self, w: MemoriWidget)
        requires
            unique_widget_ids(old(self).widgets@),
        ensures
            unique_widget_ids(final(self).widgets@),
            final(self).active_frame_idx == old(self).active_frame_idx,
            final(self).frames == old(self).frames,
            final(self).frame_time == old(self).frame_time,
            has_widget(old(self).widgets@, w.id) ==> exists|i: int|
                0 <= i < old(self).widgets@.len() && old(self).widgets@[i].id == w.id
                    && final(self).widgets@ == old(self).widgets@.update(i, w),
            !has_widget(old(self).widgets@, w.id) ==> final(self).widgets@ == old(
                self).widgets@.push(w),
            has_widget(final(self).widgets@, w.id),
    {
        let mut i: usize = 0;
        while i < self.widgets.len()
            invariant
                i <= self.widgets.len(),
                forall|j: int| 0 <= j < i ==> self.widgets@[j].id != w.id,
                *self == *old(self),
                unique_widget_ids(old(self).widgets@),
            decreases self.widgets.len() - i,
        {
            if self.widgets[i].id.0 == w.id.0 {
                let ghost idx = i as int;
                self.widgets[i] = w;
                proof {
                    assert(self.widgets@ =~= old(self).widgets@.update(idx, w));
                    lemma_update_same_id_keeps_unique(old(self).widgets@, idx, w);
                    assert(self.widgets@[idx].id == w.id);
                }
                return ;
            }
            i = i + 1;
        }
        self.widgets.push(w);
        proof {
            let ghost n = old(self).widgets@.len() as int;
            assert(self.widgets@[n].id == w.id);
        }
    }

    /// How many widgets ask for periodic refreshes through the transport.
    pub open spec fn spec_refresh_count(s: Seq<MemoriWidget>) -> int
        decreases s.len(),
    {
        if s.len() == 0 {
            0
        } else {
            Self::spec_refresh_count(s.drop_last()) + if s.last().wants_refresh() {
                1int
            } else {
                0int
            }
        }
    }
}

impl Default for MemoriState {
    /// The state a device boots with: a single name widget that never
    /// refreshes, shown full-screen.
    fn default() -> (r: Self)
        ensures
            r.wf(),
            r.active_frame_idx == 0,
            r.widgets@.len() == 1,
            r.widgets@[0].id == WidgetId(0),
            r.widgets@[0].kind matches WidgetKind::Name(n) && n.name@ == "Surendra"@,
            r.widgets@[0].remote_update_frequency == UpdateFrequency::Never,
            r.widgets@[0].local_update_frequency == UpdateFrequency::Never,
            r.frames@ =~= seq![MemoriLayout::Full(WidgetId(0))],
            r.frame_time == 5,
    {
        let widget_id = WidgetId(0);
        let widget = MemoriWidget::new(
            widget_id,
            WidgetKind::Name(Name::new(String::from_str("Surendra"))),
            UpdateFrequency::Never,
            UpdateFrequency::Never,
        );
        let mut widgets: Vec<MemoriWidget> = Vec::new();
        widgets.push(widget);
        let mut frames: Vec<MemoriLayout> = Vec::new();
        frames.push(MemoriLayout::Full(widget_id));
        MemoriState { active_frame_idx: 0, widgets, frames, frame_time: 5 }
    }
}

} // verus!
