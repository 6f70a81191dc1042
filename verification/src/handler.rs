//! The device's server side: handling host commands and scheduling
//! widget refreshes.
//!
//! A state replacement bumps a wrapping generation counter. Every refresh
//! task remembers the generation it was born into and checks it on every
//! wake; a task from an earlier generation exits without touching the
//! store, which is how one `SetState` cancels the whole previous cohort
//! at once.

use crate::config::DeviceConfig;
use crate::errors::TransError;
use crate::ids::step_id;
use crate::state::{has_widget, unique_widget_ids, MemoriState};
use crate::stream::{DeviceResponse, HostRequest};
use crate::widgets::{MemoriWidget, UpdateFrequency, WidgetId};
use crate::MAX_REFRESH_TASKS;
use vstd::prelude::*;

verus! {

/// The refresh period of a frequency, in whole seconds, capped at
/// `u32::MAX`; zero for a widget that never refreshes.
pub open spec fn spec_period_secs(f: UpdateFrequency) -> u32 {
    match f {
        UpdateFrequency::Seconds(s) => s,
        UpdateFrequency::Minutes(m) => if m * 60 > u32::MAX {
            u32::MAX
        } else {
            (m * 60) as u32
        },
        UpdateFrequency::Hours(h) => if h * 3600 > u32::MAX {
            u32::MAX
        } else {
            (h * 3600) as u32
        },
        UpdateFrequency::Never => 0,
    }
}

/// The refresh period in seconds, capped at `u32::MAX`. Unlike
/// [`UpdateFrequency::to_seconds`] this never overflows; the scheduler
/// uses it on states that arrive off the wire.
pub fn period_secs(f: UpdateFrequency) -> (r: u32)
    ensures
        r == spec_period_secs(f),
{
    match f {
        UpdateFrequency::Seconds(s) => s,
        UpdateFrequency::Minutes(m) => match m.checked_mul(60) {
            Some(v) => v,
            None => u32::MAX,
        },
        UpdateFrequency::Hours(h) => match h.checked_mul(3600) {
            Some(v) => v,
            None => u32::MAX,
        },
        UpdateFrequency::Never => 0,
    }
}

/// One widget-refresh task as the scheduler spawns it: which widget to
/// refresh, how often, and the generation it was born into.
#[derive(Clone, Copy, Debug, PartialEq, Eq, Structural)]
pub struct RefreshTask {
    pub widget_id: WidgetId,
    pub period_secs: u32,
    pub generation: u32,
}

/// The task spawned for one widget under generation `g`.
pub open spec fn spec_task_for(w: MemoriWidget, g: u32) -> RefreshTask {
    RefreshTask {
        widget_id: w.id,
        period_secs: spec_period_secs(w.remote_update_frequency),
        generation: g,
    }
}

/// The tasks a state replacement spawns: one per widget with a set update
/// frequency, in store order, all born into generation `g`.
pub open spec fn spec_spawn_list(s: Seq<MemoriWidget>, g: u32) -> Seq<RefreshTask>
    decreases s.len(),
{
    if s.len() == 0 {
        Seq::empty()
    } else {
        spec_spawn_list(s.drop_last(), g) + if s.last().wants_refresh() {
            seq![spec_task_for(s.last(), g)]
        } else {
            Seq::empty()
        }
    }
}

/// How many widgets in the sequence ask for refreshes: exactly the tasks
/// a replacement spawns.
pub proof fn lemma_spawn_list_len(s: Seq<MemoriWidget>, g: u32)
    ensures
        spec_spawn_list(s, g).len() == MemoriState::spec_refresh_count(s),
    decreases s.len(),
{
    if s.len() > 0 {
        lemma_spawn_list_len(s.drop_last(), g);
    }
}

/// What one wake of a refresh task does.
#[derive(Clone, Copy, Debug, PartialEq, Eq, Structural)]
pub enum RefreshAction {
    /// The task's generation is stale: exit silently.
    Exit,
    /// Issue a `RefreshData` request for this widget.
    Refresh(WidgetId),
}

/// One device endpoint's served state: the display state, the refresh
/// generation, the reported battery level, and the applied configuration.
#[derive(Debug, PartialEq, Eq)]
pub struct DeviceCore {
    pub state: MemoriState,
    pub generation: u32,
    pub battery_level: u8,
    pub config: DeviceConfig,
}

/// Check that the widget entries of a state form a map: no identifier
/// twice.
fn widgets_form_map(widgets: &Vec<MemoriWidget>) -> (r: bool)
    ensures
        r == unique_widget_ids(widgets@),
{
    let mut i: usize = 0;
    while i < widgets.len()
        invariant
            i <= widgets.len(),
            forall|a: int, b: int| 0 <= a < b < i ==> widgets@[a].id != widgets@[b].id,
            forall|a: int, b: int|
                0 <= a < i && a < b < widgets@.len() ==> widgets@[a].id != widgets@[b].id,
        decreases widgets.len() - i,
    {
        let mut j: usize = i + 1;
        while j < widgets.len()
            invariant
                i < widgets@.len(),
                i < j <= widgets@.len(),
                forall|b: int| i < b < j ==> widgets@[i as int].id != widgets@[b].id,
            decreases widgets.len() - j,
        {
            if widgets[i].id.0 == widgets[j].id.0 {
                return false;
            }
            j = j + 1;
        }
        i = i + 1;
    }
    true
}

impl DeviceCore {
    /// The widget store always forms a map.
    pub open spec fn wf(&self) -> bool {
        unique_widget_ids(self.state.widgets@)
    }

    /// A device endpoint serving `state`, reporting `battery_level`, at
    /// generation zero. The battery characteristic carries a percentage,
    /// zero to one hundred.
    pub fn new(state: MemoriState, battery_level: u8) -> (r: DeviceCore)
        requires
            unique_widget_ids(state.widgets@),
            battery_level <= 100,
        ensures
            r.state == state,
            r.generation == 0,
            r.battery_level == battery_level,
            r.config == (DeviceConfig { dark_mode: false }),
            r.wf(),
    {
        DeviceCore {
            state,
            generation: 0,
            battery_level,
            config: DeviceConfig { dark_mode: false },
        }
    }

    /// Serve one host command.
    ///
    /// - `GetWidget(id)` answers with the stored widget, or
    ///   `WidgetNotFound` when the store holds no such identifier; the
    ///   store is untouched.
    /// - `SetState(s)` replaces the state, bumps the generation (which
    ///   cancels every refresh task of the previous cohort), and spawns
    ///   one refresh task per widget with a set update frequency; with
    ///   more such widgets than [`MAX_REFRESH_TASKS`] it answers
    ///   `InternalError` and spawns nothing. A state whose widget entries
    ///   repeat an identifier is no map and is likewise refused, leaving
    ///   everything unchanged.
    /// - `SetConfig` applies the configuration and acknowledges.
    /// - `GetBatteryLevel` reports the held level; `Ping` answers `Pong`.
    pub fn handle_host_request(&mut self, req: HostRequest) -> (r: (
        DeviceResponse,
        Vec<RefreshTask>,
    ))
        requires
            old(self).wf(),
        ensures
            final(self).wf(),
            r.1@.len() <= MAX_REFRESH_TASKS,
            match req {
                HostRequest::GetWidget(id) => {
                    &&& *final(self) == *old(self)
                    &&& r.1@.len() == 0
                    &&& (has_widget(old(self).state.widgets@, id) <==> (r.0 matches
                        DeviceResponse::WidgetGet(res) && res is Ok))
                    &&& (r.0 matches DeviceResponse::WidgetGet(res) ==> match res {
                        Ok(w) => w.id == id && exists|i: int|
                            0 <= i < old(self).state.widgets@.len() && old(
                                self).state.widgets@[i] == w,
                        Err(e) => e == TransError::WidgetNotFound,
                    })
                    &&& r.0 matches DeviceResponse::WidgetGet(res)
                },
                HostRequest::SetState(st) => {
                    if !unique_widget_ids(st.widgets@) {
                        &&& *final(self) == *old(self)
                        &&& r.0 == DeviceResponse::SetState(
                            Err::<(), TransError>(TransError::InternalError),
                        )
                        &&& r.1@.len() == 0
                    } else {
                        &&& final(self).state == st
                        &&& final(self).generation == step_id(old(self).generation, 1)
                        &&& final(self).battery_level == old(self).battery_level
                        &&& final(self).config == old(self).config
                        &&& (MemoriState::spec_refresh_count(st.widgets@) <= MAX_REFRESH_TASKS
                            <==> r.0 == DeviceResponse::SetState(Ok::<(), TransError>(())))
                        &&& (MemoriState::spec_refresh_count(st.widgets@) > MAX_REFRESH_TASKS
                            ==> r.0 == DeviceResponse::SetState(
                            Err::<(), TransError>(TransError::InternalError),
                        ) && r.1@.len() == 0)
                        &&& (MemoriState::spec_refresh_count(st.widgets@) <= MAX_REFRESH_TASKS
                            ==> r.1@ == spec_spawn_list(st.widgets@, final(self).generation))
                    }
                },
                HostRequest::SetConfig(c) => {
                    &&& final(self).config == c
                    &&& final(self).state == old(self).state
                    &&& final(self).generation == old(self).generation
                    &&& final(self).battery_level == old(self).battery_level
                    &&& r.0 == DeviceResponse::ConfigSet(Ok::<(), TransError>(()))
                    &&& r.1@.len() == 0
                },
                HostRequest::GetBatteryLevel => {
                    &&& *final(self) == *old(self)
                    &&& r.0 == DeviceResponse::BatteryLevel(old(self).battery_level)
                    &&& r.1@.len() == 0
                },
                HostRequest::Ping => {
                    &&& *final(self) == *old(self)
                    &&& r.0 == DeviceResponse::Pong
                    &&& r.1@.len() == 0
                },
            },
    {
        match req {
            HostRequest::GetWidget(id) => {
                let resp = match self.state.get_widget(id) {
                    Some(w) => DeviceResponse::WidgetGet(Ok(w.clone())),
                    None => DeviceResponse::WidgetGet(Err(TransError::WidgetNotFound)),
                };
                (resp, Vec::new())
            },
            HostRequest::SetState(st) => {
                if !widgets_form_map(&st.widgets) {
                    return (
                        DeviceResponse::SetState(Err(TransError::InternalError)),
                        Vec::new(),
                    );
                }
                self.state = st;
                self.generation = self.generation.wrapping_add(1);
                let g = self.generation;
                let mut tasks: Vec<RefreshTask> = Vec::new();
                let mut i: usize = 0;
                while i < self.state.widgets.len()
                    invariant
                        i <= self.state.widgets.len(),
                        tasks@ == spec_spawn_list(self.state.widgets@.take(i as int), g),
                    decreases self.state.widgets.len() - i,
                {
                    let w = &self.state.widgets[i];
                    match w.get_remote_update_frequency() {
                        UpdateFrequency::Never => {},
                        f => {
                            let task = RefreshTask {
                                widget_id: w.id,
                                period_secs: period_secs(f),
                                generation: g,
                            };
                            tasks.push(task);
                        },
                    }
                    proof {
                        let pre = self.state.widgets@.take(i as int);
                        let cur = self.state.widgets@.take(i + 1);
                        assert(cur.drop_last() =~= pre);
                        assert(cur.last() == self.state.widgets@[i as int]);
                        if self.state.widgets@[i as int].wants_refresh() {
                            assert(tasks@ =~= spec_spawn_list(pre, g) + seq![
                                spec_task_for(self.state.widgets@[i as int], g),
                            ]);
                        } else {
                            assert(tasks@ =~= spec_spawn_list(pre, g));
                        }
                    }
                    i = i + 1;
                }
                proof {
                    assert(self.state.widgets@.take(self.state.widgets@.len() as int)
                        =~= self.state.widgets@);
                    lemma_spawn_list_len(self.state.widgets@, g);
                }
                if tasks.len() > MAX_REFRESH_TASKS {
                    (DeviceResponse::SetState(Err(TransError::InternalError)), Vec::new())
                } else {
                    (DeviceResponse::SetState(Ok(())), tasks)
                }
            },
            HostRequest::SetConfig(c) => {
                self.config = c;
                (DeviceResponse::ConfigSet(Ok(())), Vec::new())
            },
            HostRequest::GetBatteryLevel => {
                (DeviceResponse::BatteryLevel(self.battery_level), Vec::new())
            },
            HostRequest::Ping => (DeviceResponse::Pong, Vec::new()),
        }
    }

    /// What a refresh task does when it wakes: exit if its generation is
    /// stale, else issue a refresh request for its widget.
    pub fn refresh_step(&self, task: &RefreshTask) -> (r: RefreshAction)
        ensures
            task.generation != self.generation <==> r == RefreshAction::Exit,
            task.generation == self.generation <==> r == RefreshAction::Refresh(task.widget_id),
    {
        if task.generation != self.generation {
            RefreshAction::Exit
        } else {
            RefreshAction::Refresh(task.widget_id)
        }
    }

    /// The entry a successful refresh stores: the refreshed widget's data,
    /// keyed under the task's widget identifier.
    pub open spec fn spec_refreshed_entry(task: RefreshTask, w: MemoriWidget) -> MemoriWidget {
        MemoriWidget {
            id: task.widget_id,
            kind: w.kind,
            remote_update_frequency: w.remote_update_frequency,
            local_update_frequency: w.local_update_frequency,
        }
    }

    /// Store the widget a refresh brought back — but only if the task's
    /// generation is still current. A current task's result replaces
    /// exactly the entry for its widget (or adds it, had it been removed
    /// meanwhile); every other entry survives untouched. A stale task
    /// changes nothing: after a state replacement, no task of an earlier
    /// cohort can mutate the store.
    pub fn apply_refresh(&mut self, task: &RefreshTask, w: MemoriWidget) -> (applied: bool)
        requires
            old(self).wf(),
        ensures
            final(self).wf(),
            applied <==> task.generation == old(self).generation,
            !applied ==> *final(self) == *old(self),
            applied ==> {
                let stored = DeviceCore::spec_refreshed_entry(*task, w);
                &&& final(self).generation == old(self).generation
                &&& final(self).battery_level == old(self).battery_level
                &&& final(self).config == old(self).config
                &&& final(self).state.frames == old(self).state.frames
                &&& final(self).state.active_frame_idx == old(self).state.active_frame_idx
                &&& final(self).state.frame_time == old(self).state.frame_time
                &&& (has_widget(old(self).state.widgets@, task.widget_id) ==> exists|i: int|
                    0 <= i < old(self).state.widgets@.len() && old(self).state.widgets@[i].id
                        == task.widget_id && final(self).state.widgets@ == old(
                        self).state.widgets@.update(i, stored))
                &&& (!has_widget(old(self).state.widgets@, task.widget_id) ==> final(
                    self).state.widgets@ == old(self).state.widgets@.push(stored))
                &&& has_widget(final(self).state.widgets@, task.widget_id)
            },
    {
        if task.generation != self.generation {
            return false;
        }
        let stored = MemoriWidget {
            id: task.widget_id,
            kind: w.kind,
            remote_update_frequency: w.remote_update_frequency,
            local_update_frequency: w.local_update_frequency,
        };
        proof {
            assert(stored == DeviceCore::spec_refreshed_entry(*task, w));
        }
        self.state.insert_widget(stored);
        true
    }
}

/// Replacing the state cancels every refresh task spawned before it: the
/// replacement moves the generation one step on, a wrapping counter never
/// maps a value to itself, and a task whose remembered generation differs
/// from the current one exits without touching the store (see
/// [`DeviceCore::refresh_step`] and [`DeviceCore::apply_refresh`]).
pub proof fn lemma_set_state_cancels_prior_tasks(task: RefreshTask, generation_before: u32)
    requires
        task.generation == generation_before,
    ensures
        task.generation != step_id(generation_before, 1),
{
}

} // verus!
