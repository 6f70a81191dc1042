//! The widget-refresh scheduler: spawning on state replacement,
//! generation-based cancellation, and the task-count bound.

use memori::errors::TransError;
use memori::handler::{period_secs, DeviceCore, RefreshAction, RefreshTask};
use memori::layout::MemoriLayout;
use memori::state::MemoriState;
use memori::stream::{DeviceResponse, HostRequest};
use memori::widgets::{MemoriWidget, Name, UpdateFrequency, WidgetId, WidgetKind};
use memori::MAX_REFRESH_TASKS;

fn named_widget(id: u32, remote: UpdateFrequency) -> MemoriWidget {
    MemoriWidget::new(
        WidgetId(id),
        WidgetKind::Name(Name::new(format!("w{}", id))),
        remote,
        UpdateFrequency::Never,
    )
}

fn state_of(widgets: Vec<MemoriWidget>) -> MemoriState {
    let first = widgets[0].id;
    MemoriState::new(0, widgets, vec![MemoriLayout::Full(first)], 5)
}

#[test]
fn set_state_spawns_one_task_per_refreshing_widget() {
    let mut core = DeviceCore::new(state_of(vec![named_widget(1, UpdateFrequency::Never)]), 100);
    let incoming = state_of(vec![
        named_widget(1, UpdateFrequency::Seconds(1)),
        named_widget(2, UpdateFrequency::Never),
        named_widget(3, UpdateFrequency::Minutes(2)),
    ]);
    let (resp, tasks) = core.handle_host_request(HostRequest::SetState(incoming));
    assert_eq!(resp, DeviceResponse::SetState(Ok(())));
    assert_eq!(tasks.len(), 2);
    assert_eq!(tasks[0].widget_id, WidgetId(1));
    assert_eq!(tasks[0].period_secs, 1);
    assert_eq!(tasks[1].widget_id, WidgetId(3));
    assert_eq!(tasks[1].period_secs, 120);
    assert!(tasks.iter().all(|t| t.generation == tasks[0].generation));
}

#[test]
fn set_state_replace_cancels_previous_generation() {
    // First state: widget A refreshing. Then a second state with widget B
    // only: A's task must exit and can no longer mutate the store.
    let mut core = DeviceCore::new(state_of(vec![named_widget(9, UpdateFrequency::Never)]), 100);

    let first = state_of(vec![named_widget(1, UpdateFrequency::Seconds(1))]);
    let (resp, tasks_a) = core.handle_host_request(HostRequest::SetState(first));
    assert_eq!(resp, DeviceResponse::SetState(Ok(())));
    let task_a = tasks_a[0];

    // While the first generation is live, A's task refreshes and its
    // result is stored.
    assert_eq!(core.refresh_step(&task_a), RefreshAction::Refresh(WidgetId(1)));
    assert!(core.apply_refresh(&task_a, named_widget(1, UpdateFrequency::Seconds(1))));

    let second = state_of(vec![named_widget(2, UpdateFrequency::Seconds(1))]);
    let (resp, tasks_b) = core.handle_host_request(HostRequest::SetState(second));
    assert_eq!(resp, DeviceResponse::SetState(Ok(())));
    let task_b = tasks_b[0];
    assert_ne!(task_a.generation, task_b.generation);

    // A's task wakes once more: it must exit, and applying its result
    // must change nothing.
    assert_eq!(core.refresh_step(&task_a), RefreshAction::Exit);
    let before = core.state.clone();
    assert!(!core.apply_refresh(&task_a, named_widget(1, UpdateFrequency::Seconds(1))));
    assert_eq!(core.state, before);

    // B's task is live.
    assert_eq!(core.refresh_step(&task_b), RefreshAction::Refresh(WidgetId(2)));
    assert!(core.apply_refresh(&task_b, named_widget(2, UpdateFrequency::Seconds(1))));
}

#[test]
fn too_many_refreshing_widgets_is_internal_error() {
    let mut core = DeviceCore::new(state_of(vec![named_widget(0, UpdateFrequency::Never)]), 100);
    let mut widgets = Vec::new();
    for id in 0..(MAX_REFRESH_TASKS as u32 + 1) {
        widgets.push(named_widget(id, UpdateFrequency::Seconds(1)));
    }
    let (resp, tasks) = core.handle_host_request(HostRequest::SetState(state_of(widgets)));
    assert_eq!(resp, DeviceResponse::SetState(Err(TransError::InternalError)));
    assert_eq!(tasks.len(), 0);
}

#[test]
fn exactly_max_refreshing_widgets_is_accepted() {
    let mut core = DeviceCore::new(state_of(vec![named_widget(0, UpdateFrequency::Never)]), 100);
    let mut widgets = Vec::new();
    for id in 0..(MAX_REFRESH_TASKS as u32) {
        widgets.push(named_widget(id, UpdateFrequency::Seconds(1)));
    }
    let (resp, tasks) = core.handle_host_request(HostRequest::SetState(state_of(widgets)));
    assert_eq!(resp, DeviceResponse::SetState(Ok(())));
    assert_eq!(tasks.len(), MAX_REFRESH_TASKS);
}

#[test]
fn duplicate_widget_ids_are_refused() {
    let mut core = DeviceCore::new(state_of(vec![named_widget(0, UpdateFrequency::Never)]), 100);
    let before_gen = {
        let (resp, _) = core.handle_host_request(HostRequest::Ping);
        assert_eq!(resp, DeviceResponse::Pong);
        core.generation
    };
    let dup = state_of(vec![
        named_widget(1, UpdateFrequency::Never),
        named_widget(1, UpdateFrequency::Never),
    ]);
    let (resp, tasks) = core.handle_host_request(HostRequest::SetState(dup));
    assert_eq!(resp, DeviceResponse::SetState(Err(TransError::InternalError)));
    assert_eq!(tasks.len(), 0);
    assert_eq!(core.generation, before_gen);
}

#[test]
fn refresh_result_updates_only_that_widgets_entry() {
    let bystander = named_widget(6, UpdateFrequency::Never);
    let mut core = DeviceCore::new(
        state_of(vec![named_widget(5, UpdateFrequency::Seconds(1)), bystander.clone()]),
        100,
    );
    let task = RefreshTask { widget_id: WidgetId(5), period_secs: 1, generation: 0 };
    let fresh = MemoriWidget::new(
        WidgetId(5),
        WidgetKind::Name(Name::new(String::from("fresh"))),
        UpdateFrequency::Seconds(1),
        UpdateFrequency::Never,
    );
    assert!(core.apply_refresh(&task, fresh.clone()));
    // The refreshed widget is stored verbatim under the task's id...
    let stored = core.state.get_widget(WidgetId(5)).expect("widget 5 should be stored");
    assert_eq!(*stored, fresh);
    // ...and every other entry survives untouched.
    assert_eq!(core.state.widgets.len(), 2);
    let untouched = core.state.get_widget(WidgetId(6)).expect("widget 6 should survive");
    assert_eq!(*untouched, bystander);
}

#[test]
fn period_saturates_instead_of_overflowing() {
    assert_eq!(period_secs(UpdateFrequency::Seconds(7)), 7);
    assert_eq!(period_secs(UpdateFrequency::Minutes(2)), 120);
    assert_eq!(period_secs(UpdateFrequency::Hours(1)), 3600);
    assert_eq!(period_secs(UpdateFrequency::Never), 0);
    assert_eq!(period_secs(UpdateFrequency::Minutes(u32::MAX)), u32::MAX);
}
