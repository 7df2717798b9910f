use clickwheel::layout::{layout, SegmentSpec, DEFAULT_SEGMENT_COUNT};
use clickwheel::menu::{ClickwheelMenu, MenuState};
use clickwheel::proxy::SpawnRequest;
use clickwheel::selection::CollisionEvent;

type Point = (f32, f32);

const PROBE: u64 = 100;

fn spawned_all(n: usize) -> Vec<Option<u64>> {
    let mut v = vec![Some(PROBE)];
    for k in 0..n {
        v.push(Some(200 + k as u64));
    }
    v
}

fn active_menu() -> ClickwheelMenu<Point> {
    let mut menu: ClickwheelMenu<Point> = ClickwheelMenu::new(DEFAULT_SEGMENT_COUNT);
    let requests = menu.press();
    assert_eq!(requests.len(), 9);
    let discarded = menu.complete_arm(spawned_all(8));
    assert!(discarded.is_empty());
    assert_eq!(menu.state(), MenuState::Active);
    menu
}

#[test]
fn layout_packs_segments_into_half_turn_sectors() {
    let specs = layout(8);
    assert_eq!(specs.len(), 8);
    for (i, s) in specs.iter().enumerate() {
        assert_eq!(s.index, i);
        assert_eq!(s.sector_start, i);
        assert_eq!(s.sector_end, i + 1);
        assert_eq!(s.sectors_per_turn, 16);
    }
    assert_eq!(
        specs[3],
        SegmentSpec { index: 3, sector_start: 3, sector_end: 4, sectors_per_turn: 16 }
    );
}

#[test]
fn layout_twice_is_identical() {
    assert_eq!(layout(8), layout(8));
    assert_eq!(layout(3), layout(3));
    assert_eq!(layout(1).len(), 1);
}

#[test]
fn press_from_idle_asks_for_probe_and_segments() {
    let mut menu: ClickwheelMenu<Point> = ClickwheelMenu::new(8);
    assert_eq!(menu.state(), MenuState::Idle);
    let requests = menu.press();
    assert_eq!(menu.state(), MenuState::Arming);
    assert_eq!(requests.len(), 9);
    assert_eq!(requests[0], SpawnRequest::Probe);
    let specs = layout(8);
    for k in 0..8 {
        assert_eq!(requests[k + 1], SpawnRequest::Segment(specs[k]));
    }
    assert_eq!(menu.segment_specs(), &specs);
    assert!(menu.live_handles().is_empty());
}

#[test]
fn press_while_armed_is_ignored() {
    let mut menu = active_menu();
    assert!(menu.press().is_empty());
    assert_eq!(menu.state(), MenuState::Active);
    assert_eq!(menu.live_handles().len(), 9);
}

#[test]
fn complete_spawn_activates_menu() {
    let menu = active_menu();
    let mut expected = vec![PROBE];
    for k in 0..8u64 {
        expected.push(200 + k);
    }
    assert_eq!(menu.live_handles(), expected);
    assert_eq!(menu.hot_segment(), None);
    assert_eq!(menu.segment_count(), 8);
}

#[test]
fn failed_spawn_rolls_back_to_idle() {
    let mut menu: ClickwheelMenu<Point> = ClickwheelMenu::new(8);
    menu.press();
    let mut spawned = spawned_all(8);
    spawned[4] = None;
    let discarded = menu.complete_arm(spawned);
    assert_eq!(discarded, vec![100, 200, 201, 202, 204, 205, 206, 207]);
    assert_eq!(menu.state(), MenuState::Idle);
    assert!(menu.live_handles().is_empty());
}

#[test]
fn short_spawn_rolls_back_to_idle() {
    let mut menu: ClickwheelMenu<Point> = ClickwheelMenu::new(8);
    menu.press();
    let discarded = menu.complete_arm(vec![Some(1), Some(2), Some(3)]);
    assert_eq!(discarded, vec![1, 2, 3]);
    assert_eq!(menu.state(), MenuState::Idle);
}

#[test]
fn spawn_results_outside_arming_are_discarded() {
    let mut menu: ClickwheelMenu<Point> = ClickwheelMenu::new(8);
    let discarded = menu.complete_arm(spawned_all(8));
    assert_eq!(discarded.len(), 9);
    assert_eq!(menu.state(), MenuState::Idle);
    assert!(menu.live_handles().is_empty());
}

#[test]
fn release_during_arming_discards_late_spawns() {
    let mut menu: ClickwheelMenu<Point> = ClickwheelMenu::new(8);
    menu.press();
    assert!(menu.release().is_empty());
    assert_eq!(menu.state(), MenuState::Idle);
    assert_eq!(menu.complete_arm(spawned_all(8)).len(), 9);
    assert_eq!(menu.state(), MenuState::Idle);
}

#[test]
fn disarm_twice_is_idempotent() {
    let mut menu = active_menu();
    let first = menu.release();
    assert_eq!(first.len(), 9);
    assert_eq!(menu.state(), MenuState::Idle);
    assert!(menu.live_handles().is_empty());
    let second = menu.release();
    assert!(second.is_empty());
    assert_eq!(menu.state(), MenuState::Idle);
    assert!(menu.live_handles().is_empty());
}

#[test]
fn disarm_when_idle_does_nothing() {
    let mut menu: ClickwheelMenu<Point> = ClickwheelMenu::new(8);
    menu.set_viewport_size((800.0, 600.0));
    assert!(menu.release().is_empty());
    assert_eq!(menu.state(), MenuState::Idle);
    assert_eq!(menu.pointer().viewport_size, Some((800.0, 600.0)));
}

#[test]
fn spawn_and_despawn_balance() {
    let mut menu: ClickwheelMenu<Point> = ClickwheelMenu::new(8);
    for session in 0..3u64 {
        let requests = menu.press();
        let segments = requests
            .iter()
            .filter(|r| matches!(r, SpawnRequest::Segment(_)))
            .count();
        assert_eq!(segments, 8);
        let spawned: Vec<Option<u64>> = (0..9u64).map(|k| Some(session * 100 + k)).collect();
        assert!(menu.complete_arm(spawned).is_empty());
        assert_eq!(menu.live_handles().len(), 9);
        let destroyed = menu.release();
        assert_eq!(destroyed.len(), 9);
        assert_eq!(destroyed[0], session * 100);
        assert!(menu.live_handles().is_empty());
    }
}

#[test]
fn hot_segment_follows_collisions() {
    let mut menu = active_menu();
    menu.handle_collision(CollisionEvent::Started(PROBE, 202));
    assert_eq!(menu.hot_segment(), Some(2));
    menu.handle_collision(CollisionEvent::Started(205, PROBE));
    assert_eq!(menu.hot_segment(), Some(5));
    menu.handle_collision(CollisionEvent::Stopped(PROBE, 202));
    assert_eq!(menu.hot_segment(), Some(5));
    menu.handle_collision(CollisionEvent::Stopped(205, PROBE));
    assert_eq!(menu.hot_segment(), None);
}

#[test]
fn collisions_without_probe_are_ignored() {
    let mut menu = active_menu();
    menu.handle_collision(CollisionEvent::Started(201, 202));
    assert_eq!(menu.hot_segment(), None);
    menu.handle_collision(CollisionEvent::Started(PROBE, 999));
    assert_eq!(menu.hot_segment(), None);
    menu.handle_collision(CollisionEvent::Started(PROBE, 207));
    menu.handle_collision(CollisionEvent::Stopped(PROBE, 999));
    menu.handle_collision(CollisionEvent::Stopped(203, 207));
    assert_eq!(menu.hot_segment(), Some(7));
}

#[test]
fn at_most_one_hot_segment_after_any_events() {
    let mut menu = active_menu();
    let handles = [PROBE, 200, 201, 202, 203, 204, 205, 206, 207, 999];
    let mut events = Vec::new();
    for (k, a) in handles.iter().enumerate() {
        for b in handles.iter() {
            if (k + *b as usize) % 3 == 0 {
                events.push(CollisionEvent::Stopped(*a, *b));
            } else {
                events.push(CollisionEvent::Started(*b, *a));
            }
        }
    }
    for chunk in events.chunks(7) {
        menu.handle_collisions(chunk);
        if let Some(i) = menu.hot_segment() {
            assert!(i < 8);
        }
    }
}

#[test]
fn collisions_while_idle_are_ignored() {
    let mut menu: ClickwheelMenu<Point> = ClickwheelMenu::new(8);
    menu.handle_collisions(&[CollisionEvent::Started(PROBE, 203)]);
    assert_eq!(menu.hot_segment(), None);
}

#[test]
fn hover_clears_on_disarm() {
    let mut menu = active_menu();
    menu.handle_collision(CollisionEvent::Started(PROBE, 203));
    assert_eq!(menu.hot_segment(), Some(3));
    menu.release();
    assert_eq!(menu.hot_segment(), None);
    assert_eq!(menu.state(), MenuState::Idle);
}

#[test]
fn pointer_keeps_first_and_last_sample() {
    let mut menu = active_menu();
    menu.track_pointer(&[(1.0, 2.0), (3.0, 4.0)]);
    menu.track_pointer(&[(5.0, 6.0)]);
    assert_eq!(menu.pointer().initial_position, Some((1.0, 2.0)));
    assert_eq!(menu.pointer().current_position, Some((5.0, 6.0)));
    menu.release();
    assert_eq!(menu.pointer().initial_position, None);
    assert_eq!(menu.pointer().current_position, None);
}

#[test]
fn pointer_is_not_tracked_while_idle() {
    let mut menu: ClickwheelMenu<Point> = ClickwheelMenu::new(8);
    menu.track_pointer(&[(1.0, 2.0)]);
    assert_eq!(menu.pointer().initial_position, None);
    assert_eq!(menu.pointer().current_position, None);
}

#[test]
fn probe_positioning_is_deferred() {
    let mut menu = active_menu();
    menu.track_pointer(&[]);
    assert!(menu.probe_target().is_none());
    menu.set_viewport_size((800.0, 600.0));
    assert!(menu.probe_target().is_none());
    menu.track_pointer(&[(500.0, 100.0)]);
    let target = menu.probe_target().unwrap();
    assert_eq!(target.handle, PROBE);
    assert_eq!(target.placement.position, (500.0, 100.0));
    assert_eq!(target.placement.viewport_size, (800.0, 600.0));
}

#[test]
fn probe_is_not_placed_while_idle() {
    let mut menu: ClickwheelMenu<Point> = ClickwheelMenu::new(8);
    menu.set_viewport_size((800.0, 600.0));
    menu.track_pointer(&[(500.0, 100.0)]);
    assert!(menu.probe_target().is_none());
}
