use musicbot::queue::{
    clear_upcoming, plan_remove, plan_swap, remove_at, remove_targets_playing_track, swap_at,
    swap_targets_playing_track, RemoveRefusal, SwapRefusal,
    TRACKS_SWAPPED, TRACK_REMOVED,
};
use std::collections::VecDeque;

fn deque(items: &[u32]) -> VecDeque<u32> {
    items.iter().copied().collect()
}

#[test]
fn remove_refuses_playing_track() {
    assert_eq!(plan_remove(0, 5), Err(RemoveRefusal::PlayingTrack));
    assert_eq!(plan_remove(1, 5), Err(RemoveRefusal::PlayingTrack));
    assert_eq!(plan_remove(1, 0), Err(RemoveRefusal::PlayingTrack));
}

#[test]
fn remove_refuses_out_of_reach() {
    assert_eq!(plan_remove(6, 5), Err(RemoveRefusal::OutOfReach));
    assert_eq!(plan_remove(2, 1), Err(RemoveRefusal::OutOfReach));
}

#[test]
fn remove_takes_position_minus_one() {
    assert_eq!(plan_remove(2, 5), Ok(1));
    assert_eq!(plan_remove(5, 5), Ok(4));
}

#[test]
fn remove_messages() {
    assert_eq!(RemoveRefusal::PlayingTrack.message(), "Can't remove the currently playing track");
    assert_eq!(RemoveRefusal::OutOfReach.message(), "Queue values out of reach");
    assert_eq!(TRACK_REMOVED, ":cd: Track removed ✘");
}

#[test]
fn remove_at_drops_one_track() {
    let mut q = deque(&[10, 20, 30, 40]);
    remove_at(&mut q, 2);
    assert_eq!(q, deque(&[10, 20, 40]));
    remove_at(&mut q, 7);
    assert_eq!(q, deque(&[10, 20, 40]));
}

#[test]
fn remove_command_keeps_playing_track() {
    let mut q = deque(&[10, 20, 30]);
    let index = plan_remove(3, q.len()).unwrap();
    remove_at(&mut q, index);
    assert_eq!(q, deque(&[10, 20]));
}

#[test]
fn swap_refusals() {
    assert_eq!(plan_swap(1, 3, 5), Err(SwapRefusal::PlayingTrack));
    assert_eq!(plan_swap(3, 0, 5), Err(SwapRefusal::PlayingTrack));
    assert_eq!(plan_swap(2, 6, 5), Err(SwapRefusal::OutOfReach));
    assert_eq!(plan_swap(7, 2, 5), Err(SwapRefusal::OutOfReach));
    assert_eq!(SwapRefusal::PlayingTrack.message(), "Can't swap the currently playing track");
    assert_eq!(SwapRefusal::OutOfReach.message(), "Queue values out of reach");
    assert_eq!(TRACKS_SWAPPED, ":cd: Tracks swapped");
}

#[test]
fn swap_exchanges_positions() {
    let mut q = deque(&[10, 20, 30, 40]);
    let (i, j) = plan_swap(2, 4, q.len()).unwrap();
    assert_eq!((i, j), (1, 3));
    swap_at(&mut q, i, j);
    assert_eq!(q, deque(&[10, 40, 30, 20]));
}

#[test]
fn swap_twice_restores() {
    let mut q = deque(&[1, 2, 3, 4, 5]);
    swap_at(&mut q, 1, 4);
    swap_at(&mut q, 1, 4);
    assert_eq!(q, deque(&[1, 2, 3, 4, 5]));
    swap_at(&mut q, 2, 2);
    assert_eq!(q, deque(&[1, 2, 3, 4, 5]));
}

#[test]
fn clear_keeps_playing_track() {
    let mut q = deque(&[7, 8, 9]);
    clear_upcoming(&mut q);
    assert_eq!(q, deque(&[7]));
    let mut one = deque(&[7]);
    clear_upcoming(&mut one);
    assert_eq!(one, deque(&[7]));
    let mut none = deque(&[]);
    clear_upcoming(&mut none);
    assert!(none.is_empty());
}

#[test]
fn playing_track_refused_first() {
    assert!(remove_targets_playing_track(0));
    assert!(remove_targets_playing_track(1));
    assert!(!remove_targets_playing_track(2));
    assert!(swap_targets_playing_track(1, 5));
    assert!(swap_targets_playing_track(5, 0));
    assert!(!swap_targets_playing_track(2, 3));
}
