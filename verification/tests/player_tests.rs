use musicbot::player::{build_player, BAR_BALL, BAR_LINE};

fn bar_with_ball_at(cell: Option<usize>) -> String {
    (0..20).map(|n| if Some(n) == cell { BAR_BALL } else { BAR_LINE }).collect()
}

#[test]
fn bar_at_start_has_ball_first() {
    assert_eq!(build_player(0, 200_000), bar_with_ball_at(Some(0)));
}

#[test]
fn bar_in_the_middle() {
    assert_eq!(build_player(100_000, 200_000), bar_with_ball_at(Some(10)));
    assert_eq!(build_player(109_999, 200_000), bar_with_ball_at(Some(10)));
    assert_eq!(build_player(110_000, 200_000), bar_with_ball_at(Some(11)));
}

#[test]
fn bar_at_the_end_has_no_ball() {
    assert_eq!(build_player(200_000, 200_000), bar_with_ball_at(None));
}

#[test]
fn bar_with_uneven_cells() {
    // a twentieth of 39 ms is 1 ms: the ball leaves the bar at 20 ms
    assert_eq!(build_player(19, 39), bar_with_ball_at(Some(19)));
    assert_eq!(build_player(20, 39), bar_with_ball_at(None));
}

#[test]
fn bar_always_has_twenty_cells() {
    for pos in [0u128, 1, 5_000, 60_000, 999_999] {
        let bar = build_player(pos, 1_000_000);
        assert_eq!(bar.chars().count(), 20);
        assert!(bar.chars().filter(|c| *c == BAR_BALL).count() <= 1);
    }
}

#[test]
fn ball_moves_forward() {
    let mut last = 0;
    for pos in (0u128..200_000).step_by(2_500) {
        let bar: Vec<char> = build_player(pos, 200_000).chars().collect();
        let cell = bar.iter().position(|c| *c == BAR_BALL).unwrap();
        assert!(cell >= last);
        last = cell;
    }
}
