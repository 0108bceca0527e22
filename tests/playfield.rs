use rhythm_game::field::{HIT_Y, MISS_Y, SPAWN_Y};
use rhythm_game::{Column, Playfield, Target};

fn ys(p: &Playfield) -> Vec<i64> {
    p.targets.iter().map(|t| t.y).collect()
}

#[test]
fn spawned_notes_get_fresh_ids_at_the_top() {
    let mut p = Playfield::new();
    let a = p.spawn(Column::Red);
    let b = p.spawn(Column::Green);
    assert_eq!(a, Target { id: 0, column: Column::Red, y: SPAWN_Y });
    assert_eq!(b, Target { id: 1, column: Column::Green, y: SPAWN_Y });
    assert_eq!(p.targets, vec![a, b]);
    assert_eq!(p.next_id, 2);
    let c = p.spawn_random();
    assert_eq!(c.id, 2);
    assert_eq!(c.y, SPAWN_Y);
    assert_eq!(p.targets.len(), 3);
}

#[test]
fn notes_fall_150_pixels_a_second() {
    let mut p = Playfield::new();
    p.spawn(Column::Blue);
    let missed = p.advance(1_000_000);
    assert!(missed.is_empty());
    assert_eq!(ys(&p), vec![250_000_000]);
    p.advance(16_667);
    assert_eq!(ys(&p), vec![250_000_000 - 150 * 16_667]);
    assert_eq!(p.scoreboard.score, 0);
}

#[test]
fn notes_below_the_miss_line_are_missed_on_the_next_frame() {
    let mut p = Playfield::new();
    p.spawn(Column::Yellow);
    p.scoreboard.hit();
    // 400 px down to -351 px takes 751 px / 150 px a second.
    let missed = p.advance(5_006_667);
    assert!(missed.is_empty());
    assert!(p.targets[0].y < MISS_Y);
    assert_eq!(p.scoreboard.combo, 1);
    let missed = p.advance(10);
    assert_eq!(missed.len(), 1);
    assert_eq!(missed[0].id, 0);
    assert!(p.targets.is_empty());
    assert_eq!(p.scoreboard.combo, 0);
    assert_eq!(p.scoreboard.score, 0);
}

#[test]
fn a_note_exactly_on_the_miss_line_still_falls() {
    let mut p = Playfield::new();
    p.spawn(Column::Yellow);
    p.targets[0].y = MISS_Y;
    let missed = p.advance(0);
    assert!(missed.is_empty());
    assert_eq!(ys(&p), vec![MISS_Y]);
}

#[test]
fn shooting_hits_only_notes_of_the_lane_in_the_band() {
    let mut p = Playfield::new();
    p.spawn(Column::Red);
    p.spawn(Column::Red);
    p.spawn(Column::Blue);
    p.spawn(Column::Red);
    p.targets[0].y = HIT_Y;
    p.targets[1].y = HIT_Y + 1;
    p.targets[2].y = HIT_Y - 5;
    p.targets[3].y = MISS_Y - 10;
    let hit = p.shoot(Column::Red);
    assert_eq!(hit.iter().map(|t| t.id).collect::<Vec<u64>>(), vec![0, 3]);
    assert_eq!(p.targets.iter().map(|t| t.id).collect::<Vec<u64>>(), vec![1, 2]);
    assert_eq!(p.scoreboard.combo, 2);
    assert_eq!(p.scoreboard.score, 3);
}

#[test]
fn shooting_an_empty_lane_changes_nothing() {
    let mut p = Playfield::new();
    p.spawn(Column::Green);
    p.scoreboard.hit();
    let hit = p.shoot(Column::Yellow);
    assert!(hit.is_empty());
    assert_eq!(p.targets.len(), 1);
    assert_eq!(p.scoreboard.combo, 1);
    assert_eq!(p.scoreboard.score, 1);
}

#[test]
fn many_hits_at_once_keep_the_combo_capped() {
    let mut p = Playfield::new();
    for _ in 0..7 {
        p.spawn(Column::Blue);
    }
    for t in p.targets.iter_mut() {
        t.y = HIT_Y;
    }
    let hit = p.shoot(Column::Blue);
    assert_eq!(hit.len(), 7);
    assert_eq!(p.scoreboard.combo, 5);
    assert_eq!(p.scoreboard.score, 25);
}

#[test]
fn room_checks() {
    let mut p = Playfield::new();
    assert!(p.can_spawn());
    assert!(p.has_score_room());
    p.spawn(Column::Red);
    p.scoreboard.score = i32::MAX - 4;
    assert!(!p.has_score_room());
    p.scoreboard.score = i32::MAX - 5;
    assert!(p.has_score_room());
    p.scoreboard.score = i32::MIN;
    assert!(!p.has_score_room());
    p.next_id = u64::MAX;
    assert!(!p.can_spawn());
}

#[test]
fn clearing_keeps_score_and_ids() {
    let mut p = Playfield::new();
    p.spawn(Column::Red);
    p.spawn(Column::Blue);
    p.scoreboard.hit();
    p.clear_notes();
    assert!(p.targets.is_empty());
    assert_eq!(p.scoreboard.score, 1);
    assert_eq!(p.spawn(Column::Red).id, 2);
}
