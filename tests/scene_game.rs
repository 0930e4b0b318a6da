use shape_clicker::game::Game;
use shape_clicker::game_state::{GameState, ROUND_TIME_US};
use shape_clicker::point::{Point, ONE};
use shape_clicker::rand::RandomGenerator;
use shape_clicker::render::TransformInfo;
use shape_clicker::scene::{get_transforms, Scene, State, DROP_TIME_US};
use shape_clicker::shape::Shape;

fn slots(n: i32) -> Vec<TransformInfo> {
    (0..n).map(|k| TransformInfo(k * ONE / 8, 0)).collect()
}

fn is_permutation(s: &[usize]) -> bool {
    let mut seen = vec![false; s.len()];
    for &v in s {
        if v >= s.len() || seen[v] {
            return false;
        }
        seen[v] = true;
    }
    true
}

#[test]
fn grid_of_slots_is_column_by_column() {
    let t = get_transforms(4 * ONE, 0, 0, 4 * ONE, 2, 2);
    assert_eq!(
        t,
        vec![TransformInfo(ONE, ONE), TransformInfo(ONE, 3 * ONE), TransformInfo(3 * ONE, ONE), TransformInfo(3 * ONE, 3 * ONE)]
    );
    let t = get_transforms(65536, -65536, -65536, 65536, 1, 3);
    assert_eq!(t, vec![TransformInfo(0, -43691), TransformInfo(0, 0), TransformInfo(0, 43691)]);
    assert!(get_transforms(ONE, 0, 0, ONE, 0, 3).is_empty());
}

#[test]
fn grid_slots_round_to_nearest_fixed_point() {
    // top 0.8, bottom -1, left -1, right 1: rows at -0.7, -0.1 and 0.5
    let t = get_transforms(52429, -ONE, -ONE, ONE, 1, 3);
    let expected = [-0.7f64, -0.1, 0.5];
    for (slot, want) in t.iter().zip(expected.iter()) {
        assert_eq!(slot.0, 0);
        assert!((slot.1 as f64 - want * ONE as f64).abs() <= 1.0);
    }
    assert_eq!(t[0].1, -45875);
    assert_eq!(t[2].1, 32768);
}

#[test]
fn grid_with_reversed_bounds_counts_from_the_first() {
    let t = get_transforms(0, 4 * ONE, 4 * ONE, 0, 2, 1);
    assert_eq!(t, vec![TransformInfo(3 * ONE, 2 * ONE), TransformInfo(ONE, 2 * ONE)]);
}

#[test]
fn new_scene_has_identity_slots() {
    let s = Scene::new(slots(5), RandomGenerator::from_seed(3));
    assert_eq!(s.transform_indices(), &[0, 1, 2, 3, 4]);
    assert_eq!(s.state(), State::Initial);
    assert_eq!(s.time(), 0);
    assert_eq!(s.dynamic_count(), 0);
    assert_eq!(s.static_count(), 0);
}

#[test]
fn shuffle_keeps_a_permutation() {
    for seed in 1..50u64 {
        let mut s = Scene::new(slots(6), RandomGenerator::from_seed(seed));
        s.add_dynamic_shape(&Shape::square(1));
        s.add_dynamic_shape(&Shape::square(3));
        s.add_dynamic_shape(&Shape::square(3));
        for _ in 0..20 {
            s.permutate_transforms();
            assert!(is_permutation(s.transform_indices()));
        }
    }
}

#[test]
fn shuffle_follows_the_generator() {
    let mut s = Scene::new(slots(3), RandomGenerator::from_seed(1));
    s.add_dynamic_shape(&Shape::square(1));
    s.permutate_transforms();
    // first draw: 270369 % 3 == 0, so slot 0 stays in place
    assert_eq!(s.transform_indices(), &[0, 1, 2]);
    s.permutate_transforms();
    // second draw: 68787111425 % 3 == 2
    assert_eq!(s.transform_indices(), &[2, 1, 0]);
    assert_eq!(s.dynamic_transform(0), TransformInfo(2 * ONE / 8, 0));
}

#[test]
fn drop_time_reaches_done_and_clamps() {
    let mut s = Scene::new(slots(3), RandomGenerator::from_seed(1));
    s.advance_time(DROP_TIME_US / 2);
    assert_eq!(s.state(), State::Initial);
    assert_eq!(s.time(), DROP_TIME_US / 2);
    s.advance_time(DROP_TIME_US / 2 - 1);
    assert_eq!(s.state(), State::Initial);
    s.advance_time(5);
    assert_eq!(s.state(), State::Done);
    assert_eq!(s.time(), DROP_TIME_US);
    s.reset();
    assert_eq!(s.state(), State::Initial);
    assert_eq!(s.time(), 0);
}

#[test]
fn readback_of_translation_moves_shape() {
    let mut s = Scene::new(slots(3), RandomGenerator::from_seed(1));
    s.add_dynamic_shape(&Shape::square(1));
    s.add_static_shape(&Shape::square(2));
    let (dx, dy) = (ONE / 2, -ONE / 4);
    let mut data = Vec::new();
    for &i in &[0usize, 1, 2, 2, 3, 0] {
        let p = Shape::square(1).vertices[i];
        data.push(p.x + dx);
        data.push(p.y + dy);
    }
    s.apply_readback(0, &data);
    let moved: Vec<Point> = Shape::square(1).vertices.iter().map(|p| Point::new(p.x + dx, p.y + dy)).collect();
    assert_eq!(s.dynamic_vertices(0), moved.as_slice());
    assert_eq!(s.feedback_render().read_vertices(0), data.as_slice());
    assert!(s.is_dynamic_hit(0, Point::new(ONE + ONE / 4, 0)));
    assert!(!s.is_dynamic_hit(0, Point::new(-ONE + ONE / 4, 0)));
    assert_eq!(s.dynamic_texture(0), 1);
    assert_eq!(s.static_texture(0), 2);
    assert_eq!(s.indices_render().shape_count(), 1);
}

#[test]
fn timer_counts_down_and_clamps_at_zero() {
    let mut g = GameState::new();
    assert_eq!(g.time(), ROUND_TIME_US);
    assert!(!g.tick_timer(400_000));
    assert_eq!(g.time(), 600_000);
    assert!(g.tick_timer(600_000));
    assert_eq!(g.time(), 0);
    assert!(g.tick_timer(1));
    g.start_timer();
    assert_eq!(g.time(), ROUND_TIME_US);
    g.add_score();
    g.add_score();
    assert_eq!(g.score(), 2);
    let d = GameState::default();
    assert_eq!(d.score(), 0);
    assert_eq!(d.time(), ROUND_TIME_US);
}

fn settle(g: &mut Game) {
    g.finish_frame(DROP_TIME_US - 1);
    g.finish_frame(1);
}

fn new_game() -> Game {
    Game::new(get_transforms(ONE, -ONE, -ONE, ONE, 1, 3), RandomGenerator::from_seed(11))
}

#[test]
fn new_game_places_target_and_decoys() {
    let g = new_game();
    assert_eq!(g.score(), 0);
    assert_eq!(g.scene().dynamic_count(), 3);
    assert_eq!(g.scene().static_count(), 1);
    assert_eq!(g.scene().dynamic_texture(0), 1);
    assert_eq!(g.scene().dynamic_texture(1), 3);
    assert_eq!(g.scene().dynamic_texture(2), 3);
    assert_eq!(g.scene().static_texture(0), 2);
    assert_eq!(g.scene().state(), State::Initial);
    for i in 0..3 {
        assert_eq!(g.scene().dynamic_vertices(i), Shape::square(0).vertices.as_slice());
    }
    assert_eq!(g.scene().indices_render().index_data(), &[0, 1, 2, 2, 3, 0]);
    assert_eq!(g.scene().transform_indices(), &[0, 1, 2]);
}

#[test]
fn click_while_settling_is_ignored() {
    let mut g = new_game();
    g.store_input(Point::new(0, 0));
    assert!(!g.handle_input());
    assert_eq!(g.score(), 0);
    assert_eq!(g.scene().state(), State::Initial);
    // the click was consumed
    settle(&mut g);
    assert!(!g.handle_input());
    assert_eq!(g.score(), 0);
}

#[test]
fn qualifying_hit_scores_and_resets() {
    let mut g = new_game();
    assert!(!g.finish_frame(DROP_TIME_US - 1));
    assert!(!g.finish_frame(1));
    assert_eq!(g.scene().state(), State::Done);
    g.store_input(Point::new(0, 0));
    assert!(g.handle_input());
    assert_eq!(g.score(), 1);
    assert_eq!(g.scene().state(), State::Initial);
    assert_eq!(g.scene().time(), 0);
    assert_eq!(g.time(), ROUND_TIME_US);
}

#[test]
fn miss_while_done_changes_nothing() {
    let mut g = new_game();
    settle(&mut g);
    let before: Vec<usize> = g.scene().transform_indices().to_vec();
    g.store_input(Point::new(3 * ONE, 3 * ONE));
    assert!(!g.handle_input());
    assert_eq!(g.score(), 0);
    assert_eq!(g.scene().state(), State::Done);
    assert_eq!(g.scene().transform_indices(), before.as_slice());
}

#[test]
fn only_latest_click_is_evaluated() {
    let mut g = new_game();
    settle(&mut g);
    // A and B hit the target, C misses: C alone is evaluated
    g.store_input(Point::new(0, 0));
    g.store_input(Point::new(ONE / 2, ONE / 2));
    g.store_input(Point::new(5 * ONE, 0));
    assert!(!g.handle_input());
    assert_eq!(g.score(), 0);
    // A and B were discarded with it
    assert!(!g.handle_input());
    assert_eq!(g.score(), 0);
    // A and B miss, C hits
    g.store_input(Point::new(5 * ONE, 0));
    g.store_input(Point::new(-5 * ONE, 0));
    g.store_input(Point::new(0, 0));
    assert!(g.handle_input());
    assert_eq!(g.score(), 1);
}

#[test]
fn round_runs_out_without_a_point() {
    let mut g = new_game();
    assert!(!g.finish_frame(DROP_TIME_US - 1));
    assert_eq!(g.time(), ROUND_TIME_US);
    // settling completes and the timer starts counting in the same frame
    assert!(!g.finish_frame(400_001));
    assert_eq!(g.scene().state(), State::Done);
    assert_eq!(g.time(), ROUND_TIME_US - 400_001);
    assert!(g.finish_frame(ROUND_TIME_US));
    assert_eq!(g.scene().state(), State::Initial);
    assert_eq!(g.time(), ROUND_TIME_US);
    assert_eq!(g.score(), 0);
}

#[test]
fn readback_through_game_updates_target() {
    let mut g = new_game();
    let data: Vec<i32> = vec![0; 12];
    g.apply_readback(0, &data);
    assert!(g.scene().dynamic_vertices(0).iter().all(|p| *p == Point::new(0, 0)));
    settle(&mut g);
    g.store_input(Point::new(0, 0));
    assert!(!g.handle_input());
}
