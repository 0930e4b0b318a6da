use vstd::prelude::*;
use crate::game_state::{GameState, ROUND_TIME_US};
use crate::point::Point;
use crate::rand::RandomGenerator;
use crate::render::TransformInfo;
use crate::scene::{Scene, State, is_permutation, shuffle};
use crate::shape::{Shape, polygon_contains, square_vertices};

verus! {

/// Texture of the shape that scores when hit.
pub const TARGET_TEXTURE: usize = 1;

/// Texture of the decoy shapes.
pub const DECOY_TEXTURE: usize = 3;

/// Texture of the background.
pub const BACKGROUND_TEXTURE: usize = 2;

/// The game: a scene, its score and round timer, and the clicks queued since
/// the last frame.
#[derive(Debug)]
pub struct Game {
    input_queue: Vec<Point>,
    state: GameState,
    scene: Scene,
}

/// Whether the click `p` scores in `scene`: the shapes have settled and `p`
/// lies inside the first interactive shape.
pub open spec fn is_qualifying_hit(scene: Scene, p: Point) -> bool {
    &&& scene.state_view() == State::Done
    &&& polygon_contains(scene.dynamic_view()[0].vertices@, p)
}

impl Game {
    pub closed spec fn queue_view(&self) -> Seq<Point> {
        self.input_queue@
    }

    pub closed spec fn state_view(&self) -> GameState {
        self.state
    }

    pub closed spec fn scene_view(&self) -> Scene {
        self.scene
    }

    /// The scene is well formed and has a first interactive shape, and the
    /// timer is within its bound.
    pub open spec fn wf(&self) -> bool {
        &&& self.scene_view().wf()
        &&& self.scene_view().dynamic_view().len() >= 1
        &&& self.state_view().wf()
    }

    /// A game over the given placement slots: the target and two decoys as
    /// interactive squares, one background square, no score.
    pub fn new(transforms: Vec<TransformInfo>, rng: RandomGenerator) -> (r: Game)
        requires
            transforms@.len() >= 3,
        ensures
            r.wf(),
            r.queue_view().len() == 0,
            r.state_view().score_view() == 0,
            r.state_view().timer_view() == ROUND_TIME_US,
            r.scene_view().state_view() == State::Initial,
            r.scene_view().time_view() == 0,
            r.scene_view().transforms_view() == transforms@,
            r.scene_view().dynamic_view().len() == 3,
            r.scene_view().static_view().len() == 1,
            r.scene_view().slots_view() == crate::scene::identity_slots(transforms@.len()),
            is_permutation(r.scene_view().slots_view(), r.scene_view().transforms_view().len()),
            forall|i: int|
                0 <= i < 3 ==> (#[trigger] r.scene_view().dynamic_view()[i]).vertices@ == square_vertices()
                    && r.scene_view().dynamic_view()[i].indices@ == seq![0u32, 1, 2, 2, 3, 0],
            r.scene_view().dynamic_view()[0].texture_id == TARGET_TEXTURE,
            r.scene_view().dynamic_view()[1].texture_id == DECOY_TEXTURE,
            r.scene_view().dynamic_view()[2].texture_id == DECOY_TEXTURE,
            r.scene_view().static_view()[0].vertices@ == square_vertices(),
            r.scene_view().static_view()[0].indices@ == seq![0u32, 1, 2, 2, 3, 0],
            r.scene_view().static_view()[0].texture_id == BACKGROUND_TEXTURE,
    {
        let mut scene = Scene::new(transforms, rng);
        scene.add_dynamic_shape(&Shape::square(TARGET_TEXTURE));
        scene.add_dynamic_shape(&Shape::square(DECOY_TEXTURE));
        scene.add_dynamic_shape(&Shape::square(DECOY_TEXTURE));
        scene.add_static_shape(&Shape::square(BACKGROUND_TEXTURE));
        proof {
            scene.lemma_invariant_facts();
        }
        Game { input_queue: Vec::new(), state: GameState::new(), scene }
    }

    /// Queues a click, given in normalized device space.
    pub fn store_input(&mut self, input: Point)
        ensures
            final(self).queue_view() == old(self).queue_view().push(input),
            final(self).state_view() == old(self).state_view(),
            final(self).scene_view() == old(self).scene_view(),
    {
        self.input_queue.push(input);
    }

    /// Takes the most recent queued click, discarding all older ones, and
    /// scores it if it is a qualifying hit: then the slots are reshuffled,
    /// the scene goes back to `Initial`, the round timer restarts and the
    /// score goes up by one. True when it scored.
    pub fn handle_input(&mut self) -> (r: bool)
        requires
            old(self).wf(),
            old(self).queue_view().len() > 0 && is_qualifying_hit(old(self).scene_view(), old(self).queue_view().last())
                ==> old(self).state_view().score_view() < u64::MAX,
        ensures
            final(self).wf(),
            final(self).queue_view().len() == 0,
            is_permutation(final(self).scene_view().slots_view(), final(self).scene_view().transforms_view().len()),
            r == (old(self).queue_view().len() > 0 && is_qualifying_hit(
                old(self).scene_view(),
                old(self).queue_view().last(),
            )),
            r ==> {
                &&& final(self).state_view().score_view() == old(self).state_view().score_view() + 1
                &&& final(self).state_view().timer_view() == ROUND_TIME_US
                &&& final(self).scene_view().state_view() == State::Initial
                &&& final(self).scene_view().time_view() == 0
                &&& (final(self).scene_view().slots_view(), final(self).scene_view().rng_state()) == shuffle(
                    old(self).scene_view().slots_view(),
                    old(self).scene_view().rng_state(),
                    old(self).scene_view().dynamic_view().len(),
                )
                &&& final(self).scene_view().dynamic_view() == old(self).scene_view().dynamic_view()
                &&& final(self).scene_view().static_view() == old(self).scene_view().static_view()
                &&& final(self).scene_view().transforms_view() == old(self).scene_view().transforms_view()
            },
            !r ==> final(self).state_view() == old(self).state_view() && final(self).scene_view()
                == old(self).scene_view(),
    {
        let n = self.input_queue.len();
        if n == 0 {
            proof {
                self.scene.lemma_invariant_facts();
            }
            return false;
        }
        let input = self.input_queue[n - 1];
        self.input_queue = Vec::new();
        let hit = self.scene.state() == State::Done && self.scene.is_dynamic_hit(0, input);
        if hit {
            self.on_hit();
        }
        proof {
            self.scene.lemma_invariant_facts();
        }
        hit
    }

    /// A scoring hit: new round, one more point.
    fn on_hit(&mut self)
        requires
            old(self).wf(),
            old(self).state_view().score_view() < u64::MAX,
        ensures
            final(self).wf(),
            final(self).queue_view() == old(self).queue_view(),
            final(self).state_view().score_view() == old(self).state_view().score_view() + 1,
            final(self).state_view().timer_view() == ROUND_TIME_US,
            final(self).scene_view().state_view() == State::Initial,
            final(self).scene_view().time_view() == 0,
            (final(self).scene_view().slots_view(), final(self).scene_view().rng_state()) == shuffle(
                old(self).scene_view().slots_view(),
                old(self).scene_view().rng_state(),
                old(self).scene_view().dynamic_view().len(),
            ),
            final(self).scene_view().dynamic_view() == old(self).scene_view().dynamic_view(),
            final(self).scene_view().static_view() == old(self).scene_view().static_view(),
            final(self).scene_view().transforms_view() == old(self).scene_view().transforms_view(),
    {
        self.update_scene();
        self.state.add_score();
    }

    /// New round: reshuffle the slots, put the scene back in `Initial` and
    /// restart the round timer.
    fn update_scene(&mut self)
        requires
            old(self).wf(),
        ensures
            final(self).wf(),
            final(self).queue_view() == old(self).queue_view(),
            final(self).state_view().score_view() == old(self).state_view().score_view(),
            final(self).state_view().timer_view() == ROUND_TIME_US,
            final(self).scene_view().state_view() == State::Initial,
            final(self).scene_view().time_view() == 0,
            (final(self).scene_view().slots_view(), final(self).scene_view().rng_state()) == shuffle(
                old(self).scene_view().slots_view(),
                old(self).scene_view().rng_state(),
                old(self).scene_view().dynamic_view().len(),
            ),
            final(self).scene_view().dynamic_view() == old(self).scene_view().dynamic_view(),
            final(self).scene_view().static_view() == old(self).scene_view().static_view(),
            final(self).scene_view().transforms_view() == old(self).scene_view().transforms_view(),
    {
        self.scene.permutate_transforms();
        self.scene.reset();
        self.state.start_timer();
    }

    /// End of a frame whose shapes have been drawn: `dt` microseconds of drop
    /// time pass; once the shapes have settled the round timer counts down too,
    /// and when it runs out a new round starts without a point. True when the
    /// round ran out.
    pub fn finish_frame(&mut self, dt: u64) -> (r: bool)
        requires
            old(self).wf(),
        ensures
            final(self).wf(),
            final(self).queue_view() == old(self).queue_view(),
            final(self).state_view().score_view() == old(self).state_view().score_view(),
            r == ((old(self).scene_view().state_view() == State::Done || old(self).scene_view().time_view() + dt
                >= crate::scene::DROP_TIME_US) && dt >= old(self).state_view().timer_view()),
            is_permutation(final(self).scene_view().slots_view(), final(self).scene_view().transforms_view().len()),
            final(self).scene_view().static_view() == old(self).scene_view().static_view(),
            final(self).scene_view().transforms_view() == old(self).scene_view().transforms_view(),
            r ==> {
                &&& final(self).scene_view().state_view() == State::Initial
                &&& final(self).scene_view().time_view() == 0
                &&& final(self).state_view().timer_view() == ROUND_TIME_US
                &&& (final(self).scene_view().slots_view(), final(self).scene_view().rng_state()) == shuffle(
                    old(self).scene_view().slots_view(),
                    old(self).scene_view().rng_state(),
                    old(self).scene_view().dynamic_view().len(),
                )
            },
            !r ==> {
                let settled = old(self).scene_view().time_view() + dt >= crate::scene::DROP_TIME_US;
                let done = old(self).scene_view().state_view() == State::Done || settled;
                &&& final(self).scene_view().slots_view() == old(self).scene_view().slots_view()
                &&& final(self).scene_view().state_view() == if done {
                    State::Done
                } else {
                    old(self).scene_view().state_view()
                }
                &&& final(self).scene_view().time_view() == if settled {
                    crate::scene::DROP_TIME_US as int
                } else {
                    old(self).scene_view().time_view() + dt
                }
                &&& final(self).state_view().timer_view() == if done {
                    old(self).state_view().timer_view() - dt
                } else {
                    old(self).state_view().timer_view() as int
                }
            },
            final(self).scene_view().dynamic_view() == old(self).scene_view().dynamic_view(),
    {
        self.scene.advance_time(dt);
        let mut expired = false;
        if self.scene.state() == State::Done {
            if self.state.tick_timer(dt) {
                self.update_scene();
                expired = true;
            }
        }
        proof {
            self.scene.lemma_invariant_facts();
        }
        expired
    }

    /// Stores the GPU's output for interactive shape `idx` into its vertices
    /// (see `Scene::apply_readback`).
    pub fn apply_readback(&mut self, idx: usize, data: &[i32])
        requires
            old(self).wf(),
            idx < old(self).scene_view().dynamic_view().len(),
            data@.len() == 2 * old(self).scene_view().dynamic_view()[idx as int].indices@.len(),
        ensures
            final(self).wf(),
            final(self).queue_view() == old(self).queue_view(),
            final(self).state_view() == old(self).state_view(),
            final(self).scene_view().dynamic_view()[idx as int].vertices@ == crate::shape::apply_readback(
                old(self).scene_view().dynamic_view()[idx as int].vertices@,
                old(self).scene_view().dynamic_view()[idx as int].indices@,
                data@,
                old(self).scene_view().dynamic_view()[idx as int].indices@.len(),
            ),
            final(self).scene_view().dynamic_view().len() == old(self).scene_view().dynamic_view().len(),
            final(self).scene_view().dynamic_view()[idx as int].indices@
                == old(self).scene_view().dynamic_view()[idx as int].indices@,
            final(self).scene_view().dynamic_view()[idx as int].texture_id
                == old(self).scene_view().dynamic_view()[idx as int].texture_id,
            forall|i: int|
                0 <= i < old(self).scene_view().dynamic_view().len() && i != idx
                    ==> #[trigger] final(self).scene_view().dynamic_view()[i] == old(self).scene_view().dynamic_view()[i],
            final(self).scene_view().static_view() == old(self).scene_view().static_view(),
            final(self).scene_view().slots_view() == old(self).scene_view().slots_view(),
            final(self).scene_view().transforms_view() == old(self).scene_view().transforms_view(),
            final(self).scene_view().state_view() == old(self).scene_view().state_view(),
            final(self).scene_view().time_view() == old(self).scene_view().time_view(),
            final(self).scene_view().rng_state() == old(self).scene_view().rng_state(),
    {
        self.scene.apply_readback(idx, data);
    }

    pub fn scene(&self) -> (r: &Scene)
        ensures
            *r == self.scene_view(),
    {
        &self.scene
    }

    pub fn score(&self) -> (r: u64)
        ensures
            r == self.state_view().score_view(),
    {
        self.state.score()
    }

    /// Time left in the round, in microseconds.
    pub fn time(&self) -> (r: u64)
        ensures
            r == self.state_view().timer_view(),
    {
        self.state.time()
    }
}

} // verus!
