use vstd::prelude::*;

verus! {

/// Length of a scoring round, in microseconds.
pub const ROUND_TIME_US: u64 = 1_000_000;

/// Score and round timer. The timer counts down in microseconds and stays
/// within `[0, ROUND_TIME_US]`.
#[derive(Debug)]
pub struct GameState {
    score: u64,
    timer: u64,
}

impl GameState {
    pub closed spec fn score_view(&self) -> u64 {
        self.score
    }

    pub closed spec fn timer_view(&self) -> u64 {
        self.timer
    }

    pub open spec fn wf(&self) -> bool {
        self.timer_view() <= ROUND_TIME_US
    }

    /// No score, and a full round on the timer.
    pub fn new() -> (r: GameState)
        ensures
            r.wf(),
            r.score_view() == 0,
            r.timer_view() == ROUND_TIME_US,
    {
        GameState { score: 0, timer: ROUND_TIME_US }
    }

    /// One more point.
    pub fn add_score(&mut self)
        requires
            old(self).score_view() < u64::MAX,
        ensures
            final(self).score_view() == old(self).score_view() + 1,
            final(self).timer_view() == old(self).timer_view(),
    {
        self.score = self.score + 1;
    }

    pub fn score(&self) -> (r: u64)
        ensures
            r == self.score_view(),
    {
        self.score
    }

    /// Puts a full round back on the timer.
    pub fn start_timer(&mut self)
        ensures
            final(self).timer_view() == ROUND_TIME_US,
            final(self).score_view() == old(self).score_view(),
    {
        self.timer = ROUND_TIME_US;
    }

    /// Counts `dt` microseconds down, stopping at zero; true when the round
    /// has run out (the timer reached zero).
    pub fn tick_timer(&mut self, dt: u64) -> (r: bool)
        requires
            old(self).wf(),
        ensures
            final(self).wf(),
            r == (dt >= old(self).timer_view()),
            final(self).timer_view() == if r { 0 } else { old(self).timer_view() - dt },
            final(self).score_view() == old(self).score_view(),
    {
        if dt >= self.timer {
            self.timer = 0;
            true
        } else {
            self.timer = self.timer - dt;
            false
        }
    }

    /// Time left in the round, in microseconds.
    pub fn time(&self) -> (r: u64)
        ensures
            r == self.timer_view(),
    {
        self.timer
    }
}

impl Default for GameState {
    fn default() -> (r: GameState)
        ensures
            r.wf(),
            r.score_view() == 0,
            r.timer_view() == ROUND_TIME_US,
    {
        GameState::new()
    }
}

} // verus!
