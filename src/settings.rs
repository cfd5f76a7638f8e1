use vstd::prelude::*;

verus! {

/// Tunable constants of one game session.
///
/// Speeds are in micro-pixels per millisecond, rates of change per millisecond,
/// intervals in milliseconds, and entity sizes in whole pixels.
#[derive(Clone, Copy, Debug)]
pub struct GameSettings {
    /// Highest speed the player is meant to reach (0.03 px/ms).
    pub max_velocity: i64,
    /// How much the player shrinks each millisecond, in micro-pixels.
    pub deterioration_rate: i64,
    /// How much each edible loses each millisecond, in micro-pixels.
    pub edible_deterioration_rate: i64,
    /// Change of the player's speed per millisecond while a direction is held.
    pub acceleration_rate: i64,
    /// Milliseconds between two edibles.
    pub edibles_spawn_rate: i64,
    /// Smallest and largest side of a new edible, in pixels (upper bound excluded).
    pub edible_bounds: (u8, u8),
    /// Milliseconds between two spikes.
    pub spikes_spawn_rate: i64,
    /// Smallest and largest side of a new spike, in pixels (upper bound excluded).
    pub spikes_bounds: (u32, u32),
}

/// Largest rate or interval that settings may hold.
pub const MAX_RATE: i64 = 1_000_000_000;

impl GameSettings {
    /// Rates are non-negative and bounded, intervals positive, size bounds non-empty.
    pub open spec fn wf(&self) -> bool {
        &&& 0 <= self.deterioration_rate <= MAX_RATE
        &&& 0 <= self.edible_deterioration_rate <= MAX_RATE
        &&& 0 <= self.acceleration_rate <= MAX_RATE
        &&& 0 < self.edibles_spawn_rate <= MAX_RATE
        &&& 0 < self.spikes_spawn_rate <= MAX_RATE
        &&& self.edible_bounds.0 < self.edible_bounds.1
        &&& self.spikes_bounds.0 < self.spikes_bounds.1 <= 1_000_000
    }

    /// The default settings: shrink 0.75 px/s, edibles lose 2 px/s, accelerate
    /// 100 px/s², an edible every 3 s of 15 to 25 px, a spike every 10 s of 15 to 55 px.
    pub fn new() -> (r: GameSettings)
        ensures
            r.wf(),
            r.max_velocity == 30_000,
            r.deterioration_rate == 750,
            r.edible_deterioration_rate == 2000,
            r.acceleration_rate == 100,
            r.edibles_spawn_rate == 3000,
            r.edible_bounds == (15u8, 25u8),
            r.spikes_spawn_rate == 10_000,
            r.spikes_bounds == (15u32, 55u32),
    {
        GameSettings {
            max_velocity: 30_000,
            deterioration_rate: 750,
            edible_deterioration_rate: 2000,
            acceleration_rate: 100,
            edibles_spawn_rate: 3000,
            edible_bounds: (15, 25),
            spikes_spawn_rate: 10_000,
            spikes_bounds: (15, 55),
        }
    }
}

} // verus!
