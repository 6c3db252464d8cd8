use vstd::prelude::*;

verus! {

/// Simulated time between two balls of the automatic spawner, in microseconds.
pub const SPAWN_INTERVAL_US: u64 = 500_000;

/// Horizontal position at which the automatic spawner drops its balls: the
/// middle of the playfield.
pub const AUTO_SPAWN_X: i32 = 400;

/// Vertical position at which the automatic spawner drops its balls.
pub const AUTO_SPAWN_Y: i32 = 0;

/// An axis-aligned rectangle in whole pixels: the left and top edges and the
/// extent to the right and downwards.
#[derive(Clone, Copy, Debug, PartialEq, Eq, Structural)]
pub struct BoundingBox {
    pub x: i32,
    pub y: i32,
    pub width: i32,
    pub height: i32,
}

impl BoundingBox {
    /// The point lies inside the rectangle or on its border.
    pub open spec fn holds(&self, px: int, py: int) -> bool {
        &&& self.x <= px <= self.x + self.width
        &&& self.y <= py <= self.y + self.height
    }

    /// Whether the point lies inside the rectangle or on its border.
    pub fn contains(&self, px: i32, py: i32) -> (r: bool)
        ensures
            r == self.holds(px as int, py as int),
    {
        let px = px as i64;
        let py = py as i64;
        self.x as i64 <= px && px <= self.x as i64 + self.width as i64 && self.y as i64 <= py && py
            <= self.y as i64 + self.height as i64
    }
}

/// The button that switches the automatic spawner on and off.
pub fn toggle_button() -> (b: BoundingBox)
    ensures
        b.x == crate::SCREEN_WIDTH / 2 + 150,
        b.y == 10,
        b.width == 200,
        b.height == 40,
{
    BoundingBox { x: crate::SCREEN_WIDTH / 2 + 150, y: 10, width: 200, height: 40 }
}

/// What the host loop keeps between frames to decide when balls appear:
/// whether balls are dropped automatically, and the simulated time gathered
/// towards the next automatic drop.
#[derive(Clone, Copy, Debug, PartialEq, Eq, Structural)]
pub struct Spawner {
    pub auto_spawn: bool,
    pub timer_us: u64,
}

/// Whether an automatic drop is due once `dt` more microseconds have passed.
pub open spec fn drop_due(timer: int, dt: int) -> bool {
    timer + dt >= SPAWN_INTERVAL_US
}

impl Spawner {
    /// A spawner with automatic dropping off and no time gathered.
    pub fn new() -> (s: Spawner)
        ensures
            !s.auto_spawn,
            s.timer_us == 0,
    {
        Spawner { auto_spawn: false, timer_us: 0 }
    }

    /// Handles a click at a point. A click on `button` switches automatic
    /// dropping on or off; a click anywhere else asks for a ball at the click,
    /// which the result says. The time gathered is kept either way.
    pub fn click(&mut self, button: &BoundingBox, px: i32, py: i32) -> (spawn_here: bool)
        ensures
            spawn_here == !button.holds(px as int, py as int),
            final(self).auto_spawn == (old(self).auto_spawn != button.holds(px as int, py as int)),
            final(self).timer_us == old(self).timer_us,
    {
        if button.contains(px, py) {
            self.auto_spawn = !self.auto_spawn;
            false
        } else {
            true
        }
    }

    /// Lets `dt_us` microseconds of simulated time pass. While automatic
    /// dropping is on, the time is gathered, and once it reaches
    /// `SPAWN_INTERVAL_US` a ball is due (the result) and the gathered time
    /// starts again from zero. While it is off, nothing changes.
    pub fn tick(&mut self, dt_us: u64) -> (spawn_auto: bool)
        ensures
            old(self).auto_spawn && drop_due(old(self).timer_us as int, dt_us as int) ==> {
                &&& spawn_auto
                &&& *final(self) == (Spawner { auto_spawn: true, timer_us: 0 })
            },
            old(self).auto_spawn && !drop_due(old(self).timer_us as int, dt_us as int) ==> {
                &&& !spawn_auto
                &&& *final(self) == (Spawner {
                    auto_spawn: true,
                    timer_us: (old(self).timer_us + dt_us) as u64,
                })
            },
            !old(self).auto_spawn ==> !spawn_auto && *final(self) == *old(self),
    {
        if !self.auto_spawn {
            return false;
        }
        if self.timer_us >= SPAWN_INTERVAL_US || dt_us >= SPAWN_INTERVAL_US - self.timer_us {
            self.timer_us = 0;
            true
        } else {
            self.timer_us = self.timer_us + dt_us;
            false
        }
    }

    /// Text of the toggle button for the current state.
    pub fn button_label(&self) -> (label: &'static str)
        ensures
            self.auto_spawn ==> label@ == "Auto Spawn: ON"@,
            !self.auto_spawn ==> label@ == "Auto Spawn: OFF"@,
    {
        if self.auto_spawn {
            "Auto Spawn: ON"
        } else {
            "Auto Spawn: OFF"
        }
    }
}

} // verus!
