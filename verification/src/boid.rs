use vstd::prelude::*;

verus! {

/// Smallest initial speed, in millionths of a unit per frame.
pub const SPEED_MIN: u32 = 5_000;
/// One past the largest initial speed, in millionths of a unit per frame.
pub const SPEED_MAX: u32 = 15_000;
/// Inner radius of the spawn disk, in millionths of a unit.
pub const RADIUS_MIN: u32 = 100_000;
/// One past the outer radius of the spawn disk, in millionths of a unit.
pub const RADIUS_MAX: u32 = 700_000;
/// One full turn, in millionths of a radian.
pub const FULL_TURN: u32 = 6_283_185;

/// Polar description of one freshly spawned agent, in integer micro-units.
/// `radius` and `azimuth` place the agent inside the spawn disk;
/// `heading` and `speed` give its initial velocity direction and magnitude.
/// Turning these into the cartesian 32-bit lanes the kernels consume is the
/// caller's concern, since it needs trigonometry on machine reals.
#[derive(Clone, Copy, Debug, PartialEq, Eq, Structural)]
pub struct BoidInit {
    /// Radial distance from the origin, in millionths of a unit.
    pub radius: u32,
    /// Angle of the position around the origin, in millionths of a radian.
    pub azimuth: u32,
    /// Direction of the initial velocity, in millionths of a radian.
    pub heading: u32,
    /// Magnitude of the initial velocity, in millionths of a unit per frame.
    pub speed: u32,
}

/// The two spawn-placement policies the generator may be configured with.
#[derive(Clone, Copy, Debug, PartialEq, Eq, Structural)]
pub enum Placement {
    /// Positions drawn uniformly inside an annulus of radii
    /// [`RADIUS_MIN`, `RADIUS_MAX`).
    Disk,
    /// Positions drawn uniformly inside the full simulation square.
    Square,
}

/// The initial speed avoids degenerate zero-velocity agents.
pub open spec fn speed_in_range(b: BoidInit) -> bool {
    SPEED_MIN <= b.speed < SPEED_MAX
}

/// The initial position lies inside the spawn disk.
pub open spec fn position_in_disk(b: BoidInit) -> bool {
    RADIUS_MIN <= b.radius < RADIUS_MAX
}

/// Both angles are proper fractions of a full turn.
pub open spec fn angles_in_range(b: BoidInit) -> bool {
    b.azimuth < FULL_TURN && b.heading < FULL_TURN
}

/// Everything the generator promises of a single spawned agent.
pub open spec fn spawn_in_policy(b: BoidInit) -> bool {
    speed_in_range(b) && position_in_disk(b) && angles_in_range(b)
}

/// Relies on rand::random: one 32-bit value from the thread-local generator,
/// uniformly distributed; nothing can be promised of the value itself.
#[verifier::external_body]
fn draw_u32() -> u32 {
    rand::random::<u32>()
}

/// Folds an arbitrary 32-bit draw into the half-open range [lo, hi).
pub fn scale_to_range(raw: u32, lo: u32, hi: u32) -> (v: u32)
    requires
        lo < hi,
    ensures
        v == lo + (raw as int) % (hi - lo),
        lo <= v < hi,
{
    lo + raw % (hi - lo)
}

/// Spawns one agent with freshly drawn polar parameters.
fn spawn_one() -> (b: BoidInit)
    ensures
        spawn_in_policy(b),
{
    let radius: u32 = scale_to_range(draw_u32(), RADIUS_MIN, RADIUS_MAX);
    let azimuth: u32 = scale_to_range(draw_u32(), 0, FULL_TURN);
    let heading: u32 = scale_to_range(draw_u32(), 0, FULL_TURN);
    let speed: u32 = scale_to_range(draw_u32(), SPEED_MIN, SPEED_MAX);
    BoidInit { radius, azimuth, heading, speed }
}

/// Produces the initial population: exactly `population` agents, each with its
/// speed in [`SPEED_MIN`, `SPEED_MAX`), its position inside the spawn disk,
/// and both of its angles below a full turn. A population of zero yields an
/// empty array.
pub fn generate_boids(population: u32) -> (boids: Vec<BoidInit>)
    ensures
        boids@.len() == population,
        forall|i: int| 0 <= i < boids@.len() ==> spawn_in_policy(boids@[i]),
{
    let mut boids: Vec<BoidInit> = Vec::new();
    let mut idx: u32 = 0;
    while idx < population
        invariant
            idx <= population,
            boids@.len() == idx,
            forall|i: int| 0 <= i < boids@.len() ==> spawn_in_policy(boids@[i]),
        decreases population - idx,
    {
        let b = spawn_one();
        boids.push(b);
        idx = idx + 1;
    }
    boids
}

/// Which spawn-placement policy is active: the generator places agents inside
/// the disk, as `position_in_disk` in its contract states.
pub fn placement_policy() -> (p: Placement)
    ensures
        p == Placement::Disk,
{
    Placement::Disk
}

} // verus!
