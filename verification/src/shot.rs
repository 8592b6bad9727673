//! One shot: its phases, the flight of the projectile in fixed time steps, and
//! how a position on the flight path resolves the shot.

use crate::cityscape::XYPoint;
use crate::field::{FIELD_HEIGHT, FIELD_WIDTH, INDEX_SLOTS, SUN_CENTRE_X, SUN_HEIGHT};
use crate::round::{
    lemma_characters_in_field, Player, Position, RoundState, DECIMAL_CAP, MICRO,
};
use vstd::prelude::*;

verus! {

/// The projectile has left the field once it is this near to the right edge.
pub const RIGHT_MARGIN: i32 = 10;

/// The projectile has left the field once it is this near to the left edge.
pub const LEFT_MARGIN: i32 = 3;

/// The projectile has left the field once it is this near to the bottom edge.
pub const BOTTOM_MARGIN: i32 = 3;

/// A character's box reaches this far left of and above its position.
pub const BOX_BEFORE: i32 = 5;

/// A character's box reaches this far right of its position.
pub const BOX_WIDTH: i32 = 25;

/// A character's box reaches this far below its position.
pub const BOX_HEIGHT: i32 = 30;

/// The second player throws from this far right of the character's position.
pub const SECOND_HAND_OFFSET: i32 = 25;

/// Every throw starts this far above the character's position.
pub const HAND_HEIGHT: i32 = 7;

/// The projectile grazes the sun within this horizontal distance of its centre.
pub const SUN_REACH: i32 = 20;

/// No shot is in flight for more steps than this: with the smallest gravity and
/// the largest speed the projectile is below the field by then.
pub const FLIGHT_LIMIT: u64 = 20_000_020_000;

/// No flight takes the projectile further from the field's origin than this, in
/// millionths of a field unit.
pub const POSITION_BOUND: i128 = 1_000_000_000_000_000_000_000_000_000_000_000;

/// The phases of one turn.
#[derive(Clone, Copy, Debug, PartialEq, Eq, Structural)]
pub enum ShotPhase {
    InputAngle,
    InputVelocity,
    Animating,
    Done,
}

/// How a shot ended, or that it has not ended.
#[derive(Clone, Copy, Debug, PartialEq, Eq, Structural)]
pub enum ShotOutcome {
    /// Still in flight, or not thrown yet.
    Pending,
    /// The projectile left the field.
    LeftPlayField,
    /// The projectile hit the character of the named player.
    CharacterHit(Player),
    /// The projectile hit a building.
    BlockedByBuilding,
}

/// The velocity of a throw along the field's axes, in thousandths of a field
/// unit per unit of time; `x` to the right, `y` upwards.
#[derive(Clone, Copy, Debug, PartialEq, Eq, Structural)]
pub struct LaunchVector {
    pub x: i64,
    pub y: i64,
}

impl LaunchVector {
    /// Neither component is faster than the cap.
    pub open spec fn wf(&self) -> bool {
        &&& -DECIMAL_CAP <= self.x <= DECIMAL_CAP
        &&& -DECIMAL_CAP <= self.y <= DECIMAL_CAP
    }

    /// The vector with each component cut to the cap.
    pub fn capped(x: i64, y: i64) -> (v: LaunchVector)
        ensures
            v.wf(),
            v.x == cut_to_cap(x as int),
            v.y == cut_to_cap(y as int),
    {
        LaunchVector { x: cap_component(x), y: cap_component(y) }
    }
}

/// `v` cut to the range from minus the cap to the cap.
pub open spec fn cut_to_cap(v: int) -> int {
    if v < -DECIMAL_CAP {
        -DECIMAL_CAP as int
    } else if v > DECIMAL_CAP {
        DECIMAL_CAP as int
    } else {
        v
    }
}

fn cap_component(v: i64) -> (r: i64)
    ensures
        r == cut_to_cap(v as int),
{
    if v < -DECIMAL_CAP {
        -DECIMAL_CAP
    } else if v > DECIMAL_CAP {
        DECIMAL_CAP
    } else {
        v
    }
}

/// The state of one turn's shot.
#[derive(Clone, Debug, PartialEq, Eq)]
pub struct ShotState {
    pub phase: ShotPhase,
    /// Angle of the throw in thousandths of a degree, mirrored for the second
    /// player.
    pub angle: i64,
    /// Speed of the throw in thousandths.
    pub velocity: i64,
    /// What was typed for the angle.
    pub angle_input: Vec<char>,
    /// What was typed for the speed.
    pub velocity_input: Vec<char>,
    /// Time in flight, in steps of a tenth of a unit of time.
    pub steps: u64,
    pub outcome: ShotOutcome,
    /// Where the projectile is, in millionths of a field unit.
    pub x: i128,
    pub y: i128,
}

impl ShotState {
    /// The shot has not been in flight for longer than any flight lasts, and
    /// the projectile is no further from the field than a flight can take it.
    pub open spec fn wf(&self) -> bool {
        &&& self.steps <= FLIGHT_LIMIT
        &&& -POSITION_BOUND <= self.x <= POSITION_BOUND
        &&& -POSITION_BOUND <= self.y <= POSITION_BOUND
    }

    /// A shot that waits for its angle.
    pub fn new() -> (shot: ShotState)
        ensures
            shot.wf(),
            shot.phase == ShotPhase::InputAngle,
            shot.angle == 0,
            shot.velocity == 0,
            shot.angle_input@.len() == 0,
            shot.velocity_input@.len() == 0,
            shot.steps == 0,
            shot.outcome == ShotOutcome::Pending,
            shot.x == 0,
            shot.y == 0,
    {
        ShotState {
            phase: ShotPhase::InputAngle,
            angle: 0,
            velocity: 0,
            angle_input: Vec::new(),
            velocity_input: Vec::new(),
            steps: 0,
            outcome: ShotOutcome::Pending,
            x: 0,
            y: 0,
        }
    }
}

/// Where a player's throw starts, horizontally: at the character's position for
/// the first player, at its far side for the second.
pub open spec fn launch_x(round: RoundState, player: Player) -> int {
    match player {
        Player::First => round.first.x as int,
        Player::Second => round.second.x + SECOND_HAND_OFFSET * MICRO,
    }
}

/// Where a player's throw starts, vertically: above the character's position.
pub open spec fn launch_y(round: RoundState, player: Player) -> int {
    round.spec_character(player).y - HAND_HEIGHT * MICRO
}

/// Horizontal position after `steps` steps, in millionths: the start, plus the
/// horizontal speed times the time, plus half the wind's acceleration (a fifth
/// of the wind) times the time squared, with a time of `steps / 10`.
pub open spec fn flight_x(start: int, speed: int, wind: int, steps: int) -> int {
    start + 100 * speed * steps + 1000 * wind * steps * steps
}

/// Vertical position after `steps` steps, in millionths, growing downwards: the
/// start, less the upward speed times the time, plus half of gravity times the
/// time squared, with a time of `steps / 10`.
pub open spec fn flight_y(start: int, speed: int, gravity: int, steps: int) -> int {
    start - 100 * speed * steps + 5 * gravity * steps * steps
}

/// The position is past the right, left or bottom margin of the field.
pub open spec fn off_field(x: int, y: int) -> bool {
    ||| x >= (FIELD_WIDTH - RIGHT_MARGIN) * MICRO
    ||| x <= LEFT_MARGIN * MICRO
    ||| y >= (FIELD_HEIGHT - BOTTOM_MARGIN) * MICRO
}

/// The position is inside the box of a character standing at `c`.
pub open spec fn hits_character(x: int, y: int, c: Position) -> bool {
    &&& c.x - BOX_BEFORE * MICRO <= x <= c.x + BOX_WIDTH * MICRO
    &&& c.y - BOX_BEFORE * MICRO <= y <= c.y + BOX_HEIGHT * MICRO
}

/// Where the span of column `i` ends: at the next column's left edge, or at the
/// field's right edge for the last column.
pub open spec fn span_end(index: Seq<XYPoint>, last: int, i: int) -> int {
    if i + 1 <= last {
        index[i + 1].x_coor as int
    } else {
        FIELD_WIDTH as int
    }
}

/// The position is within the span of column `i` and at or below its roof.
pub open spec fn blocked_by(x: int, y: int, index: Seq<XYPoint>, last: int, i: int) -> bool {
    &&& index[i].x_coor * MICRO <= x <= span_end(index, last, i) * MICRO
    &&& y >= index[i].y_coor * MICRO
}

/// The position is at or below the roof of a column whose span holds it.
pub open spec fn blocked(x: int, y: int, index: Seq<XYPoint>, last: int) -> bool {
    exists|i: int| 1 <= i <= last && blocked_by(x, y, index, last, i)
}

/// The position is near the sun's centre and above the lower edge of its band.
pub open spec fn grazes_sun(x: int, y: int) -> bool {
    &&& -SUN_REACH * MICRO < x - SUN_CENTRE_X * MICRO < SUN_REACH * MICRO
    &&& y < SUN_HEIGHT * MICRO
}

/// How a projectile at a position resolves the shot. Leaving the field comes
/// first; then, for a projectile not above the top of the field, a hit on the
/// first character, a hit on the second, and a hit on a building, in this order.
pub open spec fn resolve(x: int, y: int, round: RoundState) -> ShotOutcome {
    if off_field(x, y) {
        ShotOutcome::LeftPlayField
    } else if y >= 0 && hits_character(x, y, round.first) {
        ShotOutcome::CharacterHit(Player::First)
    } else if y >= 0 && hits_character(x, y, round.second) {
        ShotOutcome::CharacterHit(Player::Second)
    } else if y >= 0 && blocked(x, y, round.index(), round.city.last_building as int) {
        ShotOutcome::BlockedByBuilding
    } else {
        ShotOutcome::Pending
    }
}

/// The checks come in a fixed order: a position off the field resolves as
/// having left the field whatever else it touches; on the field and not above
/// its top, a hit on the first character comes before one on the second, and a
/// hit on either before a hit on a building.
pub proof fn lemma_resolution_order(x: int, y: int, round: RoundState)
    ensures
        off_field(x, y) ==> resolve(x, y, round) == ShotOutcome::LeftPlayField,
        !off_field(x, y) && y >= 0 && hits_character(x, y, round.first) ==> resolve(x, y, round)
            == ShotOutcome::CharacterHit(Player::First),
        !off_field(x, y) && y >= 0 && !hits_character(x, y, round.first) && hits_character(
            x,
            y,
            round.second,
        ) ==> resolve(x, y, round) == ShotOutcome::CharacterHit(Player::Second),
        y < 0 && !off_field(x, y) ==> resolve(x, y, round) == ShotOutcome::Pending,
{
}

fn in_box(x: i128, y: i128, c: Position) -> (hit: bool)
    requires
        -1000 * MICRO <= c.x <= 1000 * MICRO,
        -1000 * MICRO <= c.y <= 1000 * MICRO,
    ensures
        hit == hits_character(x as int, y as int, c),
{
    let cx = c.x as i128;
    let cy = c.y as i128;
    let m = MICRO as i128;
    x >= cx - (BOX_BEFORE as i128) * m && x <= cx + (BOX_WIDTH as i128) * m && y >= cy - (
    BOX_BEFORE as i128) * m && y <= cy + (BOX_HEIGHT as i128) * m
}

fn in_a_column(index: &Vec<XYPoint>, last: usize, x: i128, y: i128) -> (hit: bool)
    requires
        index@.len() == INDEX_SLOTS,
        last < INDEX_SLOTS - 1,
    ensures
        hit == blocked(x as int, y as int, index@, last as int),
{
    let m = MICRO as i128;
    let mut i: usize = 1;
    while i <= last
        invariant
            index@.len() == INDEX_SLOTS,
            last < INDEX_SLOTS - 1,
            m == MICRO,
            1 <= i <= last + 1,
            forall|j: int| 1 <= j < i ==> !blocked_by(x as int, y as int, index@, last as int, j),
        decreases last + 1 - i,
    {
        let bx = index[i].x_coor as i128;
        let by = index[i].y_coor as i128;
        let next_bx = if i + 1 <= last {
            index[i + 1].x_coor as i128
        } else {
            FIELD_WIDTH as i128
        };
        if x >= bx * m && x <= next_bx * m && y >= by * m {
            assert(blocked_by(x as int, y as int, index@, last as int, i as int));
            return true;
        }
        i += 1;
    }
    false
}

/// How a projectile at a position resolves the shot of a generated round.
pub fn resolve_position(round: &RoundState, x: i128, y: i128) -> (outcome: ShotOutcome)
    requires
        round.wf(),
        round.cityscape_generated,
    ensures
        outcome == resolve(x as int, y as int, *round),
{
    proof {
        lemma_characters_in_field(*round, Player::First);
        lemma_characters_in_field(*round, Player::Second);
    }
    let m = MICRO as i128;
    if x >= ((FIELD_WIDTH - RIGHT_MARGIN) as i128) * m || x <= (LEFT_MARGIN as i128) * m || y >= ((
    FIELD_HEIGHT - BOTTOM_MARGIN) as i128) * m {
        return ShotOutcome::LeftPlayField;
    }
    if y >= 0 {
        if in_box(x, y, round.first) {
            return ShotOutcome::CharacterHit(Player::First);
        }
        if in_box(x, y, round.second) {
            return ShotOutcome::CharacterHit(Player::Second);
        }
        if in_a_column(&round.city.column_index, round.city.last_building, x, y) {
            return ShotOutcome::BlockedByBuilding;
        }
    }
    ShotOutcome::Pending
}

/// Whether a projectile at a position grazes the sun.
pub fn sun_grazed(x: i128, y: i128) -> (grazed: bool)
    ensures
        grazed == grazes_sun(x as int, y as int),
{
    let m = MICRO as i128;
    let centre = (SUN_CENTRE_X as i128) * m;
    let reach = (SUN_REACH as i128) * m;
    x > centre - reach && x < centre + reach && y < (SUN_HEIGHT as i128) * m
}

/// The products of the flight formulas stay far inside the range of `i128`.
proof fn lemma_flight_bounds(speed: int, wind: int, gravity: int, steps: int)
    requires
        -DECIMAL_CAP <= speed <= DECIMAL_CAP,
        -15 <= wind <= 15,
        1 <= gravity <= DECIMAL_CAP,
        0 <= steps <= FLIGHT_LIMIT,
    ensures
        -20_000_020_000_000_000_000 <= speed * steps <= 20_000_020_000_000_000_000,
        0 <= steps * steps <= 400_000_800_000_400_000_000,
        -6_000_012_000_006_000_000_000 <= wind * (steps * steps) <= 6_000_012_000_006_000_000_000,
        0 <= gravity * (steps * steps) <= 400_000_800_000_400_000_000_000_000_000,
        1000 * wind * steps * steps == 1000 * (wind * (steps * steps)),
        5 * gravity * steps * steps == 5 * (gravity * (steps * steps)),
        100 * speed * steps == 100 * (speed * steps),
{
    assert(-20_000_020_000_000_000_000 <= speed * steps <= 20_000_020_000_000_000_000)
        by (nonlinear_arith)
        requires
            -1_000_000_000 <= speed <= 1_000_000_000,
            0 <= steps <= 20_000_020_000,
    ;
    assert(0 <= steps * steps <= 400_000_800_000_400_000_000) by (nonlinear_arith)
        requires
            0 <= steps <= 20_000_020_000,
    ;
    let sq = steps * steps;
    assert(-6_000_012_000_006_000_000_000 <= wind * sq <= 6_000_012_000_006_000_000_000)
        by (nonlinear_arith)
        requires
            -15 <= wind <= 15,
            0 <= sq <= 400_000_800_000_400_000_000,
    ;
    assert(0 <= gravity * sq <= 400_000_800_000_400_000_000_000_000_000) by (nonlinear_arith)
        requires
            1 <= gravity <= 1_000_000_000,
            0 <= sq <= 400_000_800_000_400_000_000,
    ;
    assert(1000 * wind * steps * steps == 1000 * (wind * (steps * steps))) by (nonlinear_arith);
    assert(5 * gravity * steps * steps == 5 * (gravity * (steps * steps))) by (nonlinear_arith);
    assert(100 * speed * steps == 100 * (speed * steps)) by (nonlinear_arith);
}

/// After the longest flight the projectile is below the field, whatever the
/// speed and gravity.
pub proof fn lemma_flight_ends(start: int, speed: int, gravity: int)
    requires
        start >= 0,
        speed <= DECIMAL_CAP,
        gravity >= 1,
    ensures
        flight_y(start, speed, gravity, FLIGHT_LIMIT as int) >= (FIELD_HEIGHT - BOTTOM_MARGIN)
            * MICRO,
{
    let k = FLIGHT_LIMIT as int;
    assert(gravity * (k * k) >= k * k) by (nonlinear_arith)
        requires
            gravity >= 1,
            k * k >= 0,
    ;
    assert(speed * k <= 1_000_000_000 * k) by (nonlinear_arith)
        requires
            speed <= 1_000_000_000,
            k >= 0,
    ;
    assert(5 * gravity * k * k == 5 * (gravity * (k * k))) by (nonlinear_arith);
    assert(100 * speed * k == 100 * (speed * k)) by (nonlinear_arith);
    assert(k * k == 400_000_800_000_400_000_000) by (nonlinear_arith)
        requires
            k == 20_000_020_000,
    ;
}

/// Without wind the horizontal distance covered grows in proportion to the
/// time: after `steps` tenths of a unit of time it is the horizontal speed
/// times that time.
pub proof fn lemma_still_air_is_linear(start: int, speed: int, steps: int)
    ensures
        flight_x(start, speed, 0, steps) - start == 100 * speed * steps,
{
    assert(1000 * 0 * steps * steps == 0) by (nonlinear_arith);
}

/// The position of a projectile after `steps` steps.
pub fn flight_position(
    start_x: i64,
    start_y: i64,
    launch: LaunchVector,
    wind: i32,
    gravity: i64,
    steps: u64,
) -> (at: (i128, i128))
    requires
        launch.wf(),
        -15 <= wind <= 15,
        1 <= gravity <= DECIMAL_CAP,
        steps <= FLIGHT_LIMIT,
    ensures
        at.0 == flight_x(start_x as int, launch.x as int, wind as int, steps as int),
        at.1 == flight_y(start_y as int, launch.y as int, gravity as int, steps as int),
        -POSITION_BOUND <= at.0 <= POSITION_BOUND,
        -POSITION_BOUND <= at.1 <= POSITION_BOUND,
{
    proof {
        lemma_flight_bounds(launch.x as int, wind as int, gravity as int, steps as int);
        lemma_flight_bounds(launch.y as int, wind as int, gravity as int, steps as int);
    }
    let k = steps as i128;
    let sq = k * k;
    let x = (start_x as i128) + 100 * ((launch.x as i128) * k) + 1000 * ((wind as i128) * sq);
    let y = (start_y as i128) - 100 * ((launch.y as i128) * k) + 5 * ((gravity as i128) * sq);
    (x, y)
}

/// What one step of a flight does to the round and the shot. The projectile
/// moves to its position for the time in flight, and the outcome is what that
/// position resolves to. A shot that stays in flight is one step older, and its
/// projectile, where it is not above the top of the field and grazes the sun,
/// marks the sun as hit. Nothing else changes but the phase, of which nothing
/// is said here.
pub open spec fn plotted(
    round0: RoundState,
    shot0: ShotState,
    round1: RoundState,
    shot1: ShotState,
    player: Player,
    launch: LaunchVector,
) -> bool {
    let x = flight_x(
        launch_x(round0, player),
        launch.x as int,
        round0.city.wind as int,
        shot0.steps as int,
    );
    let y = flight_y(
        launch_y(round0, player),
        launch.y as int,
        round0.gravity as int,
        shot0.steps as int,
    );
    let outcome = resolve(x, y, round0);
    &&& shot1.x == x
    &&& shot1.y == y
    &&& shot1.outcome == outcome
    &&& shot1.steps == if outcome != ShotOutcome::Pending {
        shot0.steps as int
    } else {
        shot0.steps + 1
    }
    &&& shot1.angle == shot0.angle
    &&& shot1.velocity == shot0.velocity
    &&& shot1.angle_input == shot0.angle_input
    &&& shot1.velocity_input == shot0.velocity_input
    &&& round1.sun_hit == (round0.sun_hit || (outcome == ShotOutcome::Pending && y >= 0
        && grazes_sun(x, y)))
    &&& round1.city == round0.city
    &&& round1.cityscape_generated == round0.cityscape_generated
    &&& round1.gravity == round0.gravity
    &&& round1.first == round0.first
    &&& round1.second == round0.second
}

/// Advances a shot in flight by one step and says whether it has resolved.
///
/// The projectile moves to its position for the time in flight. If that
/// position resolves the shot, the outcome is recorded and the call returns
/// `true`; the time in flight stays. Otherwise the time in flight grows by one
/// step, and a projectile that is not above the top of the field and grazes the
/// sun marks the sun as hit.
pub fn plot_shot(
    round: &mut RoundState,
    shot: &mut ShotState,
    player: Player,
    launch: LaunchVector,
) -> (done: bool)
    requires
        old(round).wf(),
        old(round).cityscape_generated,
        old(shot).wf(),
        launch.wf(),
    ensures
        plotted(*old(round), *old(shot), *final(round), *final(shot), player, launch),
        done == (final(shot).outcome != ShotOutcome::Pending),
        final(shot).phase == old(shot).phase,
        final(shot).wf(),
        final(round).wf(),
{
    proof {
        lemma_characters_in_field(*round, Player::First);
        lemma_characters_in_field(*round, Player::Second);
    }
    let start = round.character(player);
    let start_x_pos: i64 = match player {
        Player::First => start.x,
        Player::Second => start.x + (SECOND_HAND_OFFSET as i64) * MICRO,
    };
    let start_y_pos: i64 = start.y - (HAND_HEIGHT as i64) * MICRO;
    let at = flight_position(
        start_x_pos,
        start_y_pos,
        launch,
        round.city.wind,
        round.gravity,
        shot.steps,
    );
    shot.x = at.0;
    shot.y = at.1;
    let outcome = resolve_position(round, shot.x, shot.y);
    shot.outcome = outcome;
    match outcome {
        ShotOutcome::Pending => {},
        _ => {
            return true;
        },
    }
    if shot.y >= 0 && sun_grazed(shot.x, shot.y) {
        round.sun_hit = true;
    }
    proof {
        if shot.steps == FLIGHT_LIMIT {
            lemma_flight_ends(start_y_pos as int, launch.y as int, round.gravity as int);
        }
    }
    shot.steps = shot.steps + 1;
    false
}

} // verus!
