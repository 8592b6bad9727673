//! The state of one round: the cityscape, gravity, the sun's mood, and where
//! the two characters stand.

use crate::cityscape::{
    building_fits, empty_index, index_of, lemma_index_in_field, skyline_wf, BuildingModel,
    Cityscape, XYPoint, BUILDING_GAP,
};
use crate::field::{FIELD_WIDTH, INDEX_SLOTS};
use crate::random::{pick, pick_at, stepped_word, word_after, RandomSource};
use vstd::prelude::*;

verus! {

/// Number of fixed-point units in one field unit: positions of characters and
/// of the projectile are held in millionths.
pub const MICRO: i64 = 1_000_000;

/// Gravity when none is chosen, in thousandths.
pub const DEFAULT_GRAVITY: i64 = 9_800;

/// The largest gravity, speed or angle that the game holds, in thousandths.
pub const DECIMAL_CAP: i64 = 1_000_000_000;

/// How far left of a column's centre a character's position lies, in field units.
pub const CHARACTER_X_ADJUST: i32 = 14;

/// How far above the roof a character's position lies, in field units.
pub const CHARACTER_Y_ADJUST: i32 = 30;

/// The width taken for a column that has no right neighbour.
pub const FALLBACK_WIDTH: i32 = 50;

/// One of the two players, and that player's character.
#[derive(Clone, Copy, Debug, PartialEq, Eq, Structural)]
pub enum Player {
    First,
    Second,
}

impl Player {
    /// The opponent.
    pub fn other(self) -> (p: Player)
        ensures
            p != self,
            p == self.opponent(),
    {
        match self {
            Player::First => Player::Second,
            Player::Second => Player::First,
        }
    }

    /// The opponent, in specifications.
    pub open spec fn opponent(self) -> Player {
        match self {
            Player::First => Player::Second,
            Player::Second => Player::First,
        }
    }
}

/// A position on the field in millionths of a field unit; `y` grows downwards.
#[derive(Clone, Copy, Debug, PartialEq, Eq, Structural)]
pub struct Position {
    pub x: i64,
    pub y: i64,
}

/// The width by which a character is centred on column `column`: the distance
/// to the next column's left edge, or the fallback width on the last column.
pub open spec fn centring_width(index: Seq<XYPoint>, last: int, column: int) -> int {
    if column + 1 <= last {
        index[column + 1].x_coor - index[column].x_coor
    } else {
        FALLBACK_WIDTH as int
    }
}

/// Where a character stands on column `column`: at the column's centre less the
/// horizontal adjustment, and the vertical adjustment above its roof.
pub open spec fn standing_on(index: Seq<XYPoint>, last: int, column: int) -> Position {
    Position {
        x: (index[column].x_coor * MICRO + centring_width(index, last, column) * (MICRO / 2)
            - CHARACTER_X_ADJUST * MICRO) as i64,
        y: ((index[column].y_coor - CHARACTER_Y_ADJUST) * MICRO) as i64,
    }
}

/// The column of the first character for a source holding `word`: the first or
/// the second.
pub open spec fn first_column(word: u64) -> int {
    pick(word, 2)
}

/// The column of the second character for a source that held `word` before the
/// first character was placed: the last or the one before it.
pub open spec fn second_column(word: u64, last: int) -> int {
    last + 1 - pick_at(word, 1, 2)
}

/// The position lies within the horizontal span of the building.
pub open spec fn within_span(p: Position, b: BuildingModel) -> bool {
    b.x * MICRO <= p.x <= (b.x + b.width) * MICRO
}

/// The state of one round.
#[derive(Clone, Debug, PartialEq, Eq)]
pub struct RoundState {
    /// The skyline, its column index and the wind.
    pub city: Cityscape,
    /// Whether `city` holds a generated cityscape and the characters stand on it.
    pub cityscape_generated: bool,
    /// Gravity in thousandths.
    pub gravity: i64,
    /// Whether the projectile of the current shot has grazed the sun.
    pub sun_hit: bool,
    /// Where the first player's character stands.
    pub first: Position,
    /// Where the second player's character stands.
    pub second: Position,
}

impl RoundState {
    /// The column index of the cityscape, as a sequence.
    pub open spec fn index(&self) -> Seq<XYPoint> {
        self.city.column_index@
    }

    /// Gravity is positive and no larger than the cap; where a cityscape was
    /// generated it is well formed, the first character stands on the first or
    /// second column and the second on the last or the one before it.
    pub open spec fn wf(&self) -> bool {
        &&& 1 <= self.gravity <= DECIMAL_CAP
        &&& self.cityscape_generated ==> {
            &&& self.city.wf()
            &&& self.first == standing_on(self.index(), self.city.last_building as int, 1)
                || self.first == standing_on(self.index(), self.city.last_building as int, 2)
            &&& self.second == standing_on(
                self.index(),
                self.city.last_building as int,
                self.city.last_building as int,
            ) || self.second == standing_on(
                self.index(),
                self.city.last_building as int,
                self.city.last_building - 1,
            )
        }
    }

    /// The position of a player's character.
    pub open spec fn spec_character(&self, player: Player) -> Position {
        match player {
            Player::First => self.first,
            Player::Second => self.second,
        }
    }

    /// The position of a player's character.
    #[verifier::when_used_as_spec(spec_character)]
    pub fn character(&self, player: Player) -> (p: Position)
        ensures
            p == self.spec_character(player),
    {
        match player {
            Player::First => self.first,
            Player::Second => self.second,
        }
    }

    /// A round with the given gravity and no cityscape yet. A gravity outside
    /// `1..=DECIMAL_CAP` is replaced by the default.
    pub fn new(gravity: i64) -> (round: RoundState)
        ensures
            round.wf(),
            !round.cityscape_generated,
            !round.sun_hit,
            round.gravity == if 1 <= gravity <= DECIMAL_CAP {
                gravity
            } else {
                DEFAULT_GRAVITY
            },
            round.city.buildings@.len() == 0,
            round.city.column_index@ == index_of(Seq::empty()),
            round.city.wind == 0,
            round.city.last_building == 0,
            round.first == (Position { x: 0, y: 0 }),
            round.second == (Position { x: 0, y: 0 }),
    {
        RoundState {
            city: Cityscape {
                buildings: Vec::new(),
                column_index: empty_index(),
                last_building: 0,
                wind: 0,
            },
            cityscape_generated: false,
            gravity: if 1 <= gravity && gravity <= DECIMAL_CAP {
                gravity
            } else {
                DEFAULT_GRAVITY
            },
            sun_hit: false,
            first: Position { x: 0, y: 0 },
            second: Position { x: 0, y: 0 },
        }
    }

    /// Forgets the cityscape: the buildings go, the column index is zeroed, and
    /// the round counts as not generated until the next cityscape is built.
    pub fn reset_cityscape(&mut self)
        requires
            old(self).wf(),
        ensures
            final(self).wf(),
            !final(self).cityscape_generated,
            final(self).city.buildings@.len() == 0,
            final(self).city.column_index@ == index_of(Seq::empty()),
            final(self).gravity == old(self).gravity,
            final(self).sun_hit == old(self).sun_hit,
            final(self).first == old(self).first,
            final(self).second == old(self).second,
            final(self).city.wind == old(self).city.wind,
            final(self).city.last_building == old(self).city.last_building,
    {
        self.city.buildings.clear();
        self.cityscape_generated = false;
        self.city.column_index = empty_index();
    }
}

/// A character that stands on a column with a right neighbour, or on a last
/// column at least 11 units wide, stands within the span of that column's
/// building, and its position is 30 units above the building's roof.
pub proof fn lemma_stands_within_span(s: Seq<BuildingModel>, column: int)
    requires
        skyline_wf(s),
        1 <= column <= s.len(),
        column < s.len() || s.last().width >= 11,
    ensures
        within_span(standing_on(index_of(s), s.len() as int, column), s[column - 1]),
        standing_on(index_of(s), s.len() as int, column).y == (s[column - 1].y
            - CHARACTER_Y_ADJUST) * MICRO,
{
    lemma_index_in_field(s);
    assert(building_fits(s[column - 1]));
    if column < s.len() {
        assert(building_fits(s[column]));
        assert(s[column].x == s[column - 1].x + s[column - 1].width + BUILDING_GAP);
    }
}

/// Wherever the characters of a generated round stand, they stand in the field:
/// between 8 and 641 units from the left edge, and between 45 and 295 units
/// from the top.
pub proof fn lemma_characters_in_field(round: RoundState, player: Player)
    requires
        round.wf(),
        round.cityscape_generated,
    ensures
        8 * MICRO <= round.spec_character(player).x <= 641 * MICRO,
        45 * MICRO <= round.spec_character(player).y <= 295 * MICRO,
{
    let s = round.city.skyline();
    lemma_index_in_field(s);
    let last = s.len() as int;
    assert(building_fits(s[0]));
    assert(building_fits(s[1]));
    assert(building_fits(s[2]));
    assert(building_fits(s[last - 1]));
    assert(building_fits(s[last - 2]));
    assert(s[1].x == s[0].x + s[0].width + BUILDING_GAP);
    assert(s[2].x == s[1].x + s[1].width + BUILDING_GAP);
    assert(s[last - 1].x == s[last - 2].x + s[last - 2].width + BUILDING_GAP);
}

/// Where a character stands on a column of the index.
fn stand_on(index: &Vec<XYPoint>, last: usize, column: usize) -> (p: Position)
    requires
        index@.len() == INDEX_SLOTS,
        1 <= column <= last < INDEX_SLOTS - 1,
        forall|i: int|
            0 <= i < index@.len() ==> 0 <= (#[trigger] index@[i]).x_coor <= FIELD_WIDTH && 0
                <= index@[i].y_coor <= 400,
    ensures
        p == standing_on(index@, last as int, column as int),
{
    let here = index[column];
    let b_width: i32 = if column + 1 <= last {
        index[column + 1].x_coor - here.x_coor
    } else {
        FALLBACK_WIDTH
    };
    let x: i64 = (here.x_coor as i64) * MICRO + (b_width as i64) * (MICRO / 2) - (CHARACTER_X_ADJUST as i64) * MICRO;
    let y: i64 = ((here.y_coor - CHARACTER_Y_ADJUST) as i64) * MICRO;
    Position { x, y }
}

/// Places both characters on the generated skyline: the first on the first or
/// second column, the second on the last column or the one before it, each at
/// the centre of its column and standing on its roof.
///
/// Each character's position lies within the span of the building it stands
/// on, but for a second character on a last building narrower than 11 units.
pub fn place_gorillas(round: &mut RoundState, rng: &mut RandomSource)
    requires
        old(round).city.wf(),
        1 <= old(round).gravity <= DECIMAL_CAP,
    ensures
        final(round).wf(),
        final(round).cityscape_generated,
        final(round).city == old(round).city,
        final(round).gravity == old(round).gravity,
        final(round).sun_hit == old(round).sun_hit,
        final(round).first == standing_on(
            old(round).index(),
            old(round).city.last_building as int,
            first_column(old(rng)@),
        ),
        final(round).second == standing_on(
            old(round).index(),
            old(round).city.last_building as int,
            second_column(old(rng)@, old(round).city.last_building as int),
        ),
        1 <= first_column(old(rng)@) <= 2,
        old(round).city.last_building - 1 <= second_column(
            old(rng)@,
            old(round).city.last_building as int,
        ) <= old(round).city.last_building,
        final(rng)@ == word_after(old(rng)@, 2),
        within_span(
            final(round).first,
            old(round).city.skyline()[first_column(old(rng)@) - 1],
        ),
        second_column(old(rng)@, old(round).city.last_building as int) < old(
            round,
        ).city.last_building || old(round).city.skyline().last().width >= 11 ==> within_span(
            final(round).second,
            old(round).city.skyline()[second_column(
                old(rng)@,
                old(round).city.last_building as int,
            ) - 1],
        ),
{
    let ghost word0 = rng@;
    let ghost sky = round.city.skyline();
    proof {
        assert(word_after(word0, 1) == stepped_word(word0)) by {
            assert(word_after(word0, 0) == word0);
        }
        assert(word_after(word0, 2) == stepped_word(word_after(word0, 1)));
        lemma_index_in_field(sky);
    }
    let last = round.city.last_building;
    let first_at: usize = rng.next_in_range(2) as usize;
    round.first = stand_on(&round.city.column_index, last, first_at);
    let second_at: usize = last + 1 - rng.next_in_range(2) as usize;
    round.second = stand_on(&round.city.column_index, last, second_at);
    round.cityscape_generated = true;
    proof {
        lemma_stands_within_span(sky, first_at as int);
        if second_at < last || sky.last().width >= 11 {
            lemma_stands_within_span(sky, second_at as int);
        }
    }
}

} // verus!
