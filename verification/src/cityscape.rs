//! The skyline of one round: buildings with their windows, the column index
//! used for collision tests, and the wind.

use crate::field::{BOTTOM_LINE, FIELD_WIDTH, INDEX_SLOTS, ROOF_CEILING};
use crate::random::{
    lemma_word_after_add, pick, pick_at, stepped_word, word_after, RandomSource,
};
use vstd::arithmetic::div_mod::lemma_fundamental_div_mod_converse;
use vstd::prelude::*;

verus! {

/// The fill colours a building can take.
#[derive(Clone, Copy, Debug, PartialEq, Eq, Structural)]
pub enum BuildingColor {
    Purple,
    Teal,
    Olive,
    Slate,
}

/// A window is either lit or dark.
#[derive(Clone, Copy, Debug, PartialEq, Eq, Structural)]
pub enum WindowColor {
    Lit,
    Dark,
}

/// One window of a building.
#[derive(Clone, Copy, Debug, PartialEq, Eq, Structural)]
pub struct WindowCell {
    pub x: i32,
    pub y: i32,
    pub width: i32,
    pub height: i32,
    pub color: WindowColor,
}

/// One slot of the column index: a building's left edge and its roof line.
#[derive(Clone, Copy, Debug, PartialEq, Eq, Structural)]
pub struct XYPoint {
    pub x_coor: i32,
    pub y_coor: i32,
}

/// One building of the skyline.
#[derive(Clone, Debug, PartialEq, Eq)]
pub struct BuildingColumn {
    pub x: i32,
    pub y: i32,
    pub width: i32,
    pub height: i32,
    pub color: BuildingColor,
    pub windows: Vec<WindowCell>,
}

/// What a building is, as a mathematical value.
pub struct BuildingModel {
    pub x: int,
    pub y: int,
    pub width: int,
    pub height: int,
    pub color: BuildingColor,
    pub windows: Seq<WindowCell>,
}

impl View for BuildingColumn {
    type V = BuildingModel;

    open spec fn view(&self) -> BuildingModel {
        BuildingModel {
            x: self.x as int,
            y: self.y as int,
            width: self.width as int,
            height: self.height as int,
            color: self.color,
            windows: self.windows@,
        }
    }
}

/// Step by which the target height changes from one building to the next.
pub const HEIGHT_STEP: i32 = 10;

/// Base width of a building, and the size of the random addition to it.
pub const BASE_WIDTH: i32 = 37;

/// Size of the random addition to a building's target height.
pub const HEIGHT_JITTER: i32 = 120;

/// Gap between two neighbouring buildings.
pub const BUILDING_GAP: i32 = 2;

/// Left edge of the first building.
pub const FIRST_COLUMN_X: i32 = 2;

/// The last position at which a building may still start.
pub const LAST_START_X: i32 = FIELD_WIDTH - HEIGHT_STEP;

/// The height given to a building that would reach above the roof ceiling.
pub const CAPPED_HEIGHT: i32 = ROOF_CEILING - 5;

/// Width of a window.
pub const WINDOW_WIDTH: i32 = 3;

/// Distance of the outermost windows from the building's edges.
pub const WINDOW_INSET: i32 = 3;

/// Height of a window.
pub const WINDOW_HEIGHT: i32 = 6;

/// No window's top lies nearer to the bottom line than this.
pub const LOWEST_WINDOW: i32 = 7;

/// Horizontal distance between two columns of windows.
pub const WINDOW_PITCH_H: i32 = 10;

/// Vertical distance between two rows of windows.
pub const WINDOW_PITCH_V: i32 = 15;

/// The target height that a slope mode starts from.
pub open spec fn slope_start(slope: int) -> int {
    if slope == 1 || (3 <= slope <= 5) {
        15
    } else {
        130
    }
}

/// The target height of the building at `x`, given the target of the one before:
/// mode 1 rises, mode 2 falls, modes 3 to 5 rise up to the middle of the field and
/// fall after it, and the remaining mode falls up to the middle and rises after it.
pub open spec fn next_target(slope: int, x: int, target: int) -> int {
    if slope == 1 {
        target + HEIGHT_STEP
    } else if slope == 2 {
        target - HEIGHT_STEP
    } else if 3 <= slope <= 5 {
        if x > FIELD_WIDTH / 2 {
            target - 2 * HEIGHT_STEP
        } else {
            target + 2 * HEIGHT_STEP
        }
    } else {
        if x > FIELD_WIDTH / 2 {
            target + 2 * HEIGHT_STEP
        } else {
            target - 2 * HEIGHT_STEP
        }
    }
}

/// The width of a building at `x` for a width draw: base width plus the draw,
/// cut back where it would pass the right edge of the field.
pub open spec fn clamped_width(x: int, draw: int) -> int {
    if x + draw + BASE_WIDTH > FIELD_WIDTH {
        FIELD_WIDTH - x - BUILDING_GAP
    } else {
        draw + BASE_WIDTH
    }
}

/// The height of a building for a height draw: the draw plus the target, raised
/// to the floor, and then cut to the capped height where the roof would pass the
/// roof ceiling. The ceiling is applied last and so wins over the floor.
pub open spec fn clamped_height(target: int, draw: int) -> int {
    let raised = if draw + target < HEIGHT_STEP {
        HEIGHT_STEP as int
    } else {
        draw + target
    };
    if BOTTOM_LINE - raised <= ROOF_CEILING {
        CAPPED_HEIGHT as int
    } else {
        raised
    }
}

/// The palette entry for a colour draw in `1..=4`.
pub open spec fn palette(draw: int) -> BuildingColor {
    if draw == 1 {
        BuildingColor::Purple
    } else if draw == 2 {
        BuildingColor::Teal
    } else if draw == 3 {
        BuildingColor::Olive
    } else {
        BuildingColor::Slate
    }
}

/// Number of window columns in a building of the given width.
pub open spec fn window_columns(width: int) -> int {
    if width > 2 * WINDOW_INSET {
        (width - 2 * WINDOW_INSET + WINDOW_PITCH_H - 1) / (WINDOW_PITCH_H as int)
    } else {
        0
    }
}

/// Number of window rows in a building of the given height.
pub open spec fn window_rows(height: int) -> int {
    if height >= WINDOW_INSET + LOWEST_WINDOW {
        (height - WINDOW_INSET - LOWEST_WINDOW) / (WINDOW_PITCH_V as int) + 1
    } else {
        0
    }
}

/// The colour of a window for a draw in `1..=4`: one in four is dark.
pub open spec fn window_color(draw: int) -> WindowColor {
    if draw == 1 {
        WindowColor::Dark
    } else {
        WindowColor::Lit
    }
}

/// The window in column `col` and row `row` (counted from the top) of a building
/// at `x` of the given height, coloured by `draw`.
pub open spec fn window_cell(x: int, height: int, col: int, row: int, draw: int) -> WindowCell {
    WindowCell {
        x: (x + WINDOW_INSET + WINDOW_PITCH_H * col) as i32,
        y: (BOTTOM_LINE - (height - WINDOW_INSET - WINDOW_PITCH_V * row)) as i32,
        width: WINDOW_WIDTH,
        height: WINDOW_HEIGHT,
        color: window_color(draw),
    }
}

/// The `k`-th window of a building, counted column by column from the left and in
/// each column from the top; it takes the `k`-th draw from `word`.
pub open spec fn window_at(x: int, height: int, k: int, word: u64) -> WindowCell {
    let rows = window_rows(height);
    window_cell(x, height, k / rows, k % rows, pick_at(word, k as nat, 4))
}

/// Number of windows in a building of the given width and height.
pub open spec fn window_count(width: int, height: int) -> int {
    window_columns(width) * window_rows(height)
}

/// The windows of a building, in the order of [`window_at`].
pub open spec fn windows_of(x: int, width: int, height: int, word: u64) -> Seq<WindowCell> {
    Seq::new(window_count(width, height) as nat, |k: int| window_at(x, height, k, word))
}

/// A grid of `cols` columns of `rows` windows holds `cols * rows` windows; with
/// one column more it holds `rows` more.
proof fn lemma_grid(cols: int, rows: int)
    requires
        0 <= cols <= 7,
        0 <= rows <= 17,
    ensures
        0 <= cols * rows <= 119,
        (cols + 1) * rows == cols * rows + rows,
{
    assert(0 <= cols * rows <= 119) by (nonlinear_arith)
        requires
            0 <= cols <= 7,
            0 <= rows <= 17,
    ;
    assert((cols + 1) * rows == cols * rows + rows) by (nonlinear_arith);
}

/// The window in column `col` and row `row` of a grid of `rows` rows is the one
/// numbered `done + row`, where `done` counts the windows of the columns before.
proof fn lemma_window_at(x: int, height: int, col: int, row: int, done: int, word: u64)
    requires
        done == col * window_rows(height),
        0 <= row < window_rows(height),
        0 <= col,
    ensures
        window_at(x, height, done + row, word) == window_cell(
            x,
            height,
            col,
            row,
            pick_at(word, (done + row) as nat, 4),
        ),
{
    lemma_fundamental_div_mod_converse(done + row, window_rows(height), col, row);
}

/// The building that stands at `x` for a target height, drawn from `word`: one
/// draw for the width, one for the height, one for the colour, then one for
/// each window.
pub open spec fn building_at(x: int, target: int, word: u64) -> BuildingModel {
    let width = clamped_width(x, pick(word, BASE_WIDTH as int));
    let height = clamped_height(target, pick_at(word, 1, HEIGHT_JITTER as int));
    BuildingModel {
        x,
        y: BOTTOM_LINE - height,
        width,
        height,
        color: palette(pick_at(word, 2, 4)),
        windows: windows_of(x, width, height, word_after(word, 3)),
    }
}

/// Number of draws that a building takes.
pub open spec fn draws_of(b: BuildingModel) -> nat {
    3 + b.windows.len()
}

/// What holds of every building of a skyline: it stands on the bottom line
/// inside the field, is between 8 and 74 wide (under 38 only where it was cut
/// back at the right edge) and between 10 and 260 high, and its roof lies below
/// the roof ceiling.
pub open spec fn building_fits(b: BuildingModel) -> bool {
    &&& FIRST_COLUMN_X <= b.x <= LAST_START_X
    &&& 8 <= b.width <= 2 * BASE_WIDTH
    &&& b.x + b.width <= FIELD_WIDTH
    &&& b.width > BASE_WIDTH || b.x + b.width + BUILDING_GAP == FIELD_WIDTH
    &&& HEIGHT_STEP <= b.height <= 260
    &&& b.y == BOTTOM_LINE - b.height
    &&& b.y > ROOF_CEILING
    &&& b.windows.len() <= 119
}

/// Lays out the windows of a building, drawing each one's colour.
fn make_windows(x: i32, width: i32, height: i32, rng: &mut RandomSource) -> (windows: Vec<WindowCell>)
    requires
        FIRST_COLUMN_X <= x <= LAST_START_X,
        8 <= width <= 2 * BASE_WIDTH,
        HEIGHT_STEP <= height <= 260,
    ensures
        windows@ == windows_of(x as int, width as int, height as int, old(rng)@),
        windows@.len() == window_count(width as int, height as int),
        windows@.len() <= 119,
        final(rng)@ == word_after(old(rng)@, windows@.len()),
{
    let ghost word0 = rng@;
    let ghost rows = window_rows(height as int);
    let ghost cols = window_columns(width as int);
    let mut windows: Vec<WindowCell> = Vec::new();
    let mut c: i32 = x + WINDOW_INSET;
    let ghost mut col: int = 0;
    let ghost mut done: int = 0;
    proof {
        lemma_grid(0, rows);
    }
    while c < x + width - WINDOW_INSET
        invariant
            FIRST_COLUMN_X <= x <= LAST_START_X,
            8 <= width <= 2 * BASE_WIDTH,
            HEIGHT_STEP <= height <= 260,
            rows == window_rows(height as int),
            cols == window_columns(width as int),
            0 <= col <= cols,
            c == x + WINDOW_INSET + WINDOW_PITCH_H * col,
            done == col * rows,
            windows@.len() == done,
            forall|k: int|
                0 <= k < windows@.len() ==> #[trigger] windows@[k] == window_at(
                    x as int,
                    height as int,
                    k,
                    word0,
                ),
            rng@ == word_after(word0, windows@.len()),
        decreases cols - col,
    {
        let mut i: i32 = height - WINDOW_INSET;
        let ghost mut row: int = 0;
        while i >= LOWEST_WINDOW
            invariant
                FIRST_COLUMN_X <= x <= LAST_START_X,
                HEIGHT_STEP <= height <= 260,
                rows == window_rows(height as int),
                0 <= col < cols <= 7,
                0 <= row <= rows,
                c == x + WINDOW_INSET + WINDOW_PITCH_H * col,
                i == height - WINDOW_INSET - WINDOW_PITCH_V * row,
                done == col * rows,
                windows@.len() == done + row,
                forall|k: int|
                    0 <= k < windows@.len() ==> #[trigger] windows@[k] == window_at(
                        x as int,
                        height as int,
                        k,
                        word0,
                    ),
                rng@ == word_after(word0, windows@.len()),
            decreases rows - row,
        {
            let draw = rng.next_in_range(4);
            let color = if draw == 1 {
                WindowColor::Dark
            } else {
                WindowColor::Lit
            };
            proof {
                lemma_window_at(x as int, height as int, col, row, done, word0);
            }
            windows.push(
                WindowCell {
                    x: c,
                    y: BOTTOM_LINE - i,
                    width: WINDOW_WIDTH,
                    height: WINDOW_HEIGHT,
                    color,
                },
            );
            i -= WINDOW_PITCH_V;
            proof {
                row = row + 1;
            }
        }
        c += WINDOW_PITCH_H;
        proof {
            lemma_grid(col, rows);
            done = done + rows;
            col = col + 1;
        }
    }
    proof {
        lemma_grid(cols, rows);
        assert(windows@ =~= windows_of(x as int, width as int, height as int, word0));
    }
    windows
}

/// Raises one building at `x` for a target height.
fn make_building(x: i32, target: i32, rng: &mut RandomSource) -> (b: BuildingColumn)
    requires
        FIRST_COLUMN_X <= x <= LAST_START_X,
        -1000 <= target <= 1000,
    ensures
        b@ == building_at(x as int, target as int, old(rng)@),
        building_fits(b@),
        final(rng)@ == word_after(old(rng)@, draws_of(b@)),
{
    let ghost word0 = rng@;
    let mut width: i32 = rng.next_in_range(BASE_WIDTH) + BASE_WIDTH;
    if x + width > FIELD_WIDTH {
        width = FIELD_WIDTH - x - BUILDING_GAP;
    }
    let mut height: i32 = rng.next_in_range(HEIGHT_JITTER) + target;
    if height < HEIGHT_STEP {
        height = HEIGHT_STEP;
    }
    if BOTTOM_LINE - height <= ROOF_CEILING {
        height = CAPPED_HEIGHT;
    }
    let color = match rng.next_in_range(4) {
        1 => BuildingColor::Purple,
        2 => BuildingColor::Teal,
        3 => BuildingColor::Olive,
        _ => BuildingColor::Slate,
    };
    proof {
        assert(word_after(word0, 1) == stepped_word(word0)) by {
            assert(word_after(word0, 0) == word0);
        }
        assert(word_after(word0, 2) == stepped_word(word_after(word0, 1)));
        assert(word_after(word0, 3) == stepped_word(word_after(word0, 2)));
        assert(rng@ == word_after(word0, 3));
    }
    let windows = make_windows(x, width, height, rng);
    proof {
        lemma_word_after_add(word0, 3, windows@.len());
    }
    BuildingColumn { x, y: BOTTOM_LINE - height, width, height, color, windows }
}

/// Where the generator stands before a building: the next left edge, the target
/// height of the building before, and the word that the next draw starts from.
pub struct PlotState {
    pub x: int,
    pub target: int,
    pub word: u64,
}

/// The slope mode of the skyline drawn from `word`.
pub open spec fn slope_of(word: u64) -> int {
    pick(word, 6)
}

/// The generator's state before the `k`-th building (from 0) of the skyline drawn
/// from `word`. The first draw picks the slope mode.
pub open spec fn plot_state(word: u64, k: nat) -> PlotState
    decreases k,
{
    if k == 0 {
        PlotState {
            x: FIRST_COLUMN_X as int,
            target: slope_start(slope_of(word)),
            word: word_after(word, 1),
        }
    } else {
        let before = plot_state(word, (k - 1) as nat);
        let target = next_target(slope_of(word), before.x, before.target);
        let b = building_at(before.x, target, before.word);
        PlotState {
            x: before.x + b.width + BUILDING_GAP,
            target,
            word: word_after(before.word, draws_of(b)),
        }
    }
}

/// The `k`-th building (from 0) of the skyline drawn from `word`.
pub open spec fn nth_building(word: u64, k: nat) -> BuildingModel {
    let before = plot_state(word, k);
    building_at(before.x, next_target(slope_of(word), before.x, before.target), before.word)
}

/// `s` is the skyline drawn from `word`: building after building for as long as
/// the next left edge is no further right than the last start position.
pub open spec fn is_skyline_of(s: Seq<BuildingModel>, word: u64) -> bool {
    &&& starts_skyline_of(s, word)
    &&& plot_state(word, s.len()).x > LAST_START_X
}

/// The wind drawn from `word`: a base value from -4 to 5, and in one case of
/// three a further draw of 1 to 10 that pushes it away from zero (a base of zero
/// is pushed to the left).
pub open spec fn wind_of(word: u64) -> int {
    let base = pick(word, 10) - 5;
    if pick_at(word, 1, 3) == 1 {
        if base > 0 {
            base + pick_at(word, 2, 10)
        } else {
            base - pick_at(word, 2, 10)
        }
    } else {
        base
    }
}

/// The word that a source holds after drawing the wind from `word`.
pub open spec fn word_past_wind(word: u64) -> u64 {
    if pick_at(word, 1, 3) == 1 {
        word_after(word, 3)
    } else {
        word_after(word, 2)
    }
}

/// The buildings of an executable list, as mathematical values.
pub open spec fn skyline_of(buildings: Seq<BuildingColumn>) -> Seq<BuildingModel> {
    Seq::new(buildings.len(), |i: int| buildings[i]@)
}

/// The buildings stand in a row: the first at the left edge, each one fitting
/// the field, each next one a gap to the right of the one before.
pub open spec fn in_a_row(s: Seq<BuildingModel>) -> bool {
    &&& s.len() > 0 ==> s[0].x == FIRST_COLUMN_X
    &&& forall|i: int| 0 <= i < s.len() ==> building_fits(#[trigger] s[i])
    &&& forall|i: int, j: int|
        0 <= i && j == i + 1 && j < s.len() ==> (#[trigger] s[j]).x == (#[trigger] s[i]).x
            + s[i].width + BUILDING_GAP
}

/// Where the next building of a row would start.
pub open spec fn right_end(s: Seq<BuildingModel>) -> int {
    if s.len() == 0 {
        FIRST_COLUMN_X as int
    } else {
        s.last().x + s.last().width + BUILDING_GAP
    }
}

/// A skyline is well formed: 9 to 16 buildings in a row that reaches the right
/// end of the field.
pub open spec fn skyline_wf(s: Seq<BuildingModel>) -> bool {
    &&& 9 <= s.len() <= 16
    &&& in_a_row(s)
    &&& right_end(s) > LAST_START_X
}

/// The first buildings of the skyline drawn from `word`, with room for more.
pub open spec fn starts_skyline_of(s: Seq<BuildingModel>, word: u64) -> bool {
    forall|k: int|
        0 <= k < s.len() ==> plot_state(word, k as nat).x <= LAST_START_X && #[trigger] s[k]
            == nth_building(word, k as nat)
}

/// A row grows by a fitting building that starts at its right end.
proof fn lemma_row_grows(s: Seq<BuildingModel>, b: BuildingModel)
    requires
        in_a_row(s),
        building_fits(b),
        b.x == right_end(s),
    ensures
        in_a_row(s.push(b)),
        right_end(s.push(b)) == b.x + b.width + BUILDING_GAP,
{
    let t = s.push(b);
    assert forall|i: int| 0 <= i < t.len() implies building_fits(#[trigger] t[i]) by {
        if i < s.len() {
            assert(t[i] == s[i]);
        }
    }
    assert forall|i: int, j: int| 0 <= i && j == i + 1 && j < t.len() implies (#[trigger] t[j]).x
        == (#[trigger] t[i]).x + t[i].width + BUILDING_GAP by {
        assert(t[i] == s[i]);
        if j < s.len() {
            assert(t[j] == s[j]);
        }
    }
}

/// The start of a skyline grows by the building that comes next in it.
proof fn lemma_start_grows(s: Seq<BuildingModel>, b: BuildingModel, word: u64)
    requires
        starts_skyline_of(s, word),
        plot_state(word, s.len()).x <= LAST_START_X,
        b == nth_building(word, s.len()),
    ensures
        starts_skyline_of(s.push(b), word),
{
    let t = s.push(b);
    assert forall|k: int| 0 <= k < t.len() implies plot_state(word, k as nat).x <= LAST_START_X
        && #[trigger] t[k] == nth_building(word, k as nat) by {
        if k < s.len() {
            assert(t[k] == s[k]);
        }
    }
}

/// What the generator has built so far: the start of the skyline drawn from
/// `word`, standing in a row, with its column index.
#[verifier::opaque]
spec fn under_way(s: Seq<BuildingModel>, word: u64, index: Seq<XYPoint>) -> bool {
    &&& starts_skyline_of(s, word)
    &&& in_a_row(s)
    &&& index == index_of(s)
}

/// Nothing built yet.
proof fn lemma_under_way_empty(word: u64)
    ensures
        under_way(Seq::empty(), word, index_of(Seq::empty())),
        plot_state(word, 0) == (PlotState {
            x: FIRST_COLUMN_X as int,
            target: slope_start(slope_of(word)),
            word: stepped_word(word),
        }),
{
    reveal(under_way);
    assert(word_after(word, 1) == stepped_word(word)) by {
        assert(word_after(word, 0) == word);
    }
}

/// One more building: the state of the generator moves on by it, and the row
/// and its index grow by it.
proof fn lemma_under_way_grows(
    s: Seq<BuildingModel>,
    word: u64,
    index: Seq<XYPoint>,
    before: PlotState,
    b: BuildingModel,
)
    requires
        under_way(s, word, index),
        s.len() + 1 < INDEX_SLOTS,
        plot_state(word, s.len()) == before,
        before.x == right_end(s),
        before.x <= LAST_START_X,
        b == building_at(
            before.x,
            next_target(slope_of(word), before.x, before.target),
            before.word,
        ),
        building_fits(b),
    ensures
        under_way(
            s.push(b),
            word,
            index.update(s.len() as int + 1, XYPoint { x_coor: b.x as i32, y_coor: b.y as i32 }),
        ),
        plot_state(word, s.len() + 1) == (PlotState {
            x: before.x + b.width + BUILDING_GAP,
            target: next_target(slope_of(word), before.x, before.target),
            word: word_after(before.word, draws_of(b)),
        }),
        right_end(s.push(b)) == before.x + b.width + BUILDING_GAP,
{
    reveal(under_way);
    assert(b.x == before.x);
    lemma_row_grows(s, b);
    lemma_start_grows(s, b, word);
    lemma_index_grows(s, b);
}

/// When the next building would start past the last start position, what was
/// built is the whole skyline.
proof fn lemma_under_way_done(s: Seq<BuildingModel>, word: u64, index: Seq<XYPoint>)
    requires
        under_way(s, word, index),
        9 <= s.len() <= 16,
        plot_state(word, s.len()).x > LAST_START_X,
        right_end(s) > LAST_START_X,
    ensures
        skyline_wf(s),
        is_skyline_of(s, word),
        index == index_of(s),
{
    reveal(under_way);
}

/// The model of a list with one more building is the model of the list with the
/// model of that building added.
proof fn lemma_skyline_push(buildings: Seq<BuildingColumn>, b: BuildingColumn)
    ensures
        skyline_of(buildings.push(b)) == skyline_of(buildings).push(b@),
{
    assert(skyline_of(buildings.push(b)) =~= skyline_of(buildings).push(b@));
}

/// Recording a new building in its slot gives the index of the longer row.
proof fn lemma_index_grows(s: Seq<BuildingModel>, b: BuildingModel)
    requires
        s.len() + 1 < INDEX_SLOTS,
        i32::MIN <= b.x <= i32::MAX,
        i32::MIN <= b.y <= i32::MAX,
    ensures
        index_of(s).update(
            s.len() as int + 1,
            XYPoint { x_coor: b.x as i32, y_coor: b.y as i32 },
        ) =~= index_of(s.push(b)),
{
}

/// What slot `i` of the column index holds for a skyline: the left edge and roof
/// line of building `i - 1`, and zeros in slot 0 and in the slots past the last
/// building.
pub open spec fn index_slot(s: Seq<BuildingModel>, i: int) -> XYPoint {
    if 1 <= i <= s.len() {
        XYPoint { x_coor: s[i - 1].x as i32, y_coor: s[i - 1].y as i32 }
    } else {
        XYPoint { x_coor: 0, y_coor: 0 }
    }
}

/// The column index of a skyline.
pub open spec fn index_of(s: Seq<BuildingModel>) -> Seq<XYPoint> {
    Seq::new(INDEX_SLOTS as nat, |i: int| index_slot(s, i))
}

/// The skyline of one round with its column index and wind.
#[derive(Clone, Debug, PartialEq, Eq)]
pub struct Cityscape {
    /// The buildings from left to right.
    pub buildings: Vec<BuildingColumn>,
    /// Left edge and roof line of each building, building `i` in slot `i + 1`.
    pub column_index: Vec<XYPoint>,
    /// Slot of the last building in the column index.
    pub last_building: usize,
    /// Wind, positive to the right.
    pub wind: i32,
}

impl Cityscape {
    /// The buildings as mathematical values.
    pub open spec fn skyline(&self) -> Seq<BuildingModel> {
        skyline_of(self.buildings@)
    }

    /// The skyline is well formed, the column index agrees with it, and the wind
    /// is in range.
    pub open spec fn wf(&self) -> bool {
        &&& skyline_wf(self.skyline())
        &&& self.column_index@ == index_of(self.skyline())
        &&& self.last_building == self.buildings@.len()
        &&& -14 <= self.wind <= 15
    }

    /// This is the cityscape that a source holding `word` generates.
    pub open spec fn generated_from(&self, word: u64) -> bool {
        &&& is_skyline_of(self.skyline(), word)
        &&& self.wind == wind_of(plot_state(word, self.buildings@.len()).word)
    }

    /// The word that a source holds after generating this cityscape from `word`.
    pub open spec fn word_past(&self, word: u64) -> u64 {
        word_past_wind(plot_state(word, self.buildings@.len()).word)
    }
}

/// An index of [`INDEX_SLOTS`] zeroed slots.
pub fn empty_index() -> (index: Vec<XYPoint>)
    ensures
        index@ == index_of(Seq::<BuildingModel>::empty()),
{
    let mut index: Vec<XYPoint> = Vec::new();
    while index.len() < INDEX_SLOTS
        invariant
            index@.len() <= INDEX_SLOTS,
            forall|i: int| 0 <= i < index@.len() ==> index@[i] == (XYPoint { x_coor: 0, y_coor: 0 }),
        decreases INDEX_SLOTS - index@.len(),
    {
        index.push(XYPoint { x_coor: 0, y_coor: 0 });
    }
    assert(index@ =~= index_of(Seq::<BuildingModel>::empty()));
    index
}

/// Draws the wind.
fn draw_wind(rng: &mut RandomSource) -> (wind: i32)
    ensures
        wind == wind_of(old(rng)@),
        -14 <= wind <= 15,
        final(rng)@ == word_past_wind(old(rng)@),
{
    let ghost word0 = rng@;
    proof {
        assert(word_after(word0, 1) == stepped_word(word0)) by {
            assert(word_after(word0, 0) == word0);
        }
        assert(word_after(word0, 2) == stepped_word(word_after(word0, 1)));
        assert(word_after(word0, 3) == stepped_word(word_after(word0, 2)));
    }
    let mut wind: i32 = rng.next_in_range(10) - 5;
    if rng.next_in_range(3) == 1 {
        if wind > 0 {
            wind += rng.next_in_range(10);
        } else {
            wind -= rng.next_in_range(10);
        }
    }
    wind
}

/// Generates the cityscape of one round: picks a slope mode, raises building
/// after building from the left edge to the right end of the field, records each
/// in the column index, and draws the wind.
///
/// The result is well formed whatever is drawn, and it is fixed by the word that
/// the source holds: two sources holding the same word generate the same
/// cityscape.
pub fn generate_cityscape(rng: &mut RandomSource) -> (city: Cityscape)
    ensures
        city.wf(),
        city.generated_from(old(rng)@),
        final(rng)@ == city.word_past(old(rng)@),
{
    let ghost word0 = rng@;
    let mut x: i32 = FIRST_COLUMN_X;
    let slope = rng.next_in_range(6);
    let mut new_ht: i32 = match slope {
        1 => 15,
        2 => 130,
        3..=5 => 15,
        _ => 130,
    };
    let mut cur_building: usize = 1;
    let mut buildings: Vec<BuildingColumn> = Vec::new();
    let mut column_index = empty_index();
    let ghost mut sky: Seq<BuildingModel> = Seq::empty();
    proof {
        lemma_under_way_empty(word0);
        assert(skyline_of(buildings@) =~= sky);
    }
    while x <= LAST_START_X
        invariant
            slope == slope_of(word0),
            1 <= slope <= 6,
            sky == skyline_of(buildings@),
            cur_building == sky.len() + 1,
            sky.len() <= 16,
            column_index@.len() == INDEX_SLOTS,
            x <= LAST_START_X ==> FIRST_COLUMN_X + 40 * sky.len() <= x,
            x <= FIRST_COLUMN_X + 76 * sky.len(),
            x <= 706,
            -20 * sky.len() <= new_ht <= 130 + 20 * sky.len(),
            plot_state(word0, sky.len()) == (PlotState {
                x: x as int,
                target: new_ht as int,
                word: rng@,
            }),
            x == right_end(sky),
            under_way(sky, word0, column_index@),
        decreases 706 - x,
    {
        let ghost before = plot_state(word0, sky.len());
        match slope {
            1 => {
                new_ht += HEIGHT_STEP;
            },
            2 => {
                new_ht -= HEIGHT_STEP;
            },
            3..=5 => {
                if x > FIELD_WIDTH / 2 {
                    new_ht -= 2 * HEIGHT_STEP;
                } else {
                    new_ht += 2 * HEIGHT_STEP;
                }
            },
            _ => {
                if x > FIELD_WIDTH / 2 {
                    new_ht += 2 * HEIGHT_STEP;
                } else {
                    new_ht -= 2 * HEIGHT_STEP;
                }
            },
        }
        assert(new_ht == next_target(slope as int, before.x, before.target));
        let building = make_building(x, new_ht, rng);
        proof {
            lemma_under_way_grows(sky, word0, column_index@, before, building@);
        }
        if cur_building < column_index.len() {
            column_index.set(cur_building, XYPoint { x_coor: x, y_coor: building.y });
        }
        x += building.width + BUILDING_GAP;
        cur_building += 1;
        proof {
            lemma_skyline_push(buildings@, building);
            sky = sky.push(building@);
        }
        buildings.push(building);
    }
    proof {
        lemma_under_way_done(sky, word0, column_index@);
    }
    let wind = draw_wind(rng);
    Cityscape { buildings, column_index, last_building: cur_building - 1, wind }
}

/// In a well-formed skyline every building lies wholly to the left of every
/// later one, and every roof lies below the sun's band and its margin.
pub proof fn lemma_buildings_apart(s: Seq<BuildingModel>, i: int, j: int)
    requires
        skyline_wf(s),
        0 <= i < j < s.len(),
    ensures
        s[i].x < s[j].x,
        s[i].x + s[i].width < s[j].x,
        s[i].y > ROOF_CEILING,
        s[j].y > ROOF_CEILING,
    decreases j - i,
{
    assert(building_fits(s[i]));
    assert(building_fits(s[j]));
    if j > i + 1 {
        lemma_buildings_apart(s, i, j - 1);
        assert(building_fits(s[j - 1]));
        assert(s[j].x == s[j - 1].x + s[j - 1].width + BUILDING_GAP);
    } else {
        assert(s[j].x == s[i].x + s[i].width + BUILDING_GAP);
    }
}

/// Every slot of a well-formed skyline's column index lies in the field: a used
/// slot holds a left edge from the first column's to the last start position
/// and a roof line below the roof ceiling, an unused one zeros.
pub proof fn lemma_index_in_field(s: Seq<BuildingModel>)
    requires
        skyline_wf(s),
    ensures
        forall|i: int|
            0 <= i < INDEX_SLOTS ==> 0 <= (#[trigger] index_of(s)[i]).x_coor <= LAST_START_X && 0
                <= index_of(s)[i].y_coor <= BOTTOM_LINE - HEIGHT_STEP,
        forall|i: int|
            1 <= i <= s.len() ==> (#[trigger] index_of(s)[i]).x_coor == s[i - 1].x && index_of(
                s,
            )[i].y_coor == s[i - 1].y && s[i - 1].y > ROOF_CEILING,
{
    assert forall|i: int| 0 <= i < INDEX_SLOTS implies 0 <= (#[trigger] index_of(s)[i]).x_coor
        <= LAST_START_X && 0 <= index_of(s)[i].y_coor <= BOTTOM_LINE - HEIGHT_STEP by {
        if 1 <= i <= s.len() {
            assert(building_fits(s[i - 1]));
        }
    }
    assert forall|i: int| 1 <= i <= s.len() implies (#[trigger] index_of(s)[i]).x_coor == s[i
        - 1].x && index_of(s)[i].y_coor == s[i - 1].y && s[i - 1].y > ROOF_CEILING by {
        assert(building_fits(s[i - 1]));
    }
}

/// The word fixes the skyline: two skylines drawn from one word are equal.
pub proof fn lemma_skyline_determined(a: Seq<BuildingModel>, b: Seq<BuildingModel>, word: u64)
    requires
        is_skyline_of(a, word),
        is_skyline_of(b, word),
    ensures
        a == b,
{
    if a.len() < b.len() {
        assert(b[a.len() as int] == nth_building(word, a.len()));
        assert(false);
    }
    if b.len() < a.len() {
        assert(a[b.len() as int] == nth_building(word, b.len()));
        assert(false);
    }
    assert(a =~= b);
}

/// The word fixes the whole cityscape: two well-formed cityscapes generated from
/// one word have the same buildings, column index, last column and wind, and
/// leave the source holding the same word.
pub proof fn lemma_cityscape_determined(a: Cityscape, b: Cityscape, word: u64)
    requires
        a.wf(),
        b.wf(),
        a.generated_from(word),
        b.generated_from(word),
    ensures
        a.skyline() == b.skyline(),
        a.column_index@ == b.column_index@,
        a.last_building == b.last_building,
        a.wind == b.wind,
        a.word_past(word) == b.word_past(word),
{
    lemma_skyline_determined(a.skyline(), b.skyline(), word);
    assert(a.buildings@.len() == a.skyline().len());
    assert(b.buildings@.len() == b.skyline().len());
}

} // verus!
