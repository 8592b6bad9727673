//! The match: its phases from the intro to the question of a rematch, the
//! rounds with their turns, the score, and the step that one tick takes.

use crate::cityscape::{generate_cityscape, index_of, lemma_cityscape_determined};
use crate::numeric::{
    angle_from, decimal_or, gravity_from, gravity_of, rounds_from, rounds_of, velocity_from,
    DEFAULT_ANGLE, DEFAULT_ROUNDS, DEFAULT_VELOCITY,
};
use crate::random::{word_after, RandomSource};
use crate::round::{
    first_column, place_gorillas, second_column, standing_on, Player, Position, RoundState,
    DEFAULT_GRAVITY, MICRO,
};
use crate::shot::{plot_shot, plotted, LaunchVector, ShotOutcome, ShotPhase, ShotState};
use crate::text::{
    copy_text, delete_last, first_default, first_default_name, name_from, name_of,
    number_typed, second_default, second_default_name, setup_typed, type_into_number,
    type_into_setup, without_last, FIELD_LIMIT,
};
use vstd::prelude::*;

verus! {

/// The victory dance ends when its frame count passes this.
pub const VICTORY_FRAMES: u32 = 8;

/// Milliseconds between two frames of the victory dance.
pub const VICTORY_INTERVAL: u64 = 200;

/// The demonstration ends when its frame count passes this.
pub const DEMO_FRAMES: u32 = 16;

/// Milliseconds between two frames of the demonstration.
pub const DEMO_INTERVAL: u64 = 300;

/// Half a turn in thousandths of a degree: the second player's angle is
/// mirrored at it.
pub const HALF_TURN: i64 = 180_000;

/// A building explodes this far right of and below the projectile, in field units.
pub const BLAST_OFFSET: i64 = 4;

/// The phases of a match.
#[derive(Clone, Copy, Debug, PartialEq, Eq, Structural)]
pub enum GamePhase {
    Intro,
    GetInputs,
    GorillaIntro,
    Playing,
    GameOver,
    PlayAgain,
}

/// The fields of the setup form, in the order in which they are filled.
#[derive(Clone, Copy, Debug, PartialEq, Eq, Structural)]
pub enum InputField {
    Player1Name,
    Player2Name,
    NumGames,
    Gravity,
    ViewOrPlay,
}

/// The keys that the game tells apart.
#[derive(Clone, Copy, Debug, PartialEq, Eq, Structural)]
pub enum Key {
    Enter,
    Backspace,
    V,
    P,
    Y,
    N,
    Other,
}

/// What one tick is given.
#[derive(Clone, Debug, PartialEq, Eq)]
pub struct TickInput {
    /// The request to end the session.
    pub quit: bool,
    /// The key pressed since the last tick, if any.
    pub key: Option<Key>,
    /// Whether the mouse was clicked since the last tick.
    pub mouse_click: bool,
    /// The characters typed since the last tick, in order.
    pub typed: Vec<char>,
    /// A clock that never runs backwards, in milliseconds.
    pub now: u64,
    /// The velocity of the current shot along the field's axes.
    pub launch: LaunchVector,
}

/// What the caller is to do after a tick.
#[derive(Clone, Copy, Debug, PartialEq, Eq, Structural)]
pub enum TickAction {
    /// Go on with the next tick.
    Continue,
    /// Show an explosion at the position, in millionths of a field unit, and
    /// go on.
    Explode { x: i128, y: i128 },
    /// End the session.
    Quit,
}

/// Names, score and progress of a match.
#[derive(Clone, Debug, PartialEq, Eq)]
pub struct MatchState {
    pub player1_name: Vec<char>,
    pub player2_name: Vec<char>,
    /// Number of rounds that decide the match.
    pub num_games: i32,
    /// Rounds won by the first player.
    pub wins_first: i32,
    /// Rounds won by the second player.
    pub wins_second: i32,
    /// Number of rounds decided so far.
    pub current_game: i32,
    /// Whose turn it is.
    pub current_player: Player,
}

impl MatchState {
    /// The rounds won by a player.
    pub open spec fn wins(&self, player: Player) -> int {
        match player {
            Player::First => self.wins_first as int,
            Player::Second => self.wins_second as int,
        }
    }

    /// A match before its setup: default names, three rounds, nothing won.
    pub open spec fn is_fresh(&self) -> bool {
        &&& self.player1_name@ == first_default_name()
        &&& self.player2_name@ == second_default_name()
        &&& self.num_games == DEFAULT_ROUNDS
        &&& self.wins_first == 0
        &&& self.wins_second == 0
        &&& self.current_game == 0
        &&& self.current_player == Player::First
    }

    /// A match before its setup.
    pub fn new() -> (m: MatchState)
        ensures
            m.is_fresh(),
    {
        MatchState {
            player1_name: first_default(),
            player2_name: second_default(),
            num_games: DEFAULT_ROUNDS,
            wins_first: 0,
            wins_second: 0,
            current_game: 0,
            current_player: Player::First,
        }
    }
}

/// The setup form: the field being filled, what is typed into it, and what the
/// fields before it were given.
#[derive(Clone, Debug, PartialEq, Eq)]
pub struct SetupForm {
    pub field: InputField,
    pub buffer: Vec<char>,
    pub player1_input: Vec<char>,
    pub player2_input: Vec<char>,
    pub games_input: Vec<char>,
    pub gravity_input: Vec<char>,
}

impl SetupForm {
    /// An empty form at its first field.
    pub open spec fn is_fresh(&self) -> bool {
        &&& self.field == InputField::Player1Name
        &&& self.buffer@.len() == 0
        &&& self.player1_input@.len() == 0
        &&& self.player2_input@.len() == 0
        &&& self.games_input@.len() == 0
        &&& self.gravity_input@.len() == 0
    }

    /// An empty form at its first field.
    pub fn new() -> (form: SetupForm)
        ensures
            form.is_fresh(),
    {
        SetupForm {
            field: InputField::Player1Name,
            buffer: Vec::new(),
            player1_input: Vec::new(),
            player2_input: Vec::new(),
            games_input: Vec::new(),
            gravity_input: Vec::new(),
        }
    }
}

/// The victory dance after a round was decided.
#[derive(Clone, Copy, Debug, PartialEq, Eq, Structural)]
pub struct Victory {
    pub showing: bool,
    pub frame: u32,
    /// When the current frame began.
    pub timer: u64,
    pub winner: Player,
}

/// The demonstration that can be watched before a match.
#[derive(Clone, Copy, Debug, PartialEq, Eq, Structural)]
pub struct Demo {
    pub showing: bool,
    pub frame: u32,
    /// When the current frame began.
    pub timer: u64,
}

/// The whole state of the game.
#[derive(Clone, Debug, PartialEq, Eq)]
pub struct Game {
    pub phase: GamePhase,
    pub match_state: MatchState,
    pub round: RoundState,
    pub shot: ShotState,
    pub setup: SetupForm,
    pub victory: Victory,
    pub demo: Demo,
}

/// More than `interval` milliseconds have passed since `timer`.
pub open spec fn elapsed(now: u64, timer: u64, interval: u64) -> bool {
    now - timer > interval
}

/// A shot that waits for its angle.
pub open spec fn shot_fresh(shot: ShotState) -> bool {
    &&& shot.phase == ShotPhase::InputAngle
    &&& shot.angle == 0
    &&& shot.velocity == 0
    &&& shot.angle_input@.len() == 0
    &&& shot.velocity_input@.len() == 0
    &&& shot.steps == 0
    &&& shot.outcome == ShotOutcome::Pending
    &&& shot.x == 0
    &&& shot.y == 0
}

/// `post` is a round newly set up under `gravity` by a source that held `word0`
/// and holds `word1` after it: the cityscape was generated from `word0` and the
/// characters were placed with the two draws that follow.
#[verifier::opaque]
pub open spec fn round_started(gravity: i64, post: RoundState, word0: u64, word1: u64) -> bool {
    let last = post.city.last_building as int;
    let placing = post.city.word_past(word0);
    &&& post.wf()
    &&& post.cityscape_generated
    &&& post.gravity == gravity
    &&& post.city.generated_from(word0)
    &&& post.first == standing_on(post.index(), last, first_column(placing))
    &&& post.second == standing_on(post.index(), last, second_column(placing, last))
    &&& word1 == word_after(placing, 2)
}

/// The angle as the throw uses it: as typed for the first player, mirrored at
/// half a turn for the second.
pub open spec fn mirrored(angle: int, player: Player) -> int {
    match player {
        Player::First => angle,
        Player::Second => HALF_TURN - angle,
    }
}

/// The player who wins the round when `hit`'s character was hit on `shooter`'s
/// turn: the shooter, unless the shooter's own character was hit.
pub open spec fn round_winner(shooter: Player, hit: Player) -> Player {
    if hit == shooter {
        shooter.opponent()
    } else {
        shooter
    }
}

impl Game {
    /// The parts are well formed and the counts agree with the phase:
    ///
    /// - while a round is played, a cityscape stands, fewer rounds are decided
    ///   than decide the match, and the wins add up to the rounds decided,
    ///   with one more during the victory dance;
    /// - once the match is over, as many rounds are decided as decide the
    ///   match, and the wins add up to them;
    /// - the victory dance shows only while a round is played, the
    ///   demonstration only before the match.
    pub open spec fn wf(&self) -> bool {
        &&& self.round.wf()
        &&& self.shot.wf()
        &&& self.match_state.num_games >= 1
        &&& self.match_state.wins_first >= 0
        &&& self.match_state.wins_second >= 0
        &&& self.setup.buffer@.len() <= FIELD_LIMIT
        &&& self.victory.frame <= VICTORY_FRAMES + 1
        &&& self.victory.showing ==> self.phase == GamePhase::Playing && self.victory.frame
            <= VICTORY_FRAMES
        &&& self.demo.frame <= DEMO_FRAMES
        &&& self.demo.showing ==> self.phase == GamePhase::GorillaIntro
        &&& self.phase == GamePhase::Playing ==> {
            &&& self.round.cityscape_generated
            &&& 0 <= self.match_state.current_game < self.match_state.num_games
            &&& self.match_state.wins_first + self.match_state.wins_second
                == self.match_state.current_game + if self.victory.showing {
                1int
            } else {
                0int
            }
        }
        &&& self.phase == GamePhase::GameOver ==> {
            &&& self.match_state.current_game == self.match_state.num_games
            &&& self.match_state.wins_first + self.match_state.wins_second
                == self.match_state.num_games
        }
    }

    /// The game reads what is typed: in the setup form, and in a round while an
    /// angle or a speed is typed and no victory dance shows.
    pub open spec fn takes_text(&self) -> bool {
        match self.phase {
            GamePhase::GetInputs => true,
            GamePhase::Playing => !self.victory.showing && (self.shot.phase
                == ShotPhase::InputAngle || self.shot.phase == ShotPhase::InputVelocity),
            _ => false,
        }
    }

    /// Whether the next tick reads what is typed. Where it does not, the caller
    /// may keep typed characters back for a later tick.
    pub fn reads_text(&self) -> (reads: bool)
        ensures
            reads == self.takes_text(),
    {
        match self.phase {
            GamePhase::GetInputs => true,
            GamePhase::Playing => {
                if self.victory.showing {
                    false
                } else {
                    match self.shot.phase {
                        ShotPhase::InputAngle => true,
                        ShotPhase::InputVelocity => true,
                        _ => false,
                    }
                }
            },
            _ => false,
        }
    }

    /// A game at its intro.
    pub fn new() -> (game: Game)
        ensures
            game.wf(),
            game.phase == GamePhase::Intro,
            game.match_state.is_fresh(),
            game.setup.is_fresh(),
            shot_fresh(game.shot),
            round_fresh(game.round),
            game.victory == (Victory { showing: false, frame: 0, timer: 0, winner: Player::First }),
            game.demo == (Demo { showing: false, frame: 0, timer: 0 }),
    {
        Game {
            phase: GamePhase::Intro,
            match_state: MatchState::new(),
            round: RoundState::new(DEFAULT_GRAVITY),
            shot: ShotState::new(),
            setup: SetupForm::new(),
            victory: Victory { showing: false, frame: 0, timer: 0, winner: Player::First },
            demo: Demo { showing: false, frame: 0, timer: 0 },
        }
    }
}

/// Sets up a new round: forgets the old cityscape, generates a new one and
/// places the characters on it.
pub fn start_round(round: &mut RoundState, rng: &mut RandomSource)
    requires
        old(round).wf(),
    ensures
        round_started(old(round).gravity, *final(round), old(rng)@, final(rng)@),
        final(round).wf(),
        final(round).cityscape_generated,
        final(round).sun_hit == old(round).sun_hit,
{
    reveal(round_started);
    round.reset_cityscape();
    round.city = generate_cityscape(rng);
    place_gorillas(round, rng);
}

/// Whether more than `interval` milliseconds have passed since `timer`.
fn has_elapsed(now: u64, timer: u64, interval: u64) -> (r: bool)
    ensures
        r == elapsed(now, timer, interval),
{
    now > timer && now - timer > interval
}

/// Everything but the setup form's buffer and the phase is as before.
pub open spec fn kept_but_buffer(pre: Game, post: Game) -> bool {
    &&& post.setup.field == pre.setup.field
    &&& post.setup.player1_input == pre.setup.player1_input
    &&& post.setup.player2_input == pre.setup.player2_input
    &&& post.setup.games_input == pre.setup.games_input
    &&& post.setup.gravity_input == pre.setup.gravity_input
    &&& post.match_state == pre.match_state
    &&& post.round == pre.round
    &&& post.shot == pre.shot
    &&& post.victory == pre.victory
    &&& post.demo == pre.demo
}

/// The intro ends with any key or a click; the setup form then starts with an
/// empty buffer.
pub open spec fn intro_step(pre: Game, post: Game, input: TickInput) -> bool {
    if input.key.is_some() || input.mouse_click {
        &&& post.phase == GamePhase::GetInputs
        &&& post.setup.buffer@ == Seq::<char>::empty()
        &&& kept_but_buffer(pre, post)
    } else {
        post == pre
    }
}

/// The field that follows a field of the setup form.
pub open spec fn next_field(field: InputField) -> InputField {
    match field {
        InputField::Player1Name => InputField::Player2Name,
        InputField::Player2Name => InputField::NumGames,
        InputField::NumGames => InputField::Gravity,
        InputField::Gravity => InputField::ViewOrPlay,
        InputField::ViewOrPlay => InputField::ViewOrPlay,
    }
}

/// The buffer of the setup form after a key: the enter key empties it in the
/// fields for the names and the number of rounds, the delete key takes its
/// last character away.
pub open spec fn buffer_after_key(form: SetupForm, key: Option<Key>) -> Seq<char> {
    match key {
        Some(Key::Enter) => match form.field {
            InputField::Gravity | InputField::ViewOrPlay => form.buffer@,
            _ => Seq::<char>::empty(),
        },
        Some(Key::Backspace) => without_last(form.buffer@),
        _ => form.buffer@,
    }
}

/// One tick of the setup form. The enter key gives the buffer to the field
/// being filled and moves on to the next field: a name is cut to its limit or
/// defaulted, the number of rounds and gravity are read with their defaults.
/// With gravity entered the names go to the match and the phase moves on. What
/// was typed in this tick goes into the buffer after the key was handled.
pub open spec fn setup_step(pre: Game, post: Game, input: TickInput) -> bool {
    let text = pre.setup.buffer@;
    let field = pre.setup.field;
    let entered = input.key == Some(Key::Enter);
    &&& post.setup.buffer@ == setup_typed(buffer_after_key(pre.setup, input.key), input.typed@)
    &&& post.setup.field == if entered {
        next_field(field)
    } else {
        field
    }
    &&& post.setup.player1_input@ == if entered && field == InputField::Player1Name {
        name_of(text, first_default_name())
    } else {
        pre.setup.player1_input@
    }
    &&& post.setup.player2_input@ == if entered && field == InputField::Player2Name {
        name_of(text, second_default_name())
    } else {
        pre.setup.player2_input@
    }
    &&& post.setup.games_input@ == if entered && field == InputField::NumGames {
        text
    } else {
        pre.setup.games_input@
    }
    &&& post.setup.gravity_input@ == if entered && field == InputField::Gravity {
        text
    } else {
        pre.setup.gravity_input@
    }
    &&& post.match_state.num_games == if entered && field == InputField::NumGames {
        rounds_of(text)
    } else {
        pre.match_state.num_games as int
    }
    &&& post.round.gravity == if entered && field == InputField::Gravity {
        gravity_of(text)
    } else {
        pre.round.gravity as int
    }
    &&& post.match_state.player1_name@ == if entered && field == InputField::Gravity {
        pre.setup.player1_input@
    } else {
        pre.match_state.player1_name@
    }
    &&& post.match_state.player2_name@ == if entered && field == InputField::Gravity {
        pre.setup.player2_input@
    } else {
        pre.match_state.player2_name@
    }
    &&& post.phase == if entered && field == InputField::Gravity {
        GamePhase::GorillaIntro
    } else {
        pre.phase
    }
    &&& post.match_state.wins_first == pre.match_state.wins_first
    &&& post.match_state.wins_second == pre.match_state.wins_second
    &&& post.match_state.current_game == pre.match_state.current_game
    &&& post.match_state.current_player == pre.match_state.current_player
    &&& post.round.city == pre.round.city
    &&& post.round.cityscape_generated == pre.round.cityscape_generated
    &&& post.round.sun_hit == pre.round.sun_hit
    &&& post.round.first == pre.round.first
    &&& post.round.second == pre.round.second
    &&& post.shot == pre.shot
    &&& post.victory == pre.victory
    &&& post.demo == pre.demo
}

/// A match starts: nothing is decided or won, the first player has the turn,
/// the shot waits for its angle, and a new round is set up. Names, the number
/// of rounds, gravity, the setup form and the victory dance are as before.
pub open spec fn match_started(pre: Game, post: Game, word0: u64, word1: u64) -> bool {
    &&& post.phase == GamePhase::Playing
    &&& post.match_state.current_game == 0
    &&& post.match_state.wins_first == 0
    &&& post.match_state.wins_second == 0
    &&& post.match_state.current_player == Player::First
    &&& post.match_state.num_games == pre.match_state.num_games
    &&& post.match_state.player1_name == pre.match_state.player1_name
    &&& post.match_state.player2_name == pre.match_state.player2_name
    &&& shot_fresh(post.shot)
    &&& round_started(pre.round.gravity, post.round, word0, word1)
    &&& post.round.sun_hit == pre.round.sun_hit
    &&& post.setup == pre.setup
    &&& post.victory == pre.victory
}

/// Everything but the demonstration is as before.
pub open spec fn kept_but_demo(pre: Game, post: Game) -> bool {
    &&& post.phase == pre.phase
    &&& post.match_state == pre.match_state
    &&& post.round == pre.round
    &&& post.shot == pre.shot
    &&& post.setup == pre.setup
    &&& post.victory == pre.victory
}

/// One tick before the match. While the choice is open, `V` starts the
/// demonstration and `P` the match. The demonstration moves on by one frame
/// whenever its interval has passed, and the match starts when its frame count
/// passes the last frame.
pub open spec fn demo_step(pre: Game, post: Game, input: TickInput, word0: u64, word1: u64) -> bool {
    if !pre.demo.showing {
        match input.key {
            Some(Key::V) => {
                &&& post.demo == (Demo { showing: true, frame: pre.demo.frame, timer: input.now })
                &&& kept_but_demo(pre, post)
                &&& word1 == word0
            },
            Some(Key::P) => {
                &&& post.demo == pre.demo
                &&& match_started(pre, post, word0, word1)
            },
            _ => post == pre && word1 == word0,
        }
    } else {
        let ticked = elapsed(input.now, pre.demo.timer, DEMO_INTERVAL);
        let frame = if ticked {
            pre.demo.frame + 1
        } else {
            pre.demo.frame as int
        };
        let timer = if ticked {
            input.now
        } else {
            pre.demo.timer
        };
        if frame > DEMO_FRAMES {
            &&& post.demo == (Demo { showing: false, frame: 0, timer })
            &&& match_started(pre, post, word0, word1)
        } else {
            &&& post.demo == (Demo { showing: true, frame: frame as u32, timer })
            &&& kept_but_demo(pre, post)
            &&& word1 == word0
        }
    }
}

/// Names, the number of rounds and the wins are as before.
pub open spec fn score_kept(pre: MatchState, post: MatchState) -> bool {
    &&& post.player1_name == pre.player1_name
    &&& post.player2_name == pre.player2_name
    &&& post.num_games == pre.num_games
    &&& post.wins_first == pre.wins_first
    &&& post.wins_second == pre.wins_second
}

/// One tick of the victory dance. It moves on by one frame whenever its
/// interval has passed. When its frame count passes the last frame, the round
/// counts as decided: with as many rounds decided as decide the match, the
/// match is over; else a new round is set up, with the first player to throw.
pub open spec fn victory_step(pre: Game, post: Game, input: TickInput, word0: u64, word1: u64) -> bool {
    let ticked = elapsed(input.now, pre.victory.timer, VICTORY_INTERVAL);
    let frame = if ticked {
        pre.victory.frame + 1
    } else {
        pre.victory.frame as int
    };
    let timer = if ticked {
        input.now
    } else {
        pre.victory.timer
    };
    &&& post.setup == pre.setup
    &&& post.demo == pre.demo
    &&& score_kept(pre.match_state, post.match_state)
    &&& if frame > VICTORY_FRAMES {
        &&& post.victory == (Victory {
            showing: false,
            frame: frame as u32,
            timer,
            winner: pre.victory.winner,
        })
        &&& post.match_state.current_game == pre.match_state.current_game + 1
        &&& if pre.match_state.current_game + 1 >= pre.match_state.num_games {
            &&& post.phase == GamePhase::GameOver
            &&& post.match_state.current_player == pre.match_state.current_player
            &&& post.round == pre.round
            &&& post.shot == pre.shot
            &&& word1 == word0
        } else {
            &&& post.phase == GamePhase::Playing
            &&& post.match_state.current_player == Player::First
            &&& shot_fresh(post.shot)
            &&& round_started(pre.round.gravity, post.round, word0, word1)
            &&& !post.round.sun_hit
        }
    } else {
        &&& post.victory == (Victory {
            showing: true,
            frame: frame as u32,
            timer,
            winner: pre.victory.winner,
        })
        &&& post.phase == pre.phase
        &&& post.match_state == pre.match_state
        &&& post.round == pre.round
        &&& post.shot == pre.shot
        &&& word1 == word0
    }
}

/// A number field after a key and what was typed: the delete key takes the
/// last character away, then the typed digits and full stops are appended.
pub open spec fn number_field_after(text: Seq<char>, input: TickInput) -> Seq<char> {
    number_typed(
        if input.key == Some(Key::Backspace) {
            without_last(text)
        } else {
            text
        },
        input.typed@,
    )
}

/// Everything but the shot and the round's sun is as before.
pub open spec fn kept_but_shot(pre: Game, post: Game) -> bool {
    &&& post.phase == pre.phase
    &&& post.match_state == pre.match_state
    &&& post.setup == pre.setup
    &&& post.victory == pre.victory
    &&& post.demo == pre.demo
    &&& post.round.city == pre.round.city
    &&& post.round.cityscape_generated == pre.round.cityscape_generated
    &&& post.round.gravity == pre.round.gravity
    &&& post.round.first == pre.round.first
    &&& post.round.second == pre.round.second
}

/// One tick while the angle is typed. The enter key reads the angle, with its
/// default, mirrors it for the second player, and moves on to the speed.
pub open spec fn angle_step(pre: Game, post: Game, input: TickInput) -> bool {
    let entered = input.key == Some(Key::Enter);
    &&& kept_but_shot(pre, post)
    &&& post.round.sun_hit == pre.round.sun_hit
    &&& post.shot.angle_input@ == number_field_after(pre.shot.angle_input@, input)
    &&& post.shot.angle == if entered {
        mirrored(
            decimal_or(pre.shot.angle_input@, DEFAULT_ANGLE as int),
            pre.match_state.current_player,
        )
    } else {
        pre.shot.angle as int
    }
    &&& post.shot.phase == if entered {
        ShotPhase::InputVelocity
    } else {
        ShotPhase::InputAngle
    }
    &&& post.shot.velocity == pre.shot.velocity
    &&& post.shot.velocity_input == pre.shot.velocity_input
    &&& post.shot.steps == pre.shot.steps
    &&& post.shot.outcome == pre.shot.outcome
    &&& post.shot.x == pre.shot.x
    &&& post.shot.y == pre.shot.y
}

/// One tick while the speed is typed. The enter key reads the speed, with its
/// default, and throws: the flight starts at time zero with no outcome, and the
/// sun is no longer hit.
pub open spec fn velocity_step(pre: Game, post: Game, input: TickInput) -> bool {
    let entered = input.key == Some(Key::Enter);
    &&& kept_but_shot(pre, post)
    &&& post.shot.velocity_input@ == number_field_after(pre.shot.velocity_input@, input)
    &&& post.shot.angle == pre.shot.angle
    &&& post.shot.angle_input == pre.shot.angle_input
    &&& post.shot.x == pre.shot.x
    &&& post.shot.y == pre.shot.y
    &&& if entered {
        &&& post.shot.velocity == decimal_or(pre.shot.velocity_input@, DEFAULT_VELOCITY as int)
        &&& post.shot.phase == ShotPhase::Animating
        &&& post.shot.steps == 0
        &&& post.shot.outcome == ShotOutcome::Pending
        &&& !post.round.sun_hit
    } else {
        &&& post.shot.velocity == pre.shot.velocity
        &&& post.shot.phase == ShotPhase::InputVelocity
        &&& post.shot.steps == pre.shot.steps
        &&& post.shot.outcome == pre.shot.outcome
        &&& post.round.sun_hit == pre.round.sun_hit
    }
}

/// One tick of a flight: one step of the shot, which is done once it has an
/// outcome.
pub open spec fn flight_step(pre: Game, post: Game, input: TickInput) -> bool {
    &&& post.phase == pre.phase
    &&& post.match_state == pre.match_state
    &&& post.setup == pre.setup
    &&& post.victory == pre.victory
    &&& post.demo == pre.demo
    &&& plotted(
        pre.round,
        pre.shot,
        post.round,
        post.shot,
        pre.match_state.current_player,
        input.launch,
    )
    &&& post.shot.phase == if post.shot.outcome != ShotOutcome::Pending {
        ShotPhase::Done
    } else {
        ShotPhase::Animating
    }
}

/// The turn passes to the other player: the shot waits for its angle and the
/// sun is no longer hit. Nothing is won.
pub open spec fn turn_passed(pre: Game, post: Game) -> bool {
    &&& kept_but_shot(Game { match_state: post.match_state, ..pre }, post)
    &&& score_kept(pre.match_state, post.match_state)
    &&& post.match_state.current_game == pre.match_state.current_game
    &&& post.match_state.current_player == pre.match_state.current_player.opponent()
    &&& shot_fresh(post.shot)
    &&& !post.round.sun_hit
}

/// One tick after a shot is done. A hit on a character wins the round for the
/// shooter, or for the other player if the shooter's own character was hit: the
/// winner's wins grow by one and the victory dance begins, with an explosion
/// at the projectile. A hit on a building passes the turn, with an explosion
/// beside the projectile; a projectile that left the field passes the turn.
pub open spec fn done_step(pre: Game, post: Game, input: TickInput, action: TickAction) -> bool {
    match pre.shot.outcome {
        ShotOutcome::CharacterHit(hit) => {
            let winner = round_winner(pre.match_state.current_player, hit);
            &&& post.match_state.wins(winner) == pre.match_state.wins(winner) + 1
            &&& post.match_state.wins(winner.opponent()) == pre.match_state.wins(
                winner.opponent(),
            )
            &&& post.match_state.player1_name == pre.match_state.player1_name
            &&& post.match_state.player2_name == pre.match_state.player2_name
            &&& post.match_state.num_games == pre.match_state.num_games
            &&& post.match_state.current_game == pre.match_state.current_game
            &&& post.match_state.current_player == pre.match_state.current_player
            &&& post.victory == (Victory { showing: true, frame: 0, timer: input.now, winner })
            &&& post.phase == pre.phase
            &&& post.round == pre.round
            &&& post.shot == pre.shot
            &&& post.setup == pre.setup
            &&& post.demo == pre.demo
            &&& action == (TickAction::Explode { x: pre.shot.x, y: pre.shot.y })
        },
        ShotOutcome::BlockedByBuilding => {
            &&& turn_passed(pre, post)
            &&& action == (TickAction::Explode {
                x: (pre.shot.x + BLAST_OFFSET * MICRO) as i128,
                y: (pre.shot.y + BLAST_OFFSET * MICRO) as i128,
            })
        },
        _ => turn_passed(pre, post) && action == TickAction::Continue,
    }
}

/// One tick while a round is played: the victory dance if it shows, else the
/// step of the shot's phase. Only the victory dance draws from the source.
pub open spec fn playing_step(
    pre: Game,
    post: Game,
    input: TickInput,
    word0: u64,
    word1: u64,
    action: TickAction,
) -> bool {
    if pre.victory.showing {
        victory_step(pre, post, input, word0, word1) && action == TickAction::Continue
    } else {
        &&& word1 == word0
        &&& match pre.shot.phase {
            ShotPhase::InputAngle => angle_step(pre, post, input) && action
                == TickAction::Continue,
            ShotPhase::InputVelocity => velocity_step(pre, post, input) && action
                == TickAction::Continue,
            ShotPhase::Animating => flight_step(pre, post, input) && action
                == TickAction::Continue,
            ShotPhase::Done => done_step(pre, post, input, action),
        }
    }
}

/// Once the match is over, any key or a click leads to the question of a
/// rematch.
pub open spec fn game_over_step(pre: Game, post: Game, input: TickInput) -> bool {
    if input.key.is_some() || input.mouse_click {
        &&& post.phase == GamePhase::PlayAgain
        &&& post.setup.buffer == pre.setup.buffer
        &&& kept_but_buffer(pre, post)
    } else {
        post == pre
    }
}

/// A round before any cityscape, with default gravity.
pub open spec fn round_fresh(round: RoundState) -> bool {
    &&& round.wf()
    &&& !round.cityscape_generated
    &&& !round.sun_hit
    &&& round.gravity == DEFAULT_GRAVITY
    &&& round.city.buildings@.len() == 0
    &&& round.city.column_index@ == index_of(Seq::empty())
    &&& round.city.wind == 0
    &&& round.city.last_building == 0
    &&& round.first == (Position { x: 0, y: 0 })
    &&& round.second == (Position { x: 0, y: 0 })
}

/// The answer to the question of a rematch. `Y` starts over: the match and the
/// round are as new and the setup form is empty. `N` ends the session.
pub open spec fn play_again_step(pre: Game, post: Game, input: TickInput, action: TickAction) -> bool {
    match input.key {
        Some(Key::Y) => {
            &&& post.phase == GamePhase::GetInputs
            &&& post.setup.is_fresh()
            &&& post.match_state.is_fresh()
            &&& round_fresh(post.round)
            &&& post.shot == pre.shot
            &&& post.victory == pre.victory
            &&& post.demo == pre.demo
            &&& action == TickAction::Continue
        },
        Some(Key::N) => post == pre && action == TickAction::Quit,
        _ => post == pre && action == TickAction::Continue,
    }
}

/// What one tick does. A request to quit ends the session and leaves the game
/// as it is; else the phase decides.
pub open spec fn tick_step(
    pre: Game,
    post: Game,
    input: TickInput,
    word0: u64,
    word1: u64,
    action: TickAction,
) -> bool {
    if input.quit {
        post == pre && word1 == word0 && action == TickAction::Quit
    } else {
        match pre.phase {
            GamePhase::Intro => intro_step(pre, post, input) && word1 == word0 && action
                == TickAction::Continue,
            GamePhase::GetInputs => setup_step(pre, post, input) && word1 == word0 && action
                == TickAction::Continue,
            GamePhase::GorillaIntro => demo_step(pre, post, input, word0, word1) && action
                == TickAction::Continue,
            GamePhase::Playing => playing_step(pre, post, input, word0, word1, action),
            GamePhase::GameOver => game_over_step(pre, post, input) && word1 == word0 && action
                == TickAction::Continue,
            GamePhase::PlayAgain => play_again_step(pre, post, input, action) && word1 == word0,
        }
    }
}

impl Game {
    /// One tick of the intro.
    pub fn intro_tick(&mut self, input: &TickInput)
        requires
            old(self).wf(),
            old(self).phase == GamePhase::Intro,
        ensures
            final(self).wf(),
            intro_step(*old(self), *final(self), *input),
    {
        if input.key.is_some() || input.mouse_click {
            self.phase = GamePhase::GetInputs;
            self.setup.buffer.clear();
        }
    }

    /// One tick of the setup form.
    pub fn setup_tick(&mut self, input: &TickInput)
        requires
            old(self).wf(),
            old(self).phase == GamePhase::GetInputs,
        ensures
            final(self).wf(),
            setup_step(*old(self), *final(self), *input),
    {
        match input.key {
            Some(Key::Enter) => {
                match self.setup.field {
                    InputField::Player1Name => {
                        self.setup.player1_input = name_from(&self.setup.buffer, first_default());
                        self.setup.buffer.clear();
                        self.setup.field = InputField::Player2Name;
                    },
                    InputField::Player2Name => {
                        self.setup.player2_input = name_from(
                            &self.setup.buffer,
                            second_default(),
                        );
                        self.setup.buffer.clear();
                        self.setup.field = InputField::NumGames;
                    },
                    InputField::NumGames => {
                        self.setup.games_input = copy_text(&self.setup.buffer);
                        self.match_state.num_games = rounds_from(&self.setup.buffer);
                        self.setup.buffer.clear();
                        self.setup.field = InputField::Gravity;
                    },
                    InputField::Gravity => {
                        self.setup.gravity_input = copy_text(&self.setup.buffer);
                        self.round.gravity = gravity_from(&self.setup.buffer);
                        self.match_state.player1_name = copy_text(&self.setup.player1_input);
                        self.match_state.player2_name = copy_text(&self.setup.player2_input);
                        self.phase = GamePhase::GorillaIntro;
                        self.setup.field = InputField::ViewOrPlay;
                    },
                    InputField::ViewOrPlay => {},
                }
            },
            Some(Key::Backspace) => {
                delete_last(&mut self.setup.buffer);
            },
            _ => {},
        }
        type_into_setup(&mut self.setup.buffer, &input.typed);
    }

    /// Starts a match.
    fn start_match(&mut self, rng: &mut RandomSource)
        requires
            old(self).wf(),
            !old(self).demo.showing,
            !old(self).victory.showing,
        ensures
            final(self).wf(),
            match_started(*old(self), *final(self), old(rng)@, final(rng)@),
            final(self).demo == old(self).demo,
    {
        self.match_state.current_game = 0;
        self.match_state.wins_first = 0;
        self.match_state.wins_second = 0;
        self.phase = GamePhase::Playing;
        self.match_state.current_player = Player::First;
        self.shot = ShotState::new();
        start_round(&mut self.round, rng);
    }

    /// One tick before the match.
    pub fn demo_tick(&mut self, rng: &mut RandomSource, input: &TickInput)
        requires
            old(self).wf(),
            old(self).phase == GamePhase::GorillaIntro,
        ensures
            final(self).wf(),
            demo_step(*old(self), *final(self), *input, old(rng)@, final(rng)@),
    {
        if !self.demo.showing {
            match input.key {
                Some(Key::V) => {
                    self.demo.showing = true;
                    self.demo.timer = input.now;
                },
                Some(Key::P) => {
                    self.start_match(rng);
                },
                _ => {},
            }
        } else {
            if has_elapsed(input.now, self.demo.timer, DEMO_INTERVAL) {
                self.demo.frame = self.demo.frame + 1;
                self.demo.timer = input.now;
            }
            if self.demo.frame > DEMO_FRAMES {
                self.demo.showing = false;
                self.demo.frame = 0;
                self.start_match(rng);
            }
        }
    }

    /// One tick of the victory dance.
    pub fn victory_tick(&mut self, rng: &mut RandomSource, input: &TickInput)
        requires
            old(self).wf(),
            old(self).phase == GamePhase::Playing,
            old(self).victory.showing,
        ensures
            final(self).wf(),
            victory_step(*old(self), *final(self), *input, old(rng)@, final(rng)@),
    {
        if has_elapsed(input.now, self.victory.timer, VICTORY_INTERVAL) {
            self.victory.frame = self.victory.frame + 1;
            self.victory.timer = input.now;
        }
        if self.victory.frame > VICTORY_FRAMES {
            self.victory.showing = false;
            self.match_state.current_game = self.match_state.current_game + 1;
            if self.match_state.current_game >= self.match_state.num_games {
                self.phase = GamePhase::GameOver;
            } else {
                self.match_state.current_player = Player::First;
                self.shot = ShotState::new();
                self.round.sun_hit = false;
                start_round(&mut self.round, rng);
            }
        }
    }

    /// One tick while the angle is typed.
    pub fn angle_tick(&mut self, input: &TickInput)
        requires
            old(self).wf(),
            old(self).phase == GamePhase::Playing,
            !old(self).victory.showing,
            old(self).shot.phase == ShotPhase::InputAngle,
        ensures
            final(self).wf(),
            angle_step(*old(self), *final(self), *input),
    {
        match input.key {
            Some(Key::Enter) => {
                let angle = angle_from(&self.shot.angle_input);
                self.shot.angle = match self.match_state.current_player {
                    Player::First => angle,
                    Player::Second => HALF_TURN - angle,
                };
                self.shot.phase = ShotPhase::InputVelocity;
            },
            Some(Key::Backspace) => {
                delete_last(&mut self.shot.angle_input);
            },
            _ => {},
        }
        type_into_number(&mut self.shot.angle_input, &input.typed);
    }

    /// One tick while the speed is typed.
    pub fn velocity_tick(&mut self, input: &TickInput)
        requires
            old(self).wf(),
            old(self).phase == GamePhase::Playing,
            !old(self).victory.showing,
            old(self).shot.phase == ShotPhase::InputVelocity,
        ensures
            final(self).wf(),
            velocity_step(*old(self), *final(self), *input),
    {
        match input.key {
            Some(Key::Enter) => {
                self.shot.velocity = velocity_from(&self.shot.velocity_input);
                self.shot.phase = ShotPhase::Animating;
                self.shot.steps = 0;
                self.shot.outcome = ShotOutcome::Pending;
                self.round.sun_hit = false;
            },
            Some(Key::Backspace) => {
                delete_last(&mut self.shot.velocity_input);
            },
            _ => {},
        }
        type_into_number(&mut self.shot.velocity_input, &input.typed);
    }

    /// One tick of a flight.
    pub fn flight_tick(&mut self, input: &TickInput)
        requires
            old(self).wf(),
            old(self).phase == GamePhase::Playing,
            !old(self).victory.showing,
            old(self).shot.phase == ShotPhase::Animating,
            input.launch.wf(),
        ensures
            final(self).wf(),
            flight_step(*old(self), *final(self), *input),
    {
        let done = plot_shot(
            &mut self.round,
            &mut self.shot,
            self.match_state.current_player,
            input.launch,
        );
        if done {
            self.shot.phase = ShotPhase::Done;
        }
    }

    /// One tick after a shot is done.
    pub fn done_tick(&mut self, input: &TickInput) -> (action: TickAction)
        requires
            old(self).wf(),
            old(self).phase == GamePhase::Playing,
            !old(self).victory.showing,
            old(self).shot.phase == ShotPhase::Done,
        ensures
            final(self).wf(),
            done_step(*old(self), *final(self), *input, action),
    {
        let shooter = self.match_state.current_player;
        let mut action = TickAction::Continue;
        match self.shot.outcome {
            ShotOutcome::CharacterHit(hit) => {
                action = TickAction::Explode { x: self.shot.x, y: self.shot.y };
                let winner = if hit == shooter {
                    shooter.other()
                } else {
                    shooter
                };
                match winner {
                    Player::First => {
                        self.match_state.wins_first = self.match_state.wins_first + 1;
                    },
                    Player::Second => {
                        self.match_state.wins_second = self.match_state.wins_second + 1;
                    },
                }
                self.victory = Victory { showing: true, frame: 0, timer: input.now, winner };
            },
            ShotOutcome::BlockedByBuilding => {
                let offset = (BLAST_OFFSET * MICRO) as i128;
                action = TickAction::Explode { x: self.shot.x + offset, y: self.shot.y + offset };
                self.match_state.current_player = shooter.other();
                self.shot = ShotState::new();
            },
            _ => {
                self.match_state.current_player = shooter.other();
                self.shot = ShotState::new();
            },
        }
        if !self.victory.showing && self.round.sun_hit {
            self.round.sun_hit = false;
        }
        action
    }

    /// One tick while a round is played.
    pub fn playing_tick(&mut self, rng: &mut RandomSource, input: &TickInput) -> (action:
        TickAction)
        requires
            old(self).wf(),
            old(self).phase == GamePhase::Playing,
            input.launch.wf(),
        ensures
            final(self).wf(),
            playing_step(*old(self), *final(self), *input, old(rng)@, final(rng)@, action),
    {
        if self.victory.showing {
            self.victory_tick(rng, input);
            TickAction::Continue
        } else {
            match self.shot.phase {
                ShotPhase::InputAngle => {
                    self.angle_tick(input);
                    TickAction::Continue
                },
                ShotPhase::InputVelocity => {
                    self.velocity_tick(input);
                    TickAction::Continue
                },
                ShotPhase::Animating => {
                    self.flight_tick(input);
                    TickAction::Continue
                },
                ShotPhase::Done => self.done_tick(input),
            }
        }
    }

    /// One tick once the match is over.
    pub fn game_over_tick(&mut self, input: &TickInput)
        requires
            old(self).wf(),
            old(self).phase == GamePhase::GameOver,
        ensures
            final(self).wf(),
            game_over_step(*old(self), *final(self), *input),
    {
        if input.key.is_some() || input.mouse_click {
            self.phase = GamePhase::PlayAgain;
        }
    }

    /// One tick at the question of a rematch.
    pub fn play_again_tick(&mut self, input: &TickInput) -> (action: TickAction)
        requires
            old(self).wf(),
            old(self).phase == GamePhase::PlayAgain,
        ensures
            final(self).wf(),
            play_again_step(*old(self), *final(self), *input, action),
    {
        match input.key {
            Some(Key::Y) => {
                self.phase = GamePhase::GetInputs;
                self.setup = SetupForm::new();
                self.match_state = MatchState::new();
                self.round = RoundState::new(DEFAULT_GRAVITY);
                TickAction::Continue
            },
            Some(Key::N) => TickAction::Quit,
            _ => TickAction::Continue,
        }
    }

    /// Advances the game by one tick: takes the input of one frame, moves the
    /// state on by the step of its phase, and says what the caller is to do.
    /// The game stays well formed whatever was pressed, typed or drawn.
    pub fn tick(&mut self, rng: &mut RandomSource, input: &TickInput) -> (action: TickAction)
        requires
            old(self).wf(),
            input.launch.wf(),
        ensures
            final(self).wf(),
            tick_step(*old(self), *final(self), *input, old(rng)@, final(rng)@, action),
    {
        if input.quit {
            return TickAction::Quit;
        }
        match self.phase {
            GamePhase::Intro => {
                self.intro_tick(input);
                TickAction::Continue
            },
            GamePhase::GetInputs => {
                self.setup_tick(input);
                TickAction::Continue
            },
            GamePhase::GorillaIntro => {
                self.demo_tick(rng, input);
                TickAction::Continue
            },
            GamePhase::Playing => self.playing_tick(rng, input),
            GamePhase::GameOver => {
                self.game_over_tick(input);
                TickAction::Continue
            },
            GamePhase::PlayAgain => self.play_again_tick(input),
        }
    }
}

/// The source's word fixes the round: two rounds set up under one gravity from
/// one word have the same buildings, column index and wind, their characters
/// stand at the same places, and the source holds the same word after each.
pub proof fn lemma_round_determined(
    gravity: i64,
    a: RoundState,
    b: RoundState,
    word0: u64,
    word_a: u64,
    word_b: u64,
)
    requires
        round_started(gravity, a, word0, word_a),
        round_started(gravity, b, word0, word_b),
    ensures
        a.city.skyline() == b.city.skyline(),
        a.index() == b.index(),
        a.city.last_building == b.city.last_building,
        a.city.wind == b.city.wind,
        a.first == b.first,
        a.second == b.second,
        word_a == word_b,
{
    reveal(round_started);
    lemma_cityscape_determined(a.city, b.city, word0);
}

/// A round is left for the end of the match only by the tick that ends the
/// victory dance of the deciding round, and by that tick always. After any
/// other tick of a round the round goes on; at the end of the match as many
/// rounds are decided as decide it.
pub proof fn lemma_match_ends_when_decided(
    pre: Game,
    post: Game,
    input: TickInput,
    word0: u64,
    word1: u64,
    action: TickAction,
)
    requires
        pre.wf(),
        pre.phase == GamePhase::Playing,
        tick_step(pre, post, input, word0, word1, action),
    ensures
        post.phase == GamePhase::Playing || post.phase == GamePhase::GameOver,
        post.phase == GamePhase::GameOver <==> {
            &&& !input.quit
            &&& pre.victory.showing
            &&& pre.victory.frame + if elapsed(input.now, pre.victory.timer, VICTORY_INTERVAL) {
                1int
            } else {
                0int
            } > VICTORY_FRAMES
            &&& pre.match_state.current_game + 1 == pre.match_state.num_games
        },
        post.phase == GamePhase::GameOver ==> post.match_state.current_game
            == post.match_state.num_games,
{
}

/// The end of the match is reached from a round only: a tick in any other phase
/// does not lead there.
pub proof fn lemma_match_ends_from_round_only(
    pre: Game,
    post: Game,
    input: TickInput,
    word0: u64,
    word1: u64,
    action: TickAction,
)
    requires
        pre.wf(),
        pre.phase != GamePhase::Playing,
        pre.phase != GamePhase::GameOver,
        tick_step(pre, post, input, word0, word1, action),
    ensures
        post.phase != GamePhase::GameOver,
{
}

/// A hit on a character scores exactly one round: the tick after the shot is
/// done adds one to the wins of the shooter, or of the other player if the
/// shooter's own character was hit, leaves the other's wins as they are, and
/// begins the victory dance of the winner.
pub proof fn lemma_hit_scores_once(
    pre: Game,
    post: Game,
    input: TickInput,
    word0: u64,
    word1: u64,
    action: TickAction,
    hit: Player,
)
    requires
        pre.wf(),
        pre.phase == GamePhase::Playing,
        !pre.victory.showing,
        pre.shot.phase == ShotPhase::Done,
        pre.shot.outcome == ShotOutcome::CharacterHit(hit),
        !input.quit,
        tick_step(pre, post, input, word0, word1, action),
    ensures
        post.match_state.wins(round_winner(pre.match_state.current_player, hit))
            == pre.match_state.wins(round_winner(pre.match_state.current_player, hit)) + 1,
        post.match_state.wins_first + post.match_state.wins_second == pre.match_state.wins_first
            + pre.match_state.wins_second + 1,
        hit != pre.match_state.current_player ==> round_winner(
            pre.match_state.current_player,
            hit,
        ) == pre.match_state.current_player,
        post.victory.showing,
        post.victory.winner == round_winner(pre.match_state.current_player, hit),
        post.match_state.current_game == pre.match_state.current_game,
{
}

/// Where the game reads no text, what was typed plays no part: a tick on an
/// input that differs in the typed characters alone takes the same step.
pub proof fn lemma_unread_text_plays_no_part(
    pre: Game,
    post: Game,
    input: TickInput,
    other: TickInput,
    word0: u64,
    word1: u64,
    action: TickAction,
)
    requires
        !pre.takes_text(),
        tick_step(pre, post, input, word0, word1, action),
        other.quit == input.quit,
        other.key == input.key,
        other.mouse_click == input.mouse_click,
        other.now == input.now,
        other.launch == input.launch,
    ensures
        tick_step(pre, post, other, word0, word1, action),
{
}

} // verus!
