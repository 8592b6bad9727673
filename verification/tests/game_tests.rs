use gorillas::game::{
    Demo, Game, GamePhase, InputField, Key, TickAction, TickInput, Victory,
};
use gorillas::random::RandomSource;
use gorillas::round::Player;
use gorillas::shot::{LaunchVector, ShotOutcome, ShotPhase};

fn idle(now: u64) -> TickInput {
    TickInput {
        quit: false,
        key: None,
        mouse_click: false,
        typed: Vec::new(),
        now,
        launch: LaunchVector { x: 0, y: 0 },
    }
}

fn press(key: Key, now: u64) -> TickInput {
    TickInput { key: Some(key), ..idle(now) }
}

fn typing(text: &str, now: u64) -> TickInput {
    TickInput { typed: text.chars().collect(), ..idle(now) }
}

fn text_of(chars: &[char]) -> String {
    chars.iter().collect()
}

/// Runs the intro and the setup form with the given entries, up to the choice
/// between the demonstration and the match.
fn set_up(game: &mut Game, source: &mut RandomSource, entries: [&str; 4]) {
    assert_eq!(game.tick(source, &press(Key::Other, 0)), TickAction::Continue);
    assert_eq!(game.phase, GamePhase::GetInputs);
    for entry in entries {
        game.tick(source, &typing(entry, 0));
        game.tick(source, &press(Key::Enter, 0));
    }
    assert_eq!(game.phase, GamePhase::GorillaIntro);
}

/// A game in its first round with the given number of rounds to play.
fn playing(source: &mut RandomSource, rounds: &str) -> Game {
    let mut game = Game::new();
    set_up(&mut game, source, ["Ann", "Bob", rounds, "9.8"]);
    game.tick(source, &press(Key::P, 0));
    assert_eq!(game.phase, GamePhase::Playing);
    game
}

/// Makes the current shot a hit on `hit` and runs the tick that scores it.
fn score_hit(game: &mut Game, source: &mut RandomSource, hit: Player, now: u64) -> TickAction {
    game.shot.phase = ShotPhase::Done;
    game.shot.outcome = ShotOutcome::CharacterHit(hit);
    game.tick(source, &idle(now))
}

/// Runs the victory dance to its end; returns the time after it.
fn dance(game: &mut Game, source: &mut RandomSource, mut now: u64) -> u64 {
    for frame in 1..=9 {
        assert!(game.victory.showing);
        now += 201;
        game.tick(source, &idle(now));
        assert_eq!(game.victory.frame, frame);
    }
    assert!(!game.victory.showing);
    now
}

#[test]
fn new_game_starts_at_the_intro() {
    let game = Game::new();
    assert_eq!(game.phase, GamePhase::Intro);
    assert_eq!(text_of(&game.match_state.player1_name), "Player 1");
    assert_eq!(text_of(&game.match_state.player2_name), "Player 2");
    assert_eq!(game.match_state.num_games, 3);
    assert_eq!(game.round.gravity, 9_800);
    assert_eq!((game.match_state.wins_first, game.match_state.wins_second), (0, 0));
    assert_eq!(game.setup.field, InputField::Player1Name);
    assert!(!game.round.cityscape_generated);
    assert_eq!(game.victory, Victory { showing: false, frame: 0, timer: 0, winner: Player::First });
    assert_eq!(game.demo, Demo { showing: false, frame: 0, timer: 0 });
}

#[test]
fn intro_waits_for_a_key_or_a_click() {
    let mut source = RandomSource::new(1);
    let mut game = Game::new();
    game.setup.buffer = vec!['x'];
    game.tick(&mut source, &idle(5));
    game.tick(&mut source, &typing("abc", 6));
    assert_eq!(game.phase, GamePhase::Intro);
    assert_eq!(game.setup.buffer, vec!['x']);
    game.tick(&mut source, &TickInput { mouse_click: true, ..idle(7) });
    assert_eq!(game.phase, GamePhase::GetInputs);
    assert!(game.setup.buffer.is_empty());
}

#[test]
fn quit_ends_the_session_in_every_phase() {
    let mut source = RandomSource::new(1);
    let mut game = Game::new();
    let before = game.clone();
    let quit = TickInput { quit: true, key: Some(Key::Enter), ..typing("abc", 3) };
    assert_eq!(game.tick(&mut source, &quit), TickAction::Quit);
    assert_eq!(game, before);
    let mut game = playing(&mut source, "3");
    let before = game.clone();
    assert_eq!(game.tick(&mut source, &quit), TickAction::Quit);
    assert_eq!(game, before);
}

#[test]
fn setup_form_takes_names_rounds_and_gravity() {
    let mut source = RandomSource::new(2);
    let mut game = Game::new();
    set_up(&mut game, &mut source, ["Bartholomew II", "Bob", "5", "1.62"]);
    assert_eq!(text_of(&game.match_state.player1_name), "Bartholome");
    assert_eq!(text_of(&game.match_state.player2_name), "Bob");
    assert_eq!(game.match_state.num_games, 5);
    assert_eq!(game.round.gravity, 1_620);
    assert_eq!(text_of(&game.setup.games_input), "5");
    assert_eq!(text_of(&game.setup.gravity_input), "1.62");
    assert_eq!(game.setup.field, InputField::ViewOrPlay);
}

#[test]
fn setup_form_falls_back_to_defaults() {
    let mut source = RandomSource::new(2);
    let mut game = Game::new();
    set_up(&mut game, &mut source, ["", "", "none", "heavy"]);
    assert_eq!(text_of(&game.match_state.player1_name), "Player 1");
    assert_eq!(text_of(&game.match_state.player2_name), "Player 2");
    assert_eq!(game.match_state.num_games, 3);
    assert_eq!(game.round.gravity, 9_800);
    assert_eq!(text_of(&game.setup.games_input), "none");
    let mut game = Game::new();
    set_up(&mut game, &mut source, ["a", "b", "0", "0"]);
    assert_eq!(game.match_state.num_games, 3);
    assert_eq!(game.round.gravity, 9_800);
}

#[test]
fn setup_form_moves_field_by_field() {
    let mut source = RandomSource::new(2);
    let mut game = Game::new();
    game.tick(&mut source, &press(Key::Other, 0));
    let fields = [
        InputField::Player1Name,
        InputField::Player2Name,
        InputField::NumGames,
        InputField::Gravity,
    ];
    for field in fields {
        assert_eq!(game.setup.field, field);
        assert_eq!(game.phase, GamePhase::GetInputs);
        game.tick(&mut source, &typing("12", 0));
        assert_eq!(text_of(&game.setup.buffer), "12");
        game.tick(&mut source, &press(Key::Backspace, 0));
        assert_eq!(text_of(&game.setup.buffer), "1");
        game.tick(&mut source, &press(Key::Enter, 0));
    }
    assert_eq!(game.phase, GamePhase::GorillaIntro);
    assert_eq!(text_of(&game.setup.player1_input), "1");
    assert_eq!(game.match_state.num_games, 1);
    assert_eq!(game.round.gravity, 1_000);
}

#[test]
fn key_is_handled_before_what_was_typed() {
    let mut source = RandomSource::new(2);
    let mut game = Game::new();
    game.tick(&mut source, &press(Key::Other, 0));
    game.tick(&mut source, &typing("Ann", 0));
    game.tick(&mut source, &TickInput { key: Some(Key::Enter), ..typing("Bo!b", 0) });
    assert_eq!(text_of(&game.setup.player1_input), "Ann");
    assert_eq!(text_of(&game.setup.buffer), "Bob");
    game.tick(&mut source, &TickInput { key: Some(Key::Backspace), ..typing("by", 0) });
    assert_eq!(text_of(&game.setup.buffer), "Boby");
}

#[test]
fn play_starts_the_match() {
    let mut source = RandomSource::new(3);
    let game = playing(&mut source, "3");
    assert!(game.round.cityscape_generated);
    assert!(game.round.city.buildings.len() >= 9);
    assert_eq!(game.match_state.current_game, 0);
    assert_eq!(game.match_state.current_player, Player::First);
    assert_eq!(game.shot.phase, ShotPhase::InputAngle);
    assert_eq!(text_of(&game.match_state.player1_name), "Ann");
    assert_eq!(game.round.gravity, 9_800);
}

#[test]
fn other_keys_leave_the_choice_open() {
    let mut source = RandomSource::new(3);
    let mut game = Game::new();
    set_up(&mut game, &mut source, ["", "", "", ""]);
    let before = game.clone();
    for key in [Key::Enter, Key::Backspace, Key::Y, Key::N, Key::Other] {
        game.tick(&mut source, &press(key, 9));
    }
    game.tick(&mut source, &typing("vp", 9));
    assert_eq!(game, before);
}

#[test]
fn demonstration_runs_its_frames_and_starts_the_match() {
    let mut source = RandomSource::new(3);
    let mut game = Game::new();
    set_up(&mut game, &mut source, ["", "", "", ""]);
    game.tick(&mut source, &press(Key::V, 1_000));
    assert_eq!(game.demo, Demo { showing: true, frame: 0, timer: 1_000 });
    game.tick(&mut source, &idle(1_300));
    assert_eq!(game.demo.frame, 0);
    game.tick(&mut source, &press(Key::P, 1_300));
    assert_eq!(game.phase, GamePhase::GorillaIntro);
    let mut now = 1_000;
    for frame in 1..=16 {
        now += 301;
        game.tick(&mut source, &idle(now));
        assert_eq!(game.demo, Demo { showing: true, frame, timer: now });
        assert_eq!(game.phase, GamePhase::GorillaIntro);
    }
    now += 301;
    game.tick(&mut source, &idle(now));
    assert_eq!(game.demo, Demo { showing: false, frame: 0, timer: now });
    assert_eq!(game.phase, GamePhase::Playing);
    assert!(game.round.cityscape_generated);
}

#[test]
fn clock_that_runs_backwards_moves_no_frame() {
    let mut source = RandomSource::new(3);
    let mut game = Game::new();
    set_up(&mut game, &mut source, ["", "", "", ""]);
    game.tick(&mut source, &press(Key::V, 1_000));
    game.tick(&mut source, &idle(10));
    assert_eq!(game.demo, Demo { showing: true, frame: 0, timer: 1_000 });
}

#[test]
fn angle_and_speed_are_typed_and_entered() {
    let mut source = RandomSource::new(4);
    let mut game = playing(&mut source, "3");
    game.tick(&mut source, &typing("6x0.5", 0));
    assert_eq!(text_of(&game.shot.angle_input), "60.5");
    game.tick(&mut source, &press(Key::Backspace, 0));
    game.tick(&mut source, &press(Key::Backspace, 0));
    assert_eq!(text_of(&game.shot.angle_input), "60");
    game.tick(&mut source, &press(Key::Enter, 0));
    assert_eq!(game.shot.phase, ShotPhase::InputVelocity);
    assert_eq!(game.shot.angle, 60_000);
    game.round.sun_hit = true;
    game.tick(&mut source, &typing("75", 0));
    game.tick(&mut source, &press(Key::Enter, 0));
    assert_eq!(game.shot.phase, ShotPhase::Animating);
    assert_eq!(game.shot.velocity, 75_000);
    assert_eq!(game.shot.steps, 0);
    assert_eq!(game.shot.outcome, ShotOutcome::Pending);
    assert!(!game.round.sun_hit);
}

#[test]
fn empty_angle_and_speed_take_their_defaults() {
    let mut source = RandomSource::new(4);
    let mut game = playing(&mut source, "3");
    game.tick(&mut source, &press(Key::Enter, 0));
    game.tick(&mut source, &press(Key::Enter, 0));
    assert_eq!(game.shot.angle, 45_000);
    assert_eq!(game.shot.velocity, 50_000);
}

#[test]
fn second_player_s_angle_is_mirrored() {
    let mut source = RandomSource::new(4);
    let mut game = playing(&mut source, "3");
    game.match_state.current_player = Player::Second;
    game.tick(&mut source, &typing("30", 0));
    game.tick(&mut source, &press(Key::Enter, 0));
    assert_eq!(game.shot.angle, 150_000);
    let mut game = playing(&mut source, "3");
    game.match_state.current_player = Player::Second;
    game.tick(&mut source, &typing("200.25", 0));
    game.tick(&mut source, &press(Key::Enter, 0));
    assert_eq!(game.shot.angle, -20_250);
}

#[test]
fn flight_goes_step_by_step_until_it_resolves() {
    let mut source = RandomSource::new(5);
    let mut game = playing(&mut source, "3");
    game.tick(&mut source, &press(Key::Enter, 0));
    game.tick(&mut source, &press(Key::Enter, 0));
    let launch = LaunchVector { x: 35_355, y: 35_355 };
    let mut ticks = 0u64;
    while game.shot.phase == ShotPhase::Animating {
        assert_eq!(game.shot.steps, ticks);
        let action = game.tick(&mut source, &TickInput { launch, ..idle(ticks) });
        assert_eq!(action, TickAction::Continue);
        ticks += 1;
        assert!(ticks < 10_000);
    }
    assert_eq!(game.shot.phase, ShotPhase::Done);
    assert_ne!(game.shot.outcome, ShotOutcome::Pending);
    assert_eq!(game.shot.steps, ticks - 1);
}

#[test]
fn a_miss_passes_the_turn() {
    let mut source = RandomSource::new(5);
    let mut game = playing(&mut source, "3");
    game.shot.phase = ShotPhase::Done;
    game.shot.outcome = ShotOutcome::LeftPlayField;
    game.shot.x = 700_000_000;
    game.round.sun_hit = true;
    assert_eq!(game.tick(&mut source, &idle(0)), TickAction::Continue);
    assert_eq!(game.match_state.current_player, Player::Second);
    assert_eq!(game.shot.phase, ShotPhase::InputAngle);
    assert_eq!(game.shot.x, 0);
    assert!(!game.round.sun_hit);
    assert_eq!((game.match_state.wins_first, game.match_state.wins_second), (0, 0));
    assert!(!game.victory.showing);
    game.shot.phase = ShotPhase::Done;
    game.shot.outcome = ShotOutcome::LeftPlayField;
    game.tick(&mut source, &idle(0));
    assert_eq!(game.match_state.current_player, Player::First);
}

#[test]
fn a_building_hit_explodes_and_passes_the_turn() {
    let mut source = RandomSource::new(5);
    let mut game = playing(&mut source, "3");
    game.shot.phase = ShotPhase::Done;
    game.shot.outcome = ShotOutcome::BlockedByBuilding;
    game.shot.x = 300_000_000;
    game.shot.y = 250_500_000;
    let action = game.tick(&mut source, &idle(0));
    assert_eq!(action, TickAction::Explode { x: 304_000_000, y: 254_500_000 });
    assert_eq!(game.match_state.current_player, Player::Second);
    assert_eq!(game.shot.phase, ShotPhase::InputAngle);
    assert_eq!((game.match_state.wins_first, game.match_state.wins_second), (0, 0));
    assert_eq!(game.match_state.current_game, 0);
}

#[test]
fn hit_on_opponent_scores_for_the_shooter_after_the_dance() {
    let mut source = RandomSource::new(6);
    let mut game = playing(&mut source, "3");
    let first_city = game.round.city.clone();
    game.shot.x = 600_000_000;
    game.shot.y = 210_000_000;
    let action = score_hit(&mut game, &mut source, Player::Second, 5_000);
    assert_eq!(action, TickAction::Explode { x: 600_000_000, y: 210_000_000 });
    assert_eq!((game.match_state.wins_first, game.match_state.wins_second), (1, 0));
    assert_eq!(game.victory, Victory { showing: true, frame: 0, timer: 5_000, winner: Player::First });
    assert_eq!(game.match_state.current_game, 0);
    assert_eq!(game.round.city, first_city);
    dance(&mut game, &mut source, 5_000);
    assert_eq!((game.match_state.wins_first, game.match_state.wins_second), (1, 0));
    assert_eq!(game.match_state.current_game, 1);
    assert_eq!(game.phase, GamePhase::Playing);
    assert_eq!(game.match_state.current_player, Player::First);
    assert_eq!(game.shot.phase, ShotPhase::InputAngle);
    assert!(game.round.cityscape_generated);
    assert_ne!(game.round.city, first_city);
}

#[test]
fn hit_on_own_character_scores_for_the_other_player() {
    let mut source = RandomSource::new(6);
    let mut game = playing(&mut source, "3");
    score_hit(&mut game, &mut source, Player::First, 0);
    assert_eq!((game.match_state.wins_first, game.match_state.wins_second), (0, 1));
    assert_eq!(game.victory.winner, Player::Second);
    let mut game = playing(&mut source, "3");
    game.match_state.current_player = Player::Second;
    score_hit(&mut game, &mut source, Player::Second, 0);
    assert_eq!((game.match_state.wins_first, game.match_state.wins_second), (1, 0));
    let mut game = playing(&mut source, "3");
    game.match_state.current_player = Player::Second;
    score_hit(&mut game, &mut source, Player::First, 0);
    assert_eq!((game.match_state.wins_first, game.match_state.wins_second), (0, 1));
}

#[test]
fn victory_dance_is_paced_by_the_clock() {
    let mut source = RandomSource::new(6);
    let mut game = playing(&mut source, "3");
    score_hit(&mut game, &mut source, Player::Second, 1_000);
    for now in [1_000, 1_100, 1_200] {
        game.tick(&mut source, &press(Key::Enter, now));
        assert_eq!(game.victory.frame, 0);
    }
    game.tick(&mut source, &idle(1_201));
    assert_eq!(game.victory.frame, 1);
    assert_eq!(game.victory.timer, 1_201);
    game.tick(&mut source, &idle(1_401));
    assert_eq!(game.victory.frame, 1);
    game.tick(&mut source, &idle(1_402));
    assert_eq!(game.victory.frame, 2);
    assert!(game.victory.showing);
    assert_eq!(game.match_state.current_game, 0);
}

#[test]
fn sun_stays_shocked_during_the_dance_and_recovers_for_the_next_round() {
    let mut source = RandomSource::new(6);
    let mut game = playing(&mut source, "3");
    game.round.sun_hit = true;
    score_hit(&mut game, &mut source, Player::Second, 0);
    assert!(game.round.sun_hit);
    dance(&mut game, &mut source, 0);
    assert!(!game.round.sun_hit);
}

#[test]
fn match_is_over_after_three_decided_rounds_and_not_before() {
    for winners in [
        [Player::First, Player::First, Player::First],
        [Player::First, Player::Second, Player::First],
        [Player::Second, Player::Second, Player::First],
    ] {
        let mut source = RandomSource::new(7);
        let mut game = playing(&mut source, "3");
        let mut now = 0;
        let mut times_over = 0;
        for (round, winner) in winners.iter().enumerate() {
            assert_eq!(game.phase, GamePhase::Playing);
            assert_eq!(game.match_state.current_game, round as i32);
            game.match_state.current_player = *winner;
            score_hit(&mut game, &mut source, winner.other(), now);
            for _ in 0..9 {
                assert_eq!(game.phase, GamePhase::Playing);
                now += 201;
                game.tick(&mut source, &idle(now));
                if game.phase == GamePhase::GameOver {
                    times_over += 1;
                }
            }
        }
        assert_eq!(times_over, 1);
        assert_eq!(game.phase, GamePhase::GameOver);
        assert_eq!(game.match_state.current_game, 3);
        assert_eq!(game.match_state.wins_first + game.match_state.wins_second, 3);
        let firsts = winners.iter().filter(|w| **w == Player::First).count() as i32;
        assert_eq!(game.match_state.wins_first, firsts);
        for _ in 0..5 {
            now += 1_000;
            game.tick(&mut source, &idle(now));
            assert_eq!(game.phase, GamePhase::GameOver);
        }
    }
}

#[test]
fn match_of_one_round_is_over_after_the_first_hit() {
    let mut source = RandomSource::new(7);
    let mut game = playing(&mut source, "1");
    let city = game.round.city.clone();
    score_hit(&mut game, &mut source, Player::Second, 0);
    assert_eq!(game.phase, GamePhase::Playing);
    dance(&mut game, &mut source, 0);
    assert_eq!(game.phase, GamePhase::GameOver);
    assert_eq!(game.round.city, city);
}

#[test]
fn misses_decide_no_round() {
    let mut source = RandomSource::new(7);
    let mut game = playing(&mut source, "1");
    for _ in 0..20 {
        game.shot.phase = ShotPhase::Done;
        game.shot.outcome = ShotOutcome::BlockedByBuilding;
        game.tick(&mut source, &idle(100_000));
        assert_eq!(game.phase, GamePhase::Playing);
        assert_eq!(game.match_state.current_game, 0);
    }
}

#[test]
fn game_over_leads_to_the_question_of_a_rematch() {
    let mut source = RandomSource::new(8);
    let mut game = playing(&mut source, "1");
    score_hit(&mut game, &mut source, Player::Second, 0);
    dance(&mut game, &mut source, 0);
    game.tick(&mut source, &typing("y", 0));
    assert_eq!(game.phase, GamePhase::GameOver);
    game.tick(&mut source, &press(Key::Other, 0));
    assert_eq!(game.phase, GamePhase::PlayAgain);
    assert_eq!((game.match_state.wins_first, game.match_state.wins_second), (1, 0));
    let before = game.clone();
    game.tick(&mut source, &press(Key::Enter, 0));
    game.tick(&mut source, &TickInput { mouse_click: true, ..idle(0) });
    assert_eq!(game, before);
}

#[test]
fn no_to_a_rematch_ends_the_session() {
    let mut source = RandomSource::new(8);
    let mut game = Game::new();
    game.phase = GamePhase::PlayAgain;
    let before = game.clone();
    assert_eq!(game.tick(&mut source, &press(Key::N, 0)), TickAction::Quit);
    assert_eq!(game, before);
}

#[test]
fn yes_to_a_rematch_starts_over() {
    let mut source = RandomSource::new(8);
    let mut game = playing(&mut source, "1");
    score_hit(&mut game, &mut source, Player::Second, 0);
    dance(&mut game, &mut source, 0);
    game.tick(&mut source, &press(Key::Other, 0));
    assert_eq!(game.tick(&mut source, &press(Key::Y, 0)), TickAction::Continue);
    assert_eq!(game.phase, GamePhase::GetInputs);
    assert_eq!(game.setup.field, InputField::Player1Name);
    assert!(game.setup.buffer.is_empty() && game.setup.player1_input.is_empty());
    assert!(game.setup.games_input.is_empty() && game.setup.gravity_input.is_empty());
    assert_eq!(text_of(&game.match_state.player1_name), "Player 1");
    assert_eq!(game.match_state.num_games, 3);
    assert_eq!((game.match_state.wins_first, game.match_state.wins_second), (0, 0));
    assert_eq!(game.match_state.current_game, 0);
    assert_eq!(game.round.gravity, 9_800);
    assert!(!game.round.cityscape_generated);
    for entry in ["Cy", "Di", "2", "3.7"] {
        game.tick(&mut source, &typing(entry, 0));
        game.tick(&mut source, &press(Key::Enter, 0));
    }
    game.tick(&mut source, &press(Key::P, 0));
    assert_eq!(game.phase, GamePhase::Playing);
    assert_eq!(game.match_state.num_games, 2);
    assert_eq!(game.round.gravity, 3_700);
}

#[test]
fn same_seed_plays_the_same_game() {
    let mut source_a = RandomSource::new(99);
    let mut source_b = RandomSource::new(99);
    let mut a = playing(&mut source_a, "2");
    let mut b = playing(&mut source_b, "2");
    assert_eq!(a, b);
    score_hit(&mut a, &mut source_a, Player::Second, 0);
    score_hit(&mut b, &mut source_b, Player::Second, 0);
    dance(&mut a, &mut source_a, 0);
    dance(&mut b, &mut source_b, 0);
    assert_eq!(a, b);
    assert_eq!(a.match_state.current_game, 1);
}

#[test]
fn text_is_read_in_the_form_and_while_a_number_is_typed() {
    let mut source = RandomSource::new(10);
    let mut game = Game::new();
    assert!(!game.reads_text());
    game.tick(&mut source, &press(Key::Other, 0));
    assert!(game.reads_text());
    for _ in 0..4 {
        game.tick(&mut source, &press(Key::Enter, 0));
    }
    assert_eq!(game.phase, GamePhase::GorillaIntro);
    assert!(!game.reads_text());
    game.tick(&mut source, &press(Key::P, 0));
    assert!(game.reads_text());
    game.tick(&mut source, &press(Key::Enter, 0));
    assert_eq!(game.shot.phase, ShotPhase::InputVelocity);
    assert!(game.reads_text());
    game.tick(&mut source, &press(Key::Enter, 0));
    assert_eq!(game.shot.phase, ShotPhase::Animating);
    assert!(!game.reads_text());
    score_hit(&mut game, &mut source, Player::Second, 0);
    assert!(!game.reads_text());
    game.shot.phase = ShotPhase::InputAngle;
    assert!(game.victory.showing && !game.reads_text());
    game.phase = GamePhase::GameOver;
    game.victory.showing = false;
    assert!(!game.reads_text());
    game.phase = GamePhase::PlayAgain;
    assert!(!game.reads_text());
}

#[test]
fn unread_text_changes_nothing() {
    let mut source_a = RandomSource::new(10);
    let mut source_b = RandomSource::new(10);
    let mut a = Game::new();
    let mut b = Game::new();
    a.tick(&mut source_a, &idle(3));
    b.tick(&mut source_b, &typing("abc 1.5", 3));
    assert_eq!(a, b);
    let mut a = playing(&mut source_a, "3");
    let mut b = playing(&mut source_b, "3");
    a.shot.phase = ShotPhase::Animating;
    b.shot.phase = ShotPhase::Animating;
    a.tick(&mut source_a, &idle(3));
    b.tick(&mut source_b, &typing("45", 3));
    assert_eq!(a, b);
}
