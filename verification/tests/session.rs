use typing_battle::game::{Game, StepResult};

fn game_of(lines: &[&str]) -> Game {
    let lines: Vec<Vec<char>> = lines.iter().map(|l| l.chars().collect()).collect();
    Game::new(&lines)
}

fn health_percent(g: &Game) -> f32 {
    let (rem, total) = g.health_ratio();
    if total == 0 {
        0.0
    } else {
        100.0 * rem as f32 / total as f32
    }
}

#[test]
fn scenario_two_lines() {
    // script = ["ab", "c"], N = 3, per-character damage = 100/3.
    let mut g = game_of(&["ab", "c"]);
    assert_eq!(g.total_chars(), 3);
    assert_eq!(g.cursor(), 0);
    assert!(!g.is_awaiting_restart());
    assert_eq!(g.expected_char(), Some('a'));

    assert_eq!(g.process_char('a'), StepResult::Correct);
    assert_eq!(g.cursor(), 1);
    assert!((health_percent(&g) - 66.67).abs() < 0.05);

    assert_eq!(g.process_char('x'), StepResult::Wrong('x'));
    assert_eq!(g.cursor(), 1);
    assert!((health_percent(&g) - 66.67).abs() < 0.05);

    assert_eq!(g.process_char('b'), StepResult::Correct);
    assert_eq!(g.cursor(), 2);
    assert!((health_percent(&g) - 33.33).abs() < 0.05);

    assert_eq!(g.process_char('c'), StepResult::Victory);
    assert_eq!(g.cursor(), 3);
    assert_eq!(g.health_ratio(), (0, 3));
    assert!(g.is_awaiting_restart());

    assert_eq!(g.process_char('z'), StepResult::Ignored);
    assert!(g.is_awaiting_restart());
    assert_eq!(g.cursor(), 3);

    assert_eq!(g.process_char(' '), StepResult::Restarted);
    assert_eq!(g.cursor(), 0);
    assert!(!g.is_awaiting_restart());
    assert_eq!(g.health_ratio(), (3, 3));
    assert!((health_percent(&g) - 100.0).abs() < 1e-6);
}

#[test]
fn full_script_in_order_wins() {
    let mut g = game_of(&["hello", "world"]);
    let script: Vec<char> = "helloworld".chars().collect();
    for (i, &c) in script.iter().enumerate() {
        let r = g.process_char(c);
        if i + 1 < script.len() {
            assert_eq!(r, StepResult::Correct);
        } else {
            assert_eq!(r, StepResult::Victory);
        }
        assert_eq!(g.cursor(), i + 1);
    }
    assert!(g.is_awaiting_restart());
    assert_eq!(g.health_ratio(), (0, 10));
    assert_eq!(health_percent(&g), 0.0);
}

#[test]
fn damage_times_length_is_full_scale() {
    for n in [1usize, 3, 7, 33, 100, 997] {
        let line: String = std::iter::repeat('a').take(n).collect();
        let mut g = game_of(&[line.as_str()]);
        let damage = 100.0f32 / n as f32;
        assert!((damage * n as f32 - 100.0).abs() < 1e-3);
        for _ in 0..n {
            g.process_char('a');
        }
        // Health lands on exactly zero, never negative, never stuck above.
        assert_eq!(g.health_ratio(), (0, n));
        assert_eq!(health_percent(&g), 0.0);
    }
}

#[test]
fn wrong_character_changes_nothing_but_message() {
    let mut g = game_of(&["abc"]);
    assert_eq!(g.process_char('a'), StepResult::Correct);
    let before = (g.cursor(), g.health_ratio(), g.is_awaiting_restart());
    assert_eq!(g.process_char('q'), StepResult::Wrong('q'));
    assert_eq!((g.cursor(), g.health_ratio(), g.is_awaiting_restart()), before);
    assert_eq!(g.message().as_str(), "Wrong character.");
    assert_eq!(g.expected_char(), Some('b'));
}

#[test]
fn awaiting_restart_ignores_everything_but_space() {
    let mut g = game_of(&["ab"]);
    g.process_char('a');
    assert_eq!(g.process_char('b'), StepResult::Victory);
    let victory_message = g.message().clone();
    for c in ['a', 'z', '\n', '\r', '\t', '한', 'ㄱ', '0'] {
        assert_eq!(g.process_char(c), StepResult::Ignored);
        assert_eq!(g.cursor(), 2);
        assert!(g.is_awaiting_restart());
        assert_eq!(g.health_ratio(), (0, 2));
        assert_eq!(g.message(), &victory_message);
    }
}

#[test]
fn space_restarts_after_victory() {
    let mut g = game_of(&["ab"]);
    g.process_char('a');
    g.process_char('b');
    assert!(g.is_awaiting_restart());
    assert_eq!(g.process_char(' '), StepResult::Restarted);
    assert_eq!(g.cursor(), 0);
    assert!(!g.is_awaiting_restart());
    assert_eq!(g.health_ratio(), (2, 2));
    assert_eq!(g.message().as_str(), "Restarted. Keep typing.");
    // The same round can be won again.
    g.process_char('a');
    assert_eq!(g.process_char('b'), StepResult::Victory);
}

#[test]
fn reset_mid_round_returns_to_start() {
    let mut g = game_of(&["abc"]);
    g.process_char('a');
    g.process_char('b');
    g.reset();
    assert_eq!(g.cursor(), 0);
    assert!(!g.is_awaiting_restart());
    assert_eq!(g.health_ratio(), (3, 3));
    assert_eq!(g.expected_char(), Some('a'));
    // Idempotent at the initial state.
    g.reset();
    assert_eq!(g.cursor(), 0);
    assert_eq!(g.health_ratio(), (3, 3));
}

#[test]
fn line_state_tracks_cursor_and_completion() {
    let mut g = game_of(&["ab", "c"]);
    assert_eq!(g.line_count(), 2);
    assert_eq!(g.line_state(), (0, 0));
    g.process_char('a');
    assert_eq!(g.line_state(), (0, 1));
    g.process_char('b');
    assert_eq!(g.line_state(), (1, 0));
    g.process_char('c');
    // Complete: last line, fully typed.
    assert_eq!(g.line_state(), (1, 1));
    assert_eq!(g.expected_char(), None);
}

#[test]
fn empty_script_is_complete_at_construction() {
    let mut g = game_of(&[]);
    assert_eq!(g.total_chars(), 0);
    assert!(g.is_awaiting_restart());
    assert_eq!(g.health_ratio(), (0, 0));
    assert_eq!(g.process_char('a'), StepResult::Ignored);
    assert_eq!(g.process_char(' '), StepResult::Restarted);
    assert!(!g.is_awaiting_restart());
    // The defensive completed-but-unflagged branch: the next submission is
    // resolved as a victory rather than a crash.
    assert_eq!(g.process_char('a'), StepResult::Victory);
    assert!(g.is_awaiting_restart());
}

#[test]
fn empty_lines_flatten_to_empty_script() {
    let mut g = game_of(&["", ""]);
    assert_eq!(g.total_chars(), 0);
    assert_eq!(g.line_count(), 2);
    assert!(g.is_awaiting_restart());
    assert_eq!(g.process_char(' '), StepResult::Restarted);
    assert_eq!(g.process_char('x'), StepResult::Victory);
    assert_eq!(g.line_state(), (1, 0));
}

#[test]
fn korean_script_full_round() {
    let mut g = game_of(&["동해 물과", "만세"]);
    let script: Vec<char> = "동해 물과만세".chars().collect();
    assert_eq!(g.total_chars(), script.len());
    for (i, &c) in script.iter().enumerate() {
        let r = g.process_char(c);
        if i + 1 < script.len() {
            assert_eq!(r, StepResult::Correct);
        } else {
            assert_eq!(r, StepResult::Victory);
        }
    }
    assert_eq!(g.line_state(), (1, 2));
    assert_eq!(g.health_ratio(), (0, 7));
}

#[test]
fn initial_message_and_victory_message() {
    let mut g = game_of(&["a"]);
    assert_eq!(g.message().as_str(), "Type the whole script to defeat the boss.");
    g.process_char('a');
    assert_eq!(g.message().as_str(), "Victory! Press space to restart.");
}
