use pong::Command;
use pong::Phase;
use pong::Player;
use pong::SideContact;
use pong::Sighting;
use pong::Simulation;
use pong::Stage;

const OPPONENT_SPEED: f64 = 200.0;
const SPIN: f64 = 8.0;

struct Court {
    width: f64,
    height: f64,
    paddle_width: f64,
    paddle_height: f64,
    radius: f64,
    ball: (f64, f64),
    velocity: (f64, f64),
    left_y: f64,
    right_y: f64,
    pointer_y: f64,
    rules: Simulation,
}

fn court() -> Court {
    Court {
        width: 1024.0,
        height: 600.0,
        paddle_width: 10.0,
        paddle_height: 100.0,
        radius: 10.0,
        ball: (512.0, 300.0),
        velocity: (500.0, 200.0),
        left_y: 300.0,
        right_y: 300.0,
        pointer_y: 300.0,
        rules: Simulation::new(),
    }
}

fn observe(c: &Court) -> Sighting {
    let (x, y) = c.ball;
    let half = c.paddle_height / 2.0;
    Sighting {
        ball_below_opponent: y > c.right_y,
        ball_above_opponent: y < c.right_y,
        left: SideContact {
            past_paddle_face: x - c.radius < c.paddle_width,
            below_paddle_top: y >= c.left_y - half,
            above_paddle_bottom: y <= c.left_y + half,
            past_boundary: x - c.radius <= 0.0,
        },
        right: SideContact {
            past_paddle_face: x + c.radius > c.width - c.paddle_width,
            below_paddle_top: y >= c.right_y - half,
            above_paddle_bottom: y <= c.right_y + half,
            past_boundary: x + c.radius >= c.width,
        },
        at_bottom_wall: y + c.radius >= c.height,
        at_top_wall: y - c.radius <= 0.0,
    }
}

fn perform(c: &mut Court, command: Command, dt: f64) {
    match command {
        Command::Nothing => {}
        Command::Advance => {
            c.ball.0 += c.velocity.0 * dt;
            c.ball.1 += c.velocity.1 * dt;
            c.left_y = c.pointer_y;
        }
        Command::OpponentDown => c.right_y += OPPONENT_SPEED * dt,
        Command::OpponentUp => c.right_y -= OPPONENT_SPEED * dt,
        Command::Bounce(side) => {
            let paddle_y = match side {
                Player::Left => c.left_y,
                Player::Right => c.right_y,
            };
            c.velocity.0 = -c.velocity.0;
            c.velocity.1 = (c.ball.1 - paddle_y) * SPIN;
        }
        Command::Serve => {
            c.ball = (c.width / 2.0, c.height / 2.0);
            c.velocity = (-c.velocity.0, -c.velocity.1);
        }
        Command::FlipVertical => c.velocity.1 = -c.velocity.1,
    }
}

fn update(c: &mut Court, dt: f64) -> Vec<Command> {
    let mut commands = Vec::new();
    loop {
        let command = c.rules.step(observe(c));
        perform(c, command, dt);
        commands.push(command);
        if c.rules.stage() == Stage::Idle {
            return commands;
        }
    }
}

#[test]
fn ball_advances_by_velocity_times_tick() {
    let mut c = court();
    let commands = update(&mut c, 0.25);
    assert_eq!(commands[0], Command::Advance);
    assert_eq!(c.ball, (512.0 + 500.0 * 0.25, 300.0 + 200.0 * 0.25));
    assert_eq!(c.ball, (637.0, 350.0));
    assert_eq!(c.velocity, (500.0, 200.0));
}

#[test]
fn left_paddle_goes_where_the_pointer_was() {
    let mut c = court();
    c.pointer_y = -4000.0;
    update(&mut c, 0.01);
    assert_eq!(c.left_y, -4000.0);
    c.pointer_y = 123.5;
    update(&mut c, 0.01);
    assert_eq!(c.left_y, 123.5);
}

#[test]
fn opponent_moves_towards_the_ball() {
    let mut c = court();
    c.velocity = (0.0, 0.0);
    c.ball = (512.0, 400.0);
    let commands = update(&mut c, 0.5);
    assert_eq!(commands[1], Command::OpponentDown);
    assert_eq!(c.right_y, 400.0);
    let commands = update(&mut c, 0.5);
    assert_eq!(commands[1], Command::Nothing);
    assert_eq!(c.right_y, 400.0);
    c.ball = (512.0, 100.0);
    let commands = update(&mut c, 0.25);
    assert_eq!(commands[1], Command::OpponentUp);
    assert_eq!(c.right_y, 350.0);
}

#[test]
fn ball_at_paddle_centre_returns_level() {
    let mut c = court();
    c.ball = (15.0, 300.0);
    c.velocity = (-500.0, 0.0);
    let commands = update(&mut c, 0.01);
    assert_eq!(
        commands,
        vec![
            Command::Advance,
            Command::Nothing,
            Command::Bounce(Player::Left),
            Command::Nothing,
            Command::Nothing,
        ]
    );
    assert_eq!(c.ball, (10.0, 300.0));
    assert_eq!(c.velocity, (500.0, 0.0));
    assert_eq!(c.rules.score_left(), 0);
    assert_eq!(c.rules.score_right(), 0);
}

#[test]
fn ball_off_paddle_centre_returns_at_an_angle() {
    let mut c = court();
    c.ball = (15.0, 320.0);
    c.velocity = (-500.0, 0.0);
    let commands = update(&mut c, 0.01);
    assert_eq!(commands[2], Command::Bounce(Player::Left));
    assert_eq!(c.velocity, (500.0, 160.0));

    let mut c = court();
    c.ball = (15.0, 262.5);
    c.velocity = (-500.0, 0.0);
    update(&mut c, 0.01);
    assert_eq!(c.velocity, (500.0, -300.0));
}

#[test]
fn paddle_ends_are_part_of_the_paddle() {
    for y in [250.0, 350.0] {
        let mut c = court();
        c.ball = (15.0, y);
        c.velocity = (-500.0, 0.0);
        let commands = update(&mut c, 0.01);
        assert_eq!(commands[2], Command::Bounce(Player::Left));
        assert_eq!(c.velocity, (500.0, (y - 300.0) * 8.0));
    }
}

#[test]
fn right_paddle_returns_the_ball() {
    let mut c = court();
    c.ball = (1000.0, 300.0);
    c.velocity = (500.0, 0.0);
    c.right_y = 290.0;
    let commands = update(&mut c, 0.01);
    assert_eq!(commands[1], Command::OpponentDown);
    assert_eq!(c.right_y, 292.0);
    assert_eq!(commands[3], Command::Bounce(Player::Right));
    assert_eq!(c.ball, (1005.0, 300.0));
    assert_eq!(c.velocity, (-500.0, 64.0));
}

#[test]
fn ball_past_the_left_paddle_scores_for_the_right() {
    let mut c = court();
    c.pointer_y = 500.0;
    c.ball = (12.0, 100.0);
    c.velocity = (-500.0, 40.0);
    let commands = update(&mut c, 0.01);
    assert_eq!(commands[2], Command::Serve);
    assert_eq!(c.rules.score_right(), 1);
    assert_eq!(c.rules.score_left(), 0);
    assert_eq!(c.ball, (512.0, 300.0));
    assert_eq!(c.velocity, (500.0, -40.0));
    assert_eq!(c.rules.phase(), Phase::Playing);
}

#[test]
fn ball_short_of_the_boundary_is_still_in_play() {
    let mut c = court();
    c.pointer_y = 500.0;
    c.ball = (20.0, 100.0);
    c.velocity = (-500.0, 0.0);
    let commands = update(&mut c, 0.01);
    assert_eq!(commands[2], Command::Nothing);
    assert_eq!(c.ball, (15.0, 100.0));
    assert_eq!(c.velocity, (-500.0, 0.0));
    assert_eq!(c.rules.score_right(), 0);
}

#[test]
fn ball_past_the_right_paddle_scores_for_the_left() {
    let mut c = court();
    c.right_y = 100.0;
    c.ball = (1010.0, 500.0);
    c.velocity = (500.0, 0.0);
    let commands = update(&mut c, 0.01);
    assert_eq!(commands[3], Command::Serve);
    assert_eq!(c.rules.score_left(), 1);
    assert_eq!(c.ball, (512.0, 300.0));
    assert_eq!(c.velocity, (-500.0, 0.0));
}

#[test]
fn walls_turn_the_ball_without_moving_it() {
    let mut c = court();
    c.ball = (512.0, 588.0);
    c.velocity = (0.0, 200.0);
    let commands = update(&mut c, 0.01);
    assert_eq!(commands[4], Command::FlipVertical);
    assert_eq!(c.ball, (512.0, 590.0));
    assert_eq!(c.velocity, (0.0, -200.0));

    let mut c = court();
    c.ball = (512.0, 11.0);
    c.velocity = (0.0, -200.0);
    let commands = update(&mut c, 0.005);
    assert_eq!(commands[4], Command::FlipVertical);
    assert_eq!(c.ball, (512.0, 10.0));
    assert_eq!(c.velocity, (0.0, 200.0));
}

#[test]
fn serve_puts_the_ball_in_the_middle_and_turns_it() {
    let mut c = court();
    c.ball = (40.0, 77.0);
    c.velocity = (-321.0, 45.5);
    let command = c.rules.record_point(Player::Left);
    perform(&mut c, command, 0.0);
    assert_eq!(c.ball, (512.0, 300.0));
    assert_eq!(c.velocity, (321.0, -45.5));
    let command = c.rules.reset();
    perform(&mut c, command, 0.0);
    assert_eq!(c.ball, (512.0, 300.0));
    assert_eq!(c.velocity, (-321.0, 45.5));
}

#[test]
fn finished_match_freezes_the_court() {
    let mut c = court();
    for _ in 0..5 {
        let command = c.rules.record_point(Player::Left);
        perform(&mut c, command, 0.0);
    }
    assert_eq!(c.rules.phase(), Phase::GameOver);
    assert_eq!(c.rules.winner(), Some(Player::Left));
    c.pointer_y = 42.0;
    c.ball = (100.0, 100.0);
    let before = (c.ball, c.velocity, c.left_y, c.right_y, c.rules);
    for dt in [0.01, 1.0, 0.0, -2.0] {
        assert_eq!(update(&mut c, dt), vec![Command::Nothing]);
        assert_eq!((c.ball, c.velocity, c.left_y, c.right_y, c.rules), before);
    }
    let command = c.rules.handle_restart_click();
    perform(&mut c, command, 0.0);
    assert_eq!(command, Command::Serve);
    assert_eq!(c.rules.score_left(), 0);
    assert_eq!(c.rules.score_right(), 0);
    assert_eq!(c.rules.phase(), Phase::Playing);
    assert_eq!(c.ball, (512.0, 300.0));
    assert_eq!(update(&mut c, 0.01)[0], Command::Advance);
    assert_eq!(c.left_y, 42.0);
}

#[test]
fn fast_ball_can_meet_two_checks_in_one_tick() {
    let mut c = court();
    c.width = 20.0;
    c.right_y = 0.0;
    c.pointer_y = 0.0;
    c.ball = (15.0, 300.0);
    c.velocity = (-500.0, 0.0);
    let commands = update(&mut c, 0.01);
    assert_eq!(commands[2], Command::Serve);
    assert_eq!(commands[3], Command::Serve);
    assert_eq!(c.rules.score_left(), 1);
    assert_eq!(c.rules.score_right(), 1);
    assert_eq!(c.ball, (10.0, 300.0));
    assert_eq!(c.velocity, (-500.0, 0.0));
}

#[test]
fn whole_match_played_by_the_driver() {
    let mut c = court();
    c.pointer_y = -1000.0;
    let mut ticks = 0;
    while c.rules.phase() == Phase::Playing {
        update(&mut c, 1.0 / 60.0);
        ticks += 1;
        assert!(ticks < 100_000);
        assert!(c.rules.score_left() <= 5);
        assert!(c.rules.score_right() <= 5);
    }
    assert!(c.rules.score_left() == 5 || c.rules.score_right() == 5);
    assert!(c.rules.winner().is_some());
}

#[test]
fn degenerate_tick_lengths_are_taken_as_they_are() {
    let mut c = court();
    let commands = update(&mut c, 0.0);
    assert_eq!(commands.len(), 5);
    assert_eq!(c.ball, (512.0, 300.0));
    assert_eq!(c.velocity, (500.0, 200.0));
    update(&mut c, -0.5);
    assert_eq!(c.ball, (262.0, 200.0));
    assert_eq!(c.right_y, 400.0);
    assert_eq!(c.velocity, (500.0, 200.0));
}

#[test]
fn restart_leaves_the_paddles_where_they_are() {
    let mut c = court();
    c.pointer_y = 77.0;
    c.velocity = (0.0, 0.0);
    c.ball = (512.0, 500.0);
    update(&mut c, 0.25);
    assert_eq!(c.left_y, 77.0);
    assert_eq!(c.right_y, 350.0);
    for _ in 0..5 {
        let command = c.rules.record_point(Player::Right);
        perform(&mut c, command, 0.0);
    }
    assert_eq!(c.rules.winner(), Some(Player::Right));
    let command = c.rules.handle_restart_click();
    perform(&mut c, command, 0.0);
    assert_eq!(c.left_y, 77.0);
    assert_eq!(c.right_y, 350.0);
    assert_eq!(c.ball, (512.0, 300.0));
    assert_eq!(c.rules.phase(), Phase::Playing);
}

#[test]
fn opponent_lags_the_ball_by_its_own_speed() {
    let mut c = court();
    c.velocity = (0.0, 0.0);
    c.ball = (512.0, 301.0);
    let commands = update(&mut c, 0.25);
    assert_eq!(commands[1], Command::OpponentDown);
    assert_eq!(c.right_y, 350.0);
    let commands = update(&mut c, 0.25);
    assert_eq!(commands[1], Command::OpponentUp);
    assert_eq!(c.right_y, 300.0);
}
