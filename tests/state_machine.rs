use walk_the_dog::state::{
    Event, RedHatBoyContext, RedHatBoyStateMachine, FLOOR, HEIGHT, IDLE_FRAMES, JUMP_SPEED,
    PLAYER_HEIGHT, RUNNING_FRAMES, RUNNING_SPEED, STARTING_POINT, TERMINAL_VELOCITY,
};

fn ctx(m: &RedHatBoyStateMachine) -> RedHatBoyContext {
    *m.context()
}

fn running() -> RedHatBoyStateMachine {
    RedHatBoyStateMachine::new().transition(Event::Run)
}

fn is_running(m: &RedHatBoyStateMachine) -> bool {
    matches!(m, RedHatBoyStateMachine::Running(_))
}

#[test]
fn starts_idle_on_the_floor() {
    let m = RedHatBoyStateMachine::new();
    assert!(matches!(m, RedHatBoyStateMachine::Idle(_)));
    let c = ctx(&m);
    assert_eq!(c.frame, 0);
    assert_eq!(c.position.x, STARTING_POINT);
    assert_eq!(c.position.y, FLOOR);
    assert_eq!(c.velocity.x, 0);
    assert_eq!(c.velocity.y, 0);
    assert_eq!(m.frame_name(), "Idle");
}

#[test]
fn player_height_fits_floor_and_height() {
    assert_eq!(HEIGHT - PLAYER_HEIGHT, FLOOR);
    assert_eq!(PLAYER_HEIGHT, 121);
}

#[test]
fn unlisted_events_change_nothing() {
    let idle = RedHatBoyStateMachine::new();
    for e in [Event::Jump, Event::Slide, Event::Land(300)] {
        let after = idle.transition(e);
        assert!(matches!(after, RedHatBoyStateMachine::Idle(_)));
        assert_eq!(ctx(&after), ctx(&idle));
    }
    let run = running();
    let after = run.transition(Event::Run);
    assert!(is_running(&after));
    assert_eq!(ctx(&after), ctx(&run));
    let jumping = run.transition(Event::Jump);
    for e in [Event::Run, Event::Jump, Event::Slide] {
        let after = jumping.transition(e);
        assert!(matches!(after, RedHatBoyStateMachine::Jumping(_)));
        assert_eq!(ctx(&after), ctx(&jumping));
    }
    let sliding = run.transition(Event::Slide);
    for e in [Event::Run, Event::Jump, Event::Slide] {
        let after = sliding.transition(e);
        assert!(matches!(after, RedHatBoyStateMachine::Sliding(_)));
        assert_eq!(ctx(&after), ctx(&sliding));
    }
    let falling = run.transition(Event::KnockOut);
    for e in [Event::Run, Event::Jump, Event::Slide, Event::KnockOut, Event::Land(10)] {
        let after = falling.transition(e);
        assert!(matches!(after, RedHatBoyStateMachine::Falling(_)));
        assert_eq!(ctx(&after), ctx(&falling));
    }
}

#[test]
fn knocked_out_is_terminal() {
    let mut m = running().transition(Event::KnockOut);
    let mut ticks = 0;
    while !matches!(m, RedHatBoyStateMachine::KnockedOut(_)) {
        m = m.update();
        ticks += 1;
        assert!(ticks < 100);
    }
    assert_eq!(m.frame_name(), "Dead");
    assert_eq!(ticks, 29);
    assert_eq!(ctx(&m).frame, 0);
    let c = ctx(&m);
    for e in [Event::Run, Event::Jump, Event::Slide, Event::Update, Event::KnockOut, Event::Land(5)] {
        let after = m.transition(e);
        assert!(matches!(after, RedHatBoyStateMachine::KnockedOut(_)));
        assert_eq!(ctx(&after), c);
    }
}

#[test]
fn idle_frame_cycles_and_wraps() {
    let mut m = RedHatBoyStateMachine::new();
    for expected in 1..=IDLE_FRAMES {
        m = m.update();
        assert_eq!(ctx(&m).frame, expected);
    }
    m = m.update();
    assert_eq!(ctx(&m).frame, 0);
    assert!(matches!(m, RedHatBoyStateMachine::Idle(_)));
}

#[test]
fn running_frame_never_exceeds_limit() {
    let mut m = running();
    let mut seen_zero_again = false;
    for i in 0..200 {
        m = m.update();
        assert!(ctx(&m).frame <= RUNNING_FRAMES);
        if i > 0 && ctx(&m).frame == 0 {
            seen_zero_again = true;
        }
    }
    assert!(seen_zero_again);
    assert!(is_running(&m));
}

#[test]
fn vertical_velocity_never_exceeds_terminal() {
    let mut m = running().transition(Event::Jump);
    for _ in 0..500 {
        m = m.update();
        assert!(ctx(&m).velocity.y <= TERMINAL_VELOCITY);
    }
    assert_eq!(ctx(&m).velocity.y, TERMINAL_VELOCITY);
}

#[test]
fn run_then_sixty_ticks_stays_running_on_floor() {
    let mut m = RedHatBoyStateMachine::new().transition(Event::Run);
    for _ in 0..60 {
        m = m.update();
    }
    assert!(is_running(&m));
    let c = ctx(&m);
    assert_eq!(c.velocity.x, RUNNING_SPEED);
    assert_eq!(c.position.y, FLOOR);
    // Gravity keeps acting on a character standing on the floor, up to the
    // terminal velocity.
    assert_eq!(c.velocity.y, TERMINAL_VELOCITY);
}

#[test]
fn jump_integrates_gravity_and_lands_on_floor() {
    let m = running();
    let mut m = m.transition(Event::Jump);
    assert!(matches!(m, RedHatBoyStateMachine::Jumping(_)));
    assert_eq!(ctx(&m).velocity.y, JUMP_SPEED);
    assert_eq!(ctx(&m).frame, 0);
    m = m.update();
    assert_eq!(ctx(&m).velocity.y, JUMP_SPEED + 1);
    assert_eq!(ctx(&m).position.y, FLOOR + JUMP_SPEED + 1);
    let mut ticks = 1;
    while matches!(m, RedHatBoyStateMachine::Jumping(_)) {
        assert!(ctx(&m).position.y < FLOOR);
        m = m.update();
        ticks += 1;
        assert!(ticks < 200);
    }
    assert!(is_running(&m));
    assert_eq!(ctx(&m).position.y, FLOOR);
    assert_eq!(ctx(&m).frame, 0);
    assert_eq!(ticks, 50);
}

#[test]
fn landing_puts_feet_on_the_surface() {
    let mut m = running().transition(Event::Jump);
    while ctx(&m).velocity.y <= 0 {
        m = m.update();
    }
    assert!(matches!(m, RedHatBoyStateMachine::Jumping(_)));
    let top: i16 = 400;
    assert!(ctx(&m).position.y < top);
    let landed = m.transition(Event::Land(top));
    assert!(is_running(&landed));
    assert_eq!(ctx(&landed).position.y, top - PLAYER_HEIGHT);
    assert_eq!(ctx(&landed).frame, 0);
}

#[test]
fn running_and_sliding_land_in_place() {
    let run = running();
    let landed = run.transition(Event::Land(420));
    assert!(is_running(&landed));
    assert_eq!(ctx(&landed).position.y, 299);
    let sliding = running().transition(Event::Slide);
    let landed = sliding.transition(Event::Land(420));
    assert!(matches!(landed, RedHatBoyStateMachine::Sliding(_)));
    assert_eq!(ctx(&landed).position.y, 299);
}

#[test]
fn land_saturates_at_the_lowest_coordinate() {
    let landed = running().transition(Event::Land(i16::MIN));
    assert_eq!(ctx(&landed).position.y, i16::MIN);
}

#[test]
fn slide_ends_in_running() {
    let mut m = running().transition(Event::Slide);
    assert_eq!(m.frame_name(), "Slide");
    let mut ticks = 0;
    while matches!(m, RedHatBoyStateMachine::Sliding(_)) {
        m = m.update();
        ticks += 1;
        assert!(ticks < 100);
    }
    assert!(is_running(&m));
    assert_eq!(ctx(&m).frame, 0);
    assert_eq!(ticks, 14);
}

#[test]
fn knock_out_stops_the_character() {
    let falling = running().transition(Event::KnockOut);
    assert!(matches!(falling, RedHatBoyStateMachine::Falling(_)));
    assert_eq!(ctx(&falling).velocity.x, 0);
    assert_eq!(ctx(&falling).frame, 0);
    let jumping = running().transition(Event::Jump);
    let falling = jumping.transition(Event::KnockOut);
    assert_eq!(ctx(&falling).velocity.x, 0);
    assert_eq!(ctx(&falling).velocity.y, 0);
    let idle = RedHatBoyStateMachine::new().transition(Event::KnockOut);
    assert!(matches!(idle, RedHatBoyStateMachine::Falling(_)));
}

#[test]
fn frame_names_per_state() {
    let run = running();
    assert_eq!(run.frame_name(), "Run");
    assert_eq!(run.transition(Event::Jump).frame_name(), "Jump");
    assert_eq!(run.transition(Event::KnockOut).frame_name(), "Dead");
}
