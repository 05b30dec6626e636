use vstd::prelude::*;
use crate::geometry::{add_sat, clamp_i16, sub_sat, Point};

verus! {

pub const IDLE_FRAMES: u8 = 29;
pub const RUNNING_FRAMES: u8 = 23;
pub const JUMPING_FRAMES: u8 = 35;
pub const SLIDING_FRAMES: u8 = 14;
pub const FALLING_FRAMES: u8 = 29;
pub const RUNNING_SPEED: i16 = 4;
pub const JUMP_SPEED: i16 = -25;
pub const GRAVITY: i16 = 1;
pub const TERMINAL_VELOCITY: i16 = 20;
/// Height of the play area; a character standing on it has its top at `FLOOR`.
pub const HEIGHT: i16 = 600;
pub const FLOOR: i16 = 479;
pub const PLAYER_HEIGHT: i16 = 121;
pub const STARTING_POINT: i16 = -20;

pub const IDLE_FRAME_NAME: &'static str = "Idle";
pub const RUN_FRAME_NAME: &'static str = "Run";
pub const SLIDING_FRAME_NAME: &'static str = "Slide";
pub const JUMPING_FRAME_NAME: &'static str = "Jump";
pub const FALLING_FRAME_NAME: &'static str = "Dead";
pub const KNOCKED_OUT_FRAME_NAME: &'static str = "Dead";

/// What can happen to the character.
#[derive(Clone, Copy, Debug, PartialEq, Eq, Structural)]
pub enum Event {
    Run,
    Jump,
    Slide,
    Update,
    KnockOut,
    Land(i16),
}

/// The six states of the character, without their data.
#[derive(Clone, Copy, Debug, PartialEq, Eq, Structural)]
pub enum Phase {
    Idle,
    Running,
    Sliding,
    Jumping,
    Falling,
    KnockedOut,
}

/// Animation frame count of each state: its frame counter runs over `0..=frame_limit`.
pub open spec fn frame_limit(p: Phase) -> u8 {
    match p {
        Phase::Idle => IDLE_FRAMES,
        Phase::Running => RUNNING_FRAMES,
        Phase::Sliding => SLIDING_FRAMES,
        Phase::Jumping => JUMPING_FRAMES,
        Phase::Falling => FALLING_FRAMES,
        Phase::KnockedOut => FALLING_FRAMES,
    }
}

/// The sprite label of each state.
pub open spec fn phase_label(p: Phase) -> Seq<char> {
    match p {
        Phase::Idle => IDLE_FRAME_NAME@,
        Phase::Running => RUN_FRAME_NAME@,
        Phase::Sliding => SLIDING_FRAME_NAME@,
        Phase::Jumping => JUMPING_FRAME_NAME@,
        Phase::Falling => FALLING_FRAME_NAME@,
        Phase::KnockedOut => KNOCKED_OUT_FRAME_NAME@,
    }
}

/// Position, velocity and animation frame of the character.
#[derive(Clone, Copy, Debug, PartialEq, Eq, Structural)]
pub struct RedHatBoyContext {
    pub frame: u8,
    pub position: Point,
    pub velocity: Point,
}

impl RedHatBoyContext {
    /// One tick of physics with an animation cycle of `frame_count + 1` frames.
    pub open spec fn updated(self, frame_count: u8) -> RedHatBoyContext {
        let vy: i16 = if self.velocity.y + GRAVITY <= TERMINAL_VELOCITY {
            (self.velocity.y + GRAVITY) as i16
        } else {
            self.velocity.y
        };
        let y = clamp_i16(self.position.y + vy);
        RedHatBoyContext {
            frame: if self.frame < frame_count {
                (self.frame + 1) as u8
            } else {
                0
            },
            position: Point { x: self.position.x, y: if y > FLOOR { FLOOR } else { y as i16 } },
            velocity: Point { x: self.velocity.x, y: vy },
        }
    }

    pub open spec fn with_frame_reset(self) -> RedHatBoyContext {
        RedHatBoyContext { frame: 0, ..self }
    }

    pub open spec fn with_vertical_velocity(self, y: i16) -> RedHatBoyContext {
        RedHatBoyContext { velocity: Point { x: self.velocity.x, y }, ..self }
    }

    pub open spec fn with_horizontal_velocity(self, x: i16) -> RedHatBoyContext {
        RedHatBoyContext { velocity: Point { x, y: self.velocity.y }, ..self }
    }

    pub open spec fn running_right(self) -> RedHatBoyContext {
        self.with_horizontal_velocity(clamp_i16(self.velocity.x + RUNNING_SPEED) as i16)
    }

    /// Placed so that the character's bottom rests on `surface`.
    pub open spec fn placed_on(self, surface: i16) -> RedHatBoyContext {
        RedHatBoyContext {
            position: Point {
                x: self.position.x,
                y: clamp_i16(surface - PLAYER_HEIGHT) as i16,
            },
            ..self
        }
    }

    /// Applies gravity, advances the frame counter (wrapping to 0 after
    /// `frame_count`), moves vertically and keeps the character above the floor.
    pub fn update(self, frame_count: u8) -> (r: Self)
        ensures
            r == self.updated(frame_count),
    {
        let mut c = self;
        if c.velocity.y <= TERMINAL_VELOCITY - GRAVITY {
            c.velocity.y = c.velocity.y + GRAVITY;
        }
        if c.frame < frame_count {
            c.frame = c.frame + 1;
        } else {
            c.frame = 0;
        }
        c.position.y = add_sat(c.position.y, c.velocity.y);
        if c.position.y > FLOOR {
            c.position.y = FLOOR;
        }
        c
    }

    fn reset_frame(self) -> (r: Self)
        ensures
            r == self.with_frame_reset(),
    {
        let mut c = self;
        c.frame = 0;
        c
    }

    fn set_vertical_velocity(self, y: i16) -> (r: Self)
        ensures
            r == self.with_vertical_velocity(y),
    {
        let mut c = self;
        c.velocity.y = y;
        c
    }

    fn set_horizontal_velocity(self, x: i16) -> (r: Self)
        ensures
            r == self.with_horizontal_velocity(x),
    {
        let mut c = self;
        c.velocity.x = x;
        c
    }

    fn run_right(self) -> (r: Self)
        ensures
            r == self.running_right(),
    {
        let mut c = self;
        c.velocity.x = add_sat(c.velocity.x, RUNNING_SPEED);
        c
    }

    /// Repositions the character so that its bottom rests on `position`.
    pub fn set_on(self, position: i16) -> (r: Self)
        ensures
            r == self.placed_on(position),
    {
        let mut c = self;
        c.position.y = sub_sat(position, PLAYER_HEIGHT);
        c
    }
}

/// The character in state `S`, owning its physics context.
#[derive(Clone, Copy, Debug)]
pub struct RedHatBoyState<S> {
    context: RedHatBoyContext,
    _state: S,
}

impl<S> RedHatBoyState<S> {
    pub closed spec fn ctx(&self) -> RedHatBoyContext {
        self.context
    }

    pub fn context(&self) -> (r: &RedHatBoyContext)
        ensures
            *r == self.ctx(),
    {
        &self.context
    }

    fn update_context(&mut self, frames: u8)
        ensures
            final(self).ctx() == old(self).ctx().updated(frames),
            final(self)._state == old(self)._state,
    {
        self.context = self.context.update(frames);
    }
}

#[derive(Clone, Copy, Debug, PartialEq, Eq, Structural)]
pub struct Idle;

impl RedHatBoyState<Idle> {
    /// The character standing at the starting point on the floor.
    pub fn new() -> (r: Self)
        ensures
            r.ctx() == (RedHatBoyContext {
                frame: 0,
                position: Point { x: STARTING_POINT, y: FLOOR },
                velocity: Point { x: 0, y: 0 },
            }),
    {
        RedHatBoyState {
            context: RedHatBoyContext {
                frame: 0,
                position: Point { x: STARTING_POINT, y: FLOOR },
                velocity: Point { x: 0, y: 0 },
            },
            _state: Idle,
        }
    }

    pub fn frame_name(&self) -> (r: &'static str)
        ensures
            r@ == phase_label(Phase::Idle),
    {
        IDLE_FRAME_NAME
    }

    pub fn update(self) -> (r: RedHatBoyState<Idle>)
        ensures
            r.ctx() == self.ctx().updated(IDLE_FRAMES),
    {
        let mut s = self;
        s.update_context(IDLE_FRAMES);
        s
    }

    pub fn run(self) -> (r: RedHatBoyState<Running>)
        ensures
            r.ctx() == self.ctx().with_frame_reset().running_right(),
    {
        RedHatBoyState { context: self.context.reset_frame().run_right(), _state: Running }
    }

    pub fn knock_out(self) -> (r: RedHatBoyState<Falling>)
        ensures
            r.ctx() == self.ctx().with_frame_reset().with_horizontal_velocity(0),
    {
        RedHatBoyState {
            context: self.context.reset_frame().set_horizontal_velocity(0),
            _state: Falling,
        }
    }
}

#[derive(Clone, Copy, Debug, PartialEq, Eq, Structural)]
pub struct Running;

impl RedHatBoyState<Running> {
    pub fn frame_name(&self) -> (r: &'static str)
        ensures
            r@ == phase_label(Phase::Running),
    {
        RUN_FRAME_NAME
    }

    pub fn update(self) -> (r: RedHatBoyState<Running>)
        ensures
            r.ctx() == self.ctx().updated(RUNNING_FRAMES),
    {
        let mut s = self;
        s.update_context(RUNNING_FRAMES);
        s
    }

    /// Starts a jump: the caller is to play the jump sound.
    pub fn jump(self) -> (r: RedHatBoyState<Jumping>)
        ensures
            r.ctx() == self.ctx().with_frame_reset().with_vertical_velocity(JUMP_SPEED),
    {
        RedHatBoyState {
            context: self.context.reset_frame().set_vertical_velocity(JUMP_SPEED),
            _state: Jumping,
        }
    }

    pub fn slide(self) -> (r: RedHatBoyState<Sliding>)
        ensures
            r.ctx() == self.ctx().with_frame_reset(),
    {
        RedHatBoyState { context: self.context.reset_frame(), _state: Sliding }
    }

    pub fn knock_out(self) -> (r: RedHatBoyState<Falling>)
        ensures
            r.ctx() == self.ctx().with_frame_reset().with_horizontal_velocity(0),
    {
        RedHatBoyState {
            context: self.context.reset_frame().set_horizontal_velocity(0),
            _state: Falling,
        }
    }

    pub fn land_on(self, position: i16) -> (r: RedHatBoyState<Running>)
        ensures
            r.ctx() == self.ctx().placed_on(position),
    {
        RedHatBoyState { context: self.context.set_on(position), _state: Running }
    }
}

#[derive(Clone, Copy, Debug, PartialEq, Eq, Structural)]
pub struct Jumping;

pub enum JumpingEndState {
    Jumping(RedHatBoyState<Jumping>),
    Landing(RedHatBoyState<Running>),
}

impl RedHatBoyState<Jumping> {
    pub fn frame_name(&self) -> (r: &'static str)
        ensures
            r@ == phase_label(Phase::Jumping),
    {
        JUMPING_FRAME_NAME
    }

    /// One tick in the air; reaching the floor lands the character.
    pub fn update(self) -> (r: JumpingEndState)
        ensures
            ({
                let c = self.ctx().updated(JUMPING_FRAMES);
                if c.position.y >= FLOOR {
                    r is Landing && r->Landing_0.ctx() == c.with_frame_reset().placed_on(HEIGHT)
                } else {
                    r is Jumping && r->Jumping_0.ctx() == c
                }
            }),
    {
        let mut s = self;
        s.update_context(JUMPING_FRAMES);
        if s.context.position.y >= FLOOR {
            JumpingEndState::Landing(s.land_on(HEIGHT))
        } else {
            JumpingEndState::Jumping(s)
        }
    }

    pub fn land_on(self, position: i16) -> (r: RedHatBoyState<Running>)
        ensures
            r.ctx() == self.ctx().with_frame_reset().placed_on(position),
    {
        RedHatBoyState { context: self.context.reset_frame().set_on(position), _state: Running }
    }

    pub fn knock_out(self) -> (r: RedHatBoyState<Falling>)
        ensures
            r.ctx() == self.ctx().with_frame_reset().with_horizontal_velocity(
                0,
            ).with_vertical_velocity(0),
    {
        RedHatBoyState {
            context: self.context.reset_frame().set_horizontal_velocity(0).set_vertical_velocity(
                0,
            ),
            _state: Falling,
        }
    }
}

#[derive(Clone, Copy, Debug, PartialEq, Eq, Structural)]
pub struct Sliding;

pub enum SlidingEndState {
    Sliding(RedHatBoyState<Sliding>),
    Running(RedHatBoyState<Running>),
}

impl RedHatBoyState<Sliding> {
    pub fn frame_name(&self) -> (r: &'static str)
        ensures
            r@ == phase_label(Phase::Sliding),
    {
        SLIDING_FRAME_NAME
    }

    /// One tick of sliding; the slide ends when its animation has played.
    pub fn update(self) -> (r: SlidingEndState)
        ensures
            ({
                let c = self.ctx().updated(SLIDING_FRAMES);
                if c.frame >= SLIDING_FRAMES {
                    r is Running && r->Running_0.ctx() == c.with_frame_reset()
                } else {
                    r is Sliding && r->Sliding_0.ctx() == c
                }
            }),
    {
        let mut s = self;
        s.update_context(SLIDING_FRAMES);
        if s.context.frame >= SLIDING_FRAMES {
            SlidingEndState::Running(s.stand())
        } else {
            SlidingEndState::Sliding(s)
        }
    }

    pub fn stand(self) -> (r: RedHatBoyState<Running>)
        ensures
            r.ctx() == self.ctx().with_frame_reset(),
    {
        RedHatBoyState { context: self.context.reset_frame(), _state: Running }
    }

    pub fn knock_out(self) -> (r: RedHatBoyState<Falling>)
        ensures
            r.ctx() == self.ctx().with_frame_reset().with_horizontal_velocity(0),
    {
        RedHatBoyState {
            context: self.context.reset_frame().set_horizontal_velocity(0),
            _state: Falling,
        }
    }

    pub fn land_on(self, position: i16) -> (r: RedHatBoyState<Sliding>)
        ensures
            r.ctx() == self.ctx().placed_on(position),
    {
        RedHatBoyState { context: self.context.set_on(position), _state: Sliding }
    }
}

#[derive(Clone, Copy, Debug, PartialEq, Eq, Structural)]
pub struct Falling;

pub enum FallingEndState {
    Falling(RedHatBoyState<Falling>),
    KnockedOut(RedHatBoyState<KnockedOut>),
}

impl RedHatBoyState<Falling> {
    pub fn frame_name(&self) -> (r: &'static str)
        ensures
            r@ == phase_label(Phase::Falling),
    {
        FALLING_FRAME_NAME
    }

    /// One tick of falling; the fall ends when its animation has played.
    pub fn update(self) -> (r: FallingEndState)
        ensures
            ({
                let c = self.ctx().updated(FALLING_FRAMES);
                if c.frame >= FALLING_FRAMES {
                    r is KnockedOut && r->KnockedOut_0.ctx() == c.with_frame_reset()
                } else {
                    r is Falling && r->Falling_0.ctx() == c
                }
            }),
    {
        let mut s = self;
        s.update_context(FALLING_FRAMES);
        if s.context.frame >= FALLING_FRAMES {
            FallingEndState::KnockedOut(s.knock_out())
        } else {
            FallingEndState::Falling(s)
        }
    }

    pub fn knock_out(self) -> (r: RedHatBoyState<KnockedOut>)
        ensures
            r.ctx() == self.ctx().with_frame_reset(),
    {
        RedHatBoyState { context: self.context.reset_frame(), _state: KnockedOut }
    }
}

#[derive(Clone, Copy, Debug, PartialEq, Eq, Structural)]
pub struct KnockedOut;

impl RedHatBoyState<KnockedOut> {
    pub fn frame_name(&self) -> (r: &'static str)
        ensures
            r@ == phase_label(Phase::KnockedOut),
    {
        KNOCKED_OUT_FRAME_NAME
    }
}

/// The character in exactly one of its six states.
#[derive(Clone, Copy, Debug)]
pub enum RedHatBoyStateMachine {
    Idle(RedHatBoyState<Idle>),
    Running(RedHatBoyState<Running>),
    Sliding(RedHatBoyState<Sliding>),
    Jumping(RedHatBoyState<Jumping>),
    Falling(RedHatBoyState<Falling>),
    KnockedOut(RedHatBoyState<KnockedOut>),
}

/// Whether the transition table has a row for `event` in `phase`.
pub open spec fn in_table(phase: Phase, event: Event) -> bool {
    match (phase, event) {
        (Phase::Idle, Event::Run) | (Phase::Idle, Event::KnockOut) | (Phase::Idle, Event::Update) => true,
        (Phase::Running, Event::Jump)
        | (Phase::Running, Event::Slide)
        | (Phase::Running, Event::Land(_))
        | (Phase::Running, Event::KnockOut)
        | (Phase::Running, Event::Update) => true,
        (Phase::Sliding, Event::Land(_))
        | (Phase::Sliding, Event::KnockOut)
        | (Phase::Sliding, Event::Update) => true,
        (Phase::Jumping, Event::Land(_))
        | (Phase::Jumping, Event::KnockOut)
        | (Phase::Jumping, Event::Update) => true,
        (Phase::Falling, Event::Update) => true,
        _ => false,
    }
}

/// The transition table: the state and context that `event` leads to.
pub open spec fn next_state(phase: Phase, c: RedHatBoyContext, event: Event) -> (Phase, RedHatBoyContext) {
    match (phase, event) {
        (Phase::Idle, Event::Run) => (Phase::Running, c.with_frame_reset().running_right()),
        (Phase::Idle, Event::KnockOut) => (Phase::Falling, c.with_frame_reset().with_horizontal_velocity(0)),
        (Phase::Idle, Event::Update) => (Phase::Idle, c.updated(IDLE_FRAMES)),
        (Phase::Running, Event::Jump) => (
            Phase::Jumping,
            c.with_frame_reset().with_vertical_velocity(JUMP_SPEED),
        ),
        (Phase::Running, Event::Slide) => (Phase::Sliding, c.with_frame_reset()),
        (Phase::Running, Event::Land(y)) => (Phase::Running, c.placed_on(y)),
        (Phase::Running, Event::KnockOut) => (
            Phase::Falling,
            c.with_frame_reset().with_horizontal_velocity(0),
        ),
        (Phase::Running, Event::Update) => (Phase::Running, c.updated(RUNNING_FRAMES)),
        (Phase::Sliding, Event::Land(y)) => (Phase::Sliding, c.placed_on(y)),
        (Phase::Sliding, Event::KnockOut) => (
            Phase::Falling,
            c.with_frame_reset().with_horizontal_velocity(0),
        ),
        (Phase::Sliding, Event::Update) => {
            let u = c.updated(SLIDING_FRAMES);
            if u.frame >= SLIDING_FRAMES {
                (Phase::Running, u.with_frame_reset())
            } else {
                (Phase::Sliding, u)
            }
        },
        (Phase::Jumping, Event::Land(y)) => (Phase::Running, c.with_frame_reset().placed_on(y)),
        (Phase::Jumping, Event::KnockOut) => (
            Phase::Falling,
            c.with_frame_reset().with_horizontal_velocity(0).with_vertical_velocity(0),
        ),
        (Phase::Jumping, Event::Update) => {
            let u = c.updated(JUMPING_FRAMES);
            if u.position.y >= FLOOR {
                (Phase::Running, u.with_frame_reset().placed_on(HEIGHT))
            } else {
                (Phase::Jumping, u)
            }
        },
        (Phase::Falling, Event::Update) => {
            let u = c.updated(FALLING_FRAMES);
            if u.frame >= FALLING_FRAMES {
                (Phase::KnockedOut, u.with_frame_reset())
            } else {
                (Phase::Falling, u)
            }
        },
        _ => (phase, c),
    }
}

impl RedHatBoyStateMachine {
    pub open spec fn phase(&self) -> Phase {
        match self {
            RedHatBoyStateMachine::Idle(_) => Phase::Idle,
            RedHatBoyStateMachine::Running(_) => Phase::Running,
            RedHatBoyStateMachine::Sliding(_) => Phase::Sliding,
            RedHatBoyStateMachine::Jumping(_) => Phase::Jumping,
            RedHatBoyStateMachine::Falling(_) => Phase::Falling,
            RedHatBoyStateMachine::KnockedOut(_) => Phase::KnockedOut,
        }
    }

    pub open spec fn ctx(&self) -> RedHatBoyContext {
        match self {
            RedHatBoyStateMachine::Idle(s) => s.ctx(),
            RedHatBoyStateMachine::Running(s) => s.ctx(),
            RedHatBoyStateMachine::Sliding(s) => s.ctx(),
            RedHatBoyStateMachine::Jumping(s) => s.ctx(),
            RedHatBoyStateMachine::Falling(s) => s.ctx(),
            RedHatBoyStateMachine::KnockedOut(s) => s.ctx(),
        }
    }

    /// The invariant of a live character: its frame counter stays within its
    /// state's cycle, and it never falls faster than the terminal velocity.
    pub open spec fn wf(&self) -> bool {
        &&& self.ctx().frame <= frame_limit(self.phase())
        &&& self.ctx().velocity.y <= TERMINAL_VELOCITY
    }

    /// The character as it is created: Idle at the starting point on the floor.
    pub fn new() -> (r: Self)
        ensures
            r.phase() == Phase::Idle,
            r.ctx() == (RedHatBoyContext {
                frame: 0,
                position: Point { x: STARTING_POINT, y: FLOOR },
                velocity: Point { x: 0, y: 0 },
            }),
            r.wf(),
    {
        RedHatBoyStateMachine::Idle(RedHatBoyState::<Idle>::new())
    }

    /// Applies `event`; pairs of state and event that the table does not list
    /// leave the machine unchanged.
    pub fn transition(self, event: Event) -> (r: Self)
        ensures
            (r.phase(), r.ctx()) == next_state(self.phase(), self.ctx(), event),
            !in_table(self.phase(), event) ==> r == self,
            self.wf() ==> r.wf(),
    {
        match self {
            RedHatBoyStateMachine::Idle(state) => match event {
                Event::Run => RedHatBoyStateMachine::Running(state.run()),
                Event::KnockOut => RedHatBoyStateMachine::Falling(state.knock_out()),
                Event::Update => RedHatBoyStateMachine::Idle(state.update()),
                _ => self,
            },
            RedHatBoyStateMachine::Running(state) => match event {
                Event::Jump => RedHatBoyStateMachine::Jumping(state.jump()),
                Event::Slide => RedHatBoyStateMachine::Sliding(state.slide()),
                Event::Land(y) => RedHatBoyStateMachine::Running(state.land_on(y)),
                Event::KnockOut => RedHatBoyStateMachine::Falling(state.knock_out()),
                Event::Update => RedHatBoyStateMachine::Running(state.update()),
                _ => self,
            },
            RedHatBoyStateMachine::Sliding(state) => match event {
                Event::Land(y) => RedHatBoyStateMachine::Sliding(state.land_on(y)),
                Event::KnockOut => RedHatBoyStateMachine::Falling(state.knock_out()),
                Event::Update => match state.update() {
                    SlidingEndState::Sliding(sliding) => RedHatBoyStateMachine::Sliding(sliding),
                    SlidingEndState::Running(running) => RedHatBoyStateMachine::Running(running),
                },
                _ => self,
            },
            RedHatBoyStateMachine::Jumping(state) => match event {
                Event::Land(y) => RedHatBoyStateMachine::Running(state.land_on(y)),
                Event::KnockOut => RedHatBoyStateMachine::Falling(state.knock_out()),
                Event::Update => match state.update() {
                    JumpingEndState::Jumping(jumping) => RedHatBoyStateMachine::Jumping(jumping),
                    JumpingEndState::Landing(landing) => RedHatBoyStateMachine::Running(landing),
                },
                _ => self,
            },
            RedHatBoyStateMachine::Falling(state) => match event {
                Event::Update => match state.update() {
                    FallingEndState::Falling(falling) => RedHatBoyStateMachine::Falling(falling),
                    FallingEndState::KnockedOut(out) => RedHatBoyStateMachine::KnockedOut(out),
                },
                _ => self,
            },
            RedHatBoyStateMachine::KnockedOut(_) => self,
        }
    }

    /// The sprite label of the current state.
    pub fn frame_name(&self) -> (r: &'static str)
        ensures
            r@ == phase_label(self.phase()),
    {
        match self {
            RedHatBoyStateMachine::Idle(state) => state.frame_name(),
            RedHatBoyStateMachine::Running(state) => state.frame_name(),
            RedHatBoyStateMachine::Sliding(state) => state.frame_name(),
            RedHatBoyStateMachine::Jumping(state) => state.frame_name(),
            RedHatBoyStateMachine::Falling(state) => state.frame_name(),
            RedHatBoyStateMachine::KnockedOut(state) => state.frame_name(),
        }
    }

    pub fn context(&self) -> (r: &RedHatBoyContext)
        ensures
            *r == self.ctx(),
    {
        match self {
            RedHatBoyStateMachine::Idle(state) => state.context(),
            RedHatBoyStateMachine::Running(state) => state.context(),
            RedHatBoyStateMachine::Sliding(state) => state.context(),
            RedHatBoyStateMachine::Jumping(state) => state.context(),
            RedHatBoyStateMachine::Falling(state) => state.context(),
            RedHatBoyStateMachine::KnockedOut(state) => state.context(),
        }
    }

    /// One tick: the `Update` event.
    pub fn update(self) -> (r: Self)
        ensures
            (r.phase(), r.ctx()) == next_state(self.phase(), self.ctx(), Event::Update),
            self.wf() ==> r.wf(),
    {
        self.transition(Event::Update)
    }
}

/// The state and context after `n` ticks with no other event.
pub open spec fn after_updates(phase: Phase, c: RedHatBoyContext, n: nat) -> (Phase, RedHatBoyContext)
    decreases n,
{
    if n == 0 {
        (phase, c)
    } else {
        let s = after_updates(phase, c, (n - 1) as nat);
        next_state(s.0, s.1, Event::Update)
    }
}

/// An event that the table does not list for a state changes nothing.
pub proof fn lemma_unlisted_event_changes_nothing(phase: Phase, c: RedHatBoyContext, event: Event)
    requires
        !in_table(phase, event),
    ensures
        next_state(phase, c, event) == (phase, c),
{
}

/// Idle and Running stay as they are on `Update`, and their frame counter
/// steps through `0..=frame_limit` and wraps back to 0, never beyond the limit.
pub proof fn lemma_update_cycles_frame(phase: Phase, c: RedHatBoyContext)
    requires
        phase == Phase::Idle || phase == Phase::Running,
        c.frame <= frame_limit(phase),
    ensures
        next_state(phase, c, Event::Update).0 == phase,
        next_state(phase, c, Event::Update).1.frame == if c.frame < frame_limit(phase) {
            c.frame + 1
        } else {
            0
        },
        next_state(phase, c, Event::Update).1.frame <= frame_limit(phase),
{
}

/// However many ticks pass, the character never falls faster than the
/// terminal velocity.
pub proof fn lemma_updates_keep_terminal_velocity(phase: Phase, c: RedHatBoyContext, n: nat)
    requires
        c.velocity.y <= TERMINAL_VELOCITY,
    ensures
        after_updates(phase, c, n).1.velocity.y <= TERMINAL_VELOCITY,
    decreases n,
{
    if n > 0 {
        lemma_updates_keep_terminal_velocity(phase, c, (n - 1) as nat);
    }
}

/// A jumping character coming down from above a surface lands on it running,
/// with its feet exactly on the surface.
pub proof fn lemma_landing_aligns_feet(c: RedHatBoyContext, top: i16)
    requires
        c.velocity.y > 0,
        c.position.y < top,
        top >= i16::MIN + PLAYER_HEIGHT,
    ensures
        next_state(Phase::Jumping, c, Event::Land(top)).0 == Phase::Running,
        next_state(Phase::Jumping, c, Event::Land(top)).1.position.y == top - PLAYER_HEIGHT,
        next_state(Phase::Jumping, c, Event::Land(top)).1.frame == 0,
{
}

/// A jump starts at the jump speed; when a tick in the air reaches the floor,
/// the character runs again, on the floor, from the first frame.
pub proof fn lemma_jump_lands_on_floor(c: RedHatBoyContext)
    ensures
        next_state(Phase::Running, c, Event::Jump).0 == Phase::Jumping,
        next_state(Phase::Running, c, Event::Jump).1.velocity.y == JUMP_SPEED,
        c.updated(JUMPING_FRAMES).position.y >= FLOOR ==> {
            &&& next_state(Phase::Jumping, c, Event::Update).0 == Phase::Running
            &&& next_state(Phase::Jumping, c, Event::Update).1.position.y == FLOOR
            &&& next_state(Phase::Jumping, c, Event::Update).1.frame == 0
        },
        c.updated(JUMPING_FRAMES).position.y < FLOOR ==> next_state(Phase::Jumping, c, Event::Update).0
            == Phase::Jumping,
{
}

/// Once knocked out, the character stays knocked out whatever happens.
pub proof fn lemma_knocked_out_is_final(c: RedHatBoyContext, event: Event)
    ensures
        next_state(Phase::KnockedOut, c, event) == (Phase::KnockedOut, c),
{
}

/// One tick in the air, in plain terms: the vertical speed grows by gravity up
/// to the terminal velocity; a character that reaches the floor runs again on
/// it, from the first frame and where it was across; otherwise it keeps
/// jumping, that much lower.
pub proof fn lemma_jump_tick(c: RedHatBoyContext)
    requires
        c.velocity.y <= TERMINAL_VELOCITY,
        c.position.y + (if c.velocity.y + GRAVITY <= TERMINAL_VELOCITY {
            c.velocity.y + GRAVITY
        } else {
            TERMINAL_VELOCITY as int
        }) >= i16::MIN,
    ensures
        ({
            let v2 = if c.velocity.y + GRAVITY <= TERMINAL_VELOCITY {
                c.velocity.y + GRAVITY
            } else {
                TERMINAL_VELOCITY as int
            };
            let r = next_state(Phase::Jumping, c, Event::Update);
            if c.position.y + v2 >= FLOOR {
                &&& r.0 == Phase::Running
                &&& r.1.position.y == FLOOR
                &&& r.1.position.x == c.position.x
                &&& r.1.frame == 0
            } else {
                &&& r.0 == Phase::Jumping
                &&& r.1.position.y == c.position.y + v2
                &&& r.1.velocity.y == v2
            }
        }),
{
}

} // verus!
