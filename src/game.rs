use vstd::prelude::*;
use rand::Rng;
use crate::engine::KeyState;
use crate::geometry::{add_sat, clamp_i16, sub_sat, Point, Rect, Size};
use crate::obstacle::{
    all_have_boxes, lemma_max_right_edge_append, max_right, max_right_edge, rightmost, AnyObstacle,
    Image, Obstacle,
};
use crate::segments::{is_segment, segment, stone_and_platform, SEGMENT_KINDS};
use crate::sheet::{sprite_file_name, sprite_name, Cell, Sheet, SheetEntry};
use crate::state::{
    frame_limit, next_state, phase_label, Event, Phase, RedHatBoyContext, RedHatBoyStateMachine,
    FALLING_FRAMES, FALLING_FRAME_NAME, IDLE_FRAMES, IDLE_FRAME_NAME, JUMPING_FRAMES,
    JUMPING_FRAME_NAME, KNOCKED_OUT_FRAME_NAME, RUNNING_FRAMES, RUN_FRAME_NAME, SLIDING_FRAMES,
    SLIDING_FRAME_NAME, FLOOR, STARTING_POINT,
};

verus! {

/// Logical ticks for which each sprite of an animation stays on screen.
pub const TICKS_PER_SPRITE: u8 = 3;
/// How far the collision box lies inside the sprite's bounds on each side.
pub const COLLISION_INSET: i16 = 15;

/// The sprite shown for frame counter `frame` of an animation: `frame / 3 + 1`.
pub open spec fn sprite_number(frame: u8) -> nat {
    (frame / TICKS_PER_SPRITE + 1) as nat
}

/// Every sprite that some state and frame counter can show is in `sheet`.
pub open spec fn sheet_complete(sheet: Seq<SheetEntry>) -> bool {
    forall|p: Phase, n: nat|
        1 <= n <= sprite_number(frame_limit(p)) ==> #[trigger] crate::sheet::find_cell(
            sheet,
            sprite_name(phase_label(p), n),
        ) is Some
}

/// Where the sprite `cell` is drawn for a character at `position`.
pub open spec fn bounding_rect(position: Point, cell: Cell) -> Rect {
    Rect {
        position: Point {
            x: clamp_i16(position.x + cell.sprite_source_size.x) as i16,
            y: clamp_i16(position.y + cell.sprite_source_size.y) as i16,
        },
        width: cell.frame.w,
        height: cell.frame.h,
    }
}

/// The part of `bounds` that counts for collisions: inset on all four sides.
pub open spec fn inset_rect(bounds: Rect) -> Rect {
    Rect {
        position: Point {
            x: clamp_i16(bounds.position.x + COLLISION_INSET) as i16,
            y: clamp_i16(bounds.position.y + COLLISION_INSET) as i16,
        },
        width: clamp_i16(bounds.width - 2 * COLLISION_INSET) as i16,
        height: clamp_i16(bounds.height - 2 * COLLISION_INSET) as i16,
    }
}

/// The collision box of a character in state `phase` with context `c` whose
/// sprites come from `sheet`.
pub open spec fn collision_box_of(sheet: Seq<SheetEntry>, phase: Phase, c: RedHatBoyContext) -> Rect {
    inset_rect(
        bounding_rect(
            c.position,
            crate::sheet::find_cell(sheet, sprite_name(phase_label(phase), sprite_number(c.frame)))->Some_0,
        ),
    )
}

/// The player character: its state machine and the sheet its sprites come from.
#[derive(Clone, Debug)]
pub struct RedHatBoy {
    state_machine: RedHatBoyStateMachine,
    sprite_sheet: Sheet,
}

impl RedHatBoy {
    pub closed spec fn machine(&self) -> RedHatBoyStateMachine {
        self.state_machine
    }

    pub closed spec fn sheet(&self) -> Seq<SheetEntry> {
        self.sprite_sheet.entries()
    }

    pub open spec fn phase(&self) -> Phase {
        self.machine().phase()
    }

    pub open spec fn ctx(&self) -> RedHatBoyContext {
        self.machine().ctx()
    }

    /// A live character whose every sprite can be found.
    pub open spec fn wf(&self) -> bool {
        self.machine().wf() && sheet_complete(self.sheet())
    }

    /// `self` is `before` after `event`, with the same sheet.
    pub open spec fn follows(self, before: RedHatBoy, event: Event) -> bool {
        &&& (self.phase(), self.ctx()) == next_state(before.phase(), before.ctx(), event)
        &&& self.sheet() == before.sheet()
    }

    pub open spec fn sprite_name_spec(&self) -> Seq<char> {
        sprite_name(phase_label(self.phase()), sprite_number(self.ctx().frame))
    }

    pub open spec fn sprite_spec(&self) -> Option<Cell> {
        crate::sheet::find_cell(self.sheet(), self.sprite_name_spec())
    }

    pub open spec fn bounding_box_spec(&self) -> Rect {
        bounding_rect(self.ctx().position, self.sprite_spec()->Some_0)
    }

    pub open spec fn collision_box_spec(&self) -> Rect {
        collision_box_of(self.sheet(), self.phase(), self.ctx())
    }

    pub fn new(sprite_sheet: Sheet) -> (r: Self)
        ensures
            r.phase() == Phase::Idle,
            r.ctx() == (RedHatBoyContext {
                frame: 0,
                position: Point { x: STARTING_POINT, y: FLOOR },
                velocity: Point { x: 0, y: 0 },
            }),
            r.machine().wf(),
            r.sheet() == sprite_sheet.entries(),
    {
        RedHatBoy { state_machine: RedHatBoyStateMachine::new(), sprite_sheet }
    }

    fn apply(&mut self, event: Event)
        ensures
            final(self).follows(*old(self), event),
            old(self).machine().wf() ==> final(self).machine().wf(),
    {
        self.state_machine = self.state_machine.transition(event);
    }

    pub fn run_right(&mut self)
        ensures
            final(self).follows(*old(self), Event::Run),
            old(self).wf() ==> final(self).wf(),
    {
        self.apply(Event::Run);
    }

    pub fn slide(&mut self)
        ensures
            final(self).follows(*old(self), Event::Slide),
            old(self).wf() ==> final(self).wf(),
    {
        self.apply(Event::Slide);
    }

    /// Jumps; returns whether a jump started, which is when the jump sound is due.
    pub fn jump(&mut self) -> (jumped: bool)
        ensures
            final(self).follows(*old(self), Event::Jump),
            old(self).wf() ==> final(self).wf(),
            jumped == (old(self).phase() == Phase::Running),
    {
        let jumped = matches!(self.state_machine, RedHatBoyStateMachine::Running(_));
        self.apply(Event::Jump);
        jumped
    }

    pub fn update(&mut self)
        ensures
            final(self).follows(*old(self), Event::Update),
            old(self).wf() ==> final(self).wf(),
    {
        self.apply(Event::Update);
    }

    pub fn knock_out(&mut self)
        ensures
            final(self).follows(*old(self), Event::KnockOut),
            old(self).wf() ==> final(self).wf(),
    {
        self.apply(Event::KnockOut);
    }

    pub fn land_on(&mut self, position: i16)
        ensures
            final(self).follows(*old(self), Event::Land(position)),
            old(self).wf() ==> final(self).wf(),
    {
        self.apply(Event::Land(position));
    }

    /// The file name of the sprite to show now.
    pub fn frame_name(&self) -> (r: String)
        ensures
            r@ == self.sprite_name_spec(),
    {
        let frame = self.state_machine.context().frame;
        sprite_file_name(self.state_machine.frame_name(), frame / TICKS_PER_SPRITE + 1)
    }

    pub fn current_sprite(&self) -> (r: Option<Cell>)
        ensures
            r == self.sprite_spec(),
            self.wf() ==> r is Some,
    {
        proof {
            if self.wf() {
                let f = self.ctx().frame;
                let l = frame_limit(self.phase());
                assert(f / 3 <= l / 3) by (nonlinear_arith)
                    requires
                        f <= l,
                ;
                assert(1 <= sprite_number(f) <= sprite_number(l));
            }
        }
        self.sprite_sheet.cell(&self.frame_name())
    }

    /// Where the current sprite is drawn.
    pub fn bounding_box(&self) -> (r: Rect)
        requires
            self.wf(),
        ensures
            r == self.bounding_box_spec(),
    {
        let sprite = self.current_sprite().unwrap();
        let position = self.state_machine.context().position;
        Rect::new(
            Point::new(
                add_sat(position.x, sprite.sprite_source_size.x),
                add_sat(position.y, sprite.sprite_source_size.y),
            ),
            sprite.frame.w,
            sprite.frame.h,
        )
    }

    /// The box that obstacles test for contact: smaller than the sprite, so
    /// that a near miss at its edges does not count.
    pub fn collision_box(&self) -> (r: Rect)
        requires
            self.wf(),
        ensures
            r == self.collision_box_spec(),
    {
        let bounds = self.bounding_box();
        Rect::new(
            Point::new(add_sat(bounds.x(), COLLISION_INSET), add_sat(bounds.y(), COLLISION_INSET)),
            sub_sat(bounds.width, 2 * COLLISION_INSET),
            sub_sat(bounds.height, 2 * COLLISION_INSET),
        )
    }

    pub fn pos_y(&self) -> (r: i16)
        ensures
            r == self.ctx().position.y,
    {
        self.state_machine.context().position.y
    }

    pub fn velocity_y(&self) -> (r: i16)
        ensures
            r == self.ctx().velocity.y,
    {
        self.state_machine.context().velocity.y
    }

    pub fn walking_speed(&self) -> (r: i16)
        ensures
            r == self.ctx().velocity.x,
    {
        self.state_machine.context().velocity.x
    }

    pub fn state_machine(&self) -> (r: &RedHatBoyStateMachine)
        ensures
            *r == self.machine(),
    {
        &self.state_machine
    }
}

/// Whether `sheet` holds every sprite that the character can show.
pub fn has_all_sprites(sheet: &Sheet) -> (r: bool)
    ensures
        r == sheet_complete(sheet.entries()),
{
    let idle = sheet.has_frames(IDLE_FRAME_NAME, IDLE_FRAMES / TICKS_PER_SPRITE + 1);
    let run = sheet.has_frames(RUN_FRAME_NAME, RUNNING_FRAMES / TICKS_PER_SPRITE + 1);
    let slide = sheet.has_frames(SLIDING_FRAME_NAME, SLIDING_FRAMES / TICKS_PER_SPRITE + 1);
    let jump = sheet.has_frames(JUMPING_FRAME_NAME, JUMPING_FRAMES / TICKS_PER_SPRITE + 1);
    let fall = sheet.has_frames(FALLING_FRAME_NAME, FALLING_FRAMES / TICKS_PER_SPRITE + 1);
    let out = sheet.has_frames(KNOCKED_OUT_FRAME_NAME, FALLING_FRAMES / TICKS_PER_SPRITE + 1);
    let r = idle && run && slide && jump && fall && out;
    proof {
        if r {
            assert forall|p: Phase, n: nat|
                1 <= n <= sprite_number(frame_limit(p)) implies #[trigger] crate::sheet::find_cell(
                sheet.entries(),
                sprite_name(phase_label(p), n),
            ) is Some by {
                match p {
                    Phase::Idle => assert(sheet.cell_spec(sprite_name(IDLE_FRAME_NAME@, n)) is Some),
                    Phase::Running => assert(sheet.cell_spec(sprite_name(RUN_FRAME_NAME@, n)) is Some),
                    Phase::Sliding => assert(sheet.cell_spec(sprite_name(SLIDING_FRAME_NAME@, n)) is Some),
                    Phase::Jumping => assert(sheet.cell_spec(sprite_name(JUMPING_FRAME_NAME@, n)) is Some),
                    Phase::Falling => assert(sheet.cell_spec(sprite_name(FALLING_FRAME_NAME@, n)) is Some),
                    Phase::KnockedOut => assert(sheet.cell_spec(sprite_name(KNOCKED_OUT_FRAME_NAME@, n)) is Some),
                }
            }
        } else {
            if !idle {
                let n = choose|n: nat| 1 <= n <= IDLE_FRAMES / 3 + 1 && !(#[trigger] sheet.cell_spec(sprite_name(IDLE_FRAME_NAME@, n)) is Some);
                assert(!(crate::sheet::find_cell(sheet.entries(), sprite_name(phase_label(Phase::Idle), n)) is Some));
            } else if !run {
                let n = choose|n: nat| 1 <= n <= RUNNING_FRAMES / 3 + 1 && !(#[trigger] sheet.cell_spec(sprite_name(RUN_FRAME_NAME@, n)) is Some);
                assert(!(crate::sheet::find_cell(sheet.entries(), sprite_name(phase_label(Phase::Running), n)) is Some));
            } else if !slide {
                let n = choose|n: nat| 1 <= n <= SLIDING_FRAMES / 3 + 1 && !(#[trigger] sheet.cell_spec(sprite_name(SLIDING_FRAME_NAME@, n)) is Some);
                assert(!(crate::sheet::find_cell(sheet.entries(), sprite_name(phase_label(Phase::Sliding), n)) is Some));
            } else if !jump {
                let n = choose|n: nat| 1 <= n <= JUMPING_FRAMES / 3 + 1 && !(#[trigger] sheet.cell_spec(sprite_name(JUMPING_FRAME_NAME@, n)) is Some);
                assert(!(crate::sheet::find_cell(sheet.entries(), sprite_name(phase_label(Phase::Jumping), n)) is Some));
            } else if !fall {
                let n = choose|n: nat| 1 <= n <= FALLING_FRAMES / 3 + 1 && !(#[trigger] sheet.cell_spec(sprite_name(FALLING_FRAME_NAME@, n)) is Some);
                assert(!(crate::sheet::find_cell(sheet.entries(), sprite_name(phase_label(Phase::Falling), n)) is Some));
            } else {
                let n = choose|n: nat| 1 <= n <= FALLING_FRAMES / 3 + 1 && !(#[trigger] sheet.cell_spec(sprite_name(KNOCKED_OUT_FRAME_NAME@, n)) is Some);
                assert(!(crate::sheet::find_cell(sheet.entries(), sprite_name(phase_label(Phase::KnockedOut), n)) is Some));
            }
        }
    }
    r
}

pub const TIMELINE_MINIMUM: i16 = 1000;
pub const OBSTACLE_BUFFER: i16 = 20;
pub const RIGHT_KEY: &'static str = "ArrowRight";
pub const UP_KEY: &'static str = "ArrowUp";
pub const DOWN_KEY: &'static str = "ArrowDown";

/// What can go wrong when a game is set up.
#[derive(Clone, Copy, Debug, PartialEq, Eq, Structural)]
pub enum GameError {
    /// The character's sheet lacks a sprite that some state and frame show.
    MissingSprite,
    /// The game was already loaded.
    AlreadyInitialized,
}

/// The character's state and context, as the transition table sees them.
pub type BoyModel = (Phase, RedHatBoyContext);

pub open spec fn step(s: BoyModel, e: Event) -> BoyModel {
    next_state(s.0, s.1, e)
}

/// The character after the held keys of one tick: right runs, up jumps,
/// down slides, each applied in that order.
pub open spec fn after_input(s: BoyModel, right: bool, up: bool, down: bool) -> BoyModel {
    let s1 = if right { step(s, Event::Run) } else { s };
    let s2 = if up { step(s1, Event::Jump) } else { s1 };
    if down { step(s2, Event::Slide) } else { s2 }
}

/// The speed at which the world scrolls: against the character's run.
pub open spec fn world_velocity(walking_speed: i16) -> i16 {
    clamp_i16(-walking_speed) as i16
}

/// The obstacles that are still on screen: those whose right edge is past 0.
pub open spec fn retained(obstacles: Seq<AnyObstacle>) -> Seq<AnyObstacle> {
    obstacles.filter(|o: AnyObstacle| o.right_edge() > 0)
}

/// The character after touching each of `obstacles` in turn.
pub open spec fn after_contacts(sheet: Seq<SheetEntry>, obstacles: Seq<AnyObstacle>, s: BoyModel) -> BoyModel
    decreases obstacles.len(),
{
    if obstacles.len() == 0 {
        s
    } else {
        let t = after_contacts(sheet, obstacles.drop_last(), s);
        let o = obstacles.last();
        match crate::obstacle::contact_event(
            o.collision_boxes_spec(),
            o.surface(),
            collision_box_of(sheet, t.0, t.1),
            t.1,
        ) {
            None => t,
            Some(e) => step(t, e),
        }
    }
}

/// `after[i]` is `before[i]` moved by `dx`, for each `i`.
pub open spec fn all_moved(after: Seq<AnyObstacle>, before: Seq<AnyObstacle>, dx: int) -> bool {
    &&& after.len() == before.len()
    &&& forall|i: int| 0 <= i < after.len() ==> #[trigger] after[i].moved_from(before[i], dx)
}

/// An image moved by `dx`.
pub open spec fn image_shifted(i: Image, dx: int) -> Image {
    Image { bounding_box: i.bounding_box.shifted(dx) }
}

/// An image with its left edge at `x`.
pub open spec fn image_at_x(i: Image, x: int) -> Image {
    Image {
        bounding_box: Rect {
            position: Point { x: x as i16, y: i.bounding_box.position.y },
            ..i.bounding_box
        },
    }
}

/// The two background layers scrolled by `dx`; a layer that has left the
/// screen moves behind the other one.
pub open spec fn scrolled(backgrounds: (Image, Image), dx: int) -> (Image, Image) {
    let a = image_shifted(backgrounds.0, dx);
    let b = image_shifted(backgrounds.1, dx);
    let a2 = if a.bounding_box.right_spec() < 0 { image_at_x(a, b.bounding_box.right_spec()) } else { a };
    let b2 = if b.bounding_box.right_spec() < 0 { image_at_x(b, a2.bounding_box.right_spec()) } else { b };
    (a2, b2)
}

/// Relies on rand's `thread_rng().gen_range(0..bound)`: some value below
/// `bound` (it panics on an empty range).
#[verifier::external_body]
fn random_below(bound: usize) -> (r: usize)
    requires
        bound > 0,
    ensures
        r < bound,
{
    rand::thread_rng().gen_range(0..bound)
}

/// A run in progress: the character, the scrolling backgrounds, the obstacles
/// on screen and ahead, and how far ahead obstacles have been placed.
#[derive(Clone, Debug)]
pub struct Walk {
    boy: RedHatBoy,
    backgrounds: [Image; 2],
    obstacles: Vec<AnyObstacle>,
    obstacle_sheet: Sheet,
    stone: Size,
    timeline: i16,
}

impl Walk {
    pub closed spec fn boy_spec(&self) -> RedHatBoy {
        self.boy
    }

    pub closed spec fn backgrounds_spec(&self) -> (Image, Image) {
        (self.backgrounds@[0], self.backgrounds@[1])
    }

    pub closed spec fn obstacles_spec(&self) -> Seq<AnyObstacle> {
        self.obstacles@
    }

    pub closed spec fn obstacle_sheet_spec(&self) -> Sheet {
        self.obstacle_sheet
    }

    pub closed spec fn stone_spec(&self) -> Size {
        self.stone
    }

    pub closed spec fn timeline_spec(&self) -> i16 {
        self.timeline
    }

    pub open spec fn boy_model(&self) -> BoyModel {
        (self.boy_spec().phase(), self.boy_spec().ctx())
    }

    /// A well-formed run: a live character with all its sprites, and
    /// obstacles that each have a collision box.
    pub open spec fn wf(&self) -> bool {
        &&& self.boy_spec().wf()
        &&& all_have_boxes(self.obstacles_spec())
    }

    /// The obstacles and the timeline are as after a new segment of layout
    /// `kind`, placed a buffer's width past the timeline of `before`.
    pub open spec fn extended(self, before: Walk, kind: int) -> bool {
        let n = before.obstacles_spec().len();
        let added = self.obstacles_spec().skip(n as int);
        &&& n <= self.obstacles_spec().len()
        &&& self.obstacles_spec().take(n as int) == before.obstacles_spec()
        &&& is_segment(
            added,
            kind,
            before.stone_spec(),
            before.obstacle_sheet_spec(),
            clamp_i16(before.timeline_spec() + OBSTACLE_BUFFER) as i16,
        )
        &&& self.timeline_spec() == max_right_edge(added)
    }

    /// The parts that a tick leaves as they are.
    pub open spec fn same_assets(self, before: Walk) -> bool {
        &&& self.obstacle_sheet_spec() == before.obstacle_sheet_spec()
        &&& self.stone_spec() == before.stone_spec()
        &&& self.boy_spec().sheet() == before.boy_spec().sheet()
    }

    /// A new run: the character idle at the start, two background layers side
    /// by side, and the first segment placed from 0. Fails when the
    /// character's sheet lacks a sprite.
    pub fn new(boy_sheet: Sheet, obstacle_sheet: Sheet, stone: Size, background: Size) -> (r: Result<Walk, GameError>)
        ensures
            r is Err <==> !sheet_complete(boy_sheet.entries()),
            r is Err ==> r->Err_0 == GameError::MissingSprite,
            r is Ok ==> r->Ok_0.is_start(boy_sheet, obstacle_sheet, stone, background),
    {
        if !has_all_sprites(&boy_sheet) {
            return Err(GameError::MissingSprite);
        }
        let boy = RedHatBoy::new(boy_sheet);
        let starting_obstacles = stone_and_platform(stone, &obstacle_sheet, 0);
        proof {
            assert(starting_obstacles@[0].collision_boxes_spec().len() == 1);
            assert(starting_obstacles@[1].collision_boxes_spec().len() == 3);
        }
        let timeline = rightmost(&starting_obstacles);
        let first = Image::new(background.width, background.height, Point::new(0, 0));
        let second = Image::new(background.width, background.height, Point::new(background.width, 0));
        Ok(Walk {
            boy,
            backgrounds: [first, second],
            obstacles: starting_obstacles,
            obstacle_sheet,
            stone,
            timeline,
        })
    }

    /// The state of a new run.
    pub open spec fn is_start(self, boy_sheet: Sheet, obstacle_sheet: Sheet, stone: Size, background: Size) -> bool {
        &&& self.wf()
        &&& self.boy_model() == (Phase::Idle, RedHatBoyContext {
            frame: 0,
            position: Point { x: STARTING_POINT, y: FLOOR },
            velocity: Point { x: 0, y: 0 },
        })
        &&& self.boy_spec().sheet() == boy_sheet.entries()
        &&& self.backgrounds_spec() == (
            Image { bounding_box: Rect { position: Point { x: 0, y: 0 }, width: background.width, height: background.height } },
            Image { bounding_box: Rect { position: Point { x: background.width, y: 0 }, width: background.width, height: background.height } },
        )
        &&& is_segment(self.obstacles_spec(), 0, stone, obstacle_sheet, 0)
        &&& self.obstacle_sheet_spec() == obstacle_sheet
        &&& self.stone_spec() == stone
        &&& self.timeline_spec() == max_right_edge(self.obstacles_spec())
    }

    /// The speed at which the world scrolls now.
    pub fn velocity(&self) -> (r: i16)
        ensures
            r == world_velocity(self.boy_spec().ctx().velocity.x),
    {
        sub_sat(0, self.boy.walking_speed())
    }

    /// Appends the segment of layout `kind` a buffer's width past the timeline,
    /// which then marks the new segment's right end.
    pub fn add_segment(&mut self, kind: usize)
        requires
            kind < SEGMENT_KINDS,
            old(self).wf(),
        ensures
            final(self).extended(*old(self), kind as int),
            final(self).wf(),
            final(self).boy_spec() == old(self).boy_spec(),
            final(self).backgrounds_spec() == old(self).backgrounds_spec(),
            final(self).same_assets(*old(self)),
    {
        let offset = add_sat(self.timeline, OBSTACLE_BUFFER);
        let mut next_obstacles = segment(kind, self.stone, &self.obstacle_sheet, offset);
        proof {
            assert(next_obstacles@[0].collision_boxes_spec().len() == 1);
            assert(next_obstacles@[1].collision_boxes_spec().len() == 3);
        }
        self.timeline = rightmost(&next_obstacles);
        let ghost added = next_obstacles@;
        let ghost n = self.obstacles@.len();
        self.obstacles.append(&mut next_obstacles);
        proof {
            assert(self.obstacles@.take(n as int) =~= old(self).obstacles@);
            assert(self.obstacles@.skip(n as int) =~= added);
            assert forall|i: int| 0 <= i < self.obstacles@.len() implies #[trigger] self.obstacles@[i].collision_boxes_spec().len() > 0 by {
                if i >= n {
                    assert(self.obstacles@[i] == added[i - n]);
                }
            }
        }
    }

    /// Appends a segment of a layout drawn at random from the catalog.
    pub fn generate_next_segment(&mut self)
        requires
            old(self).wf(),
        ensures
            exists|kind: int| 0 <= kind < SEGMENT_KINDS && #[trigger] final(self).extended(*old(self), kind),
            final(self).wf(),
            final(self).boy_spec() == old(self).boy_spec(),
            final(self).backgrounds_spec() == old(self).backgrounds_spec(),
            final(self).same_assets(*old(self)),
    {
        let kind = random_below(SEGMENT_KINDS);
        self.add_segment(kind);
    }

    /// Scrolls the two background layers.
    fn scroll_backgrounds(&mut self, velocity: i16)
        ensures
            final(self).backgrounds_spec() == scrolled(old(self).backgrounds_spec(), velocity as int),
            final(self).boy == old(self).boy,
            final(self).obstacles == old(self).obstacles,
            final(self).obstacle_sheet == old(self).obstacle_sheet,
            final(self).stone == old(self).stone,
            final(self).timeline == old(self).timeline,
    {
        let mut first = self.backgrounds[0];
        let mut second = self.backgrounds[1];
        first.move_horizontally(velocity);
        second.move_horizontally(velocity);
        if first.right() < 0 {
            first.set_x(second.right());
        }
        if second.right() < 0 {
            second.set_x(first.right());
        }
        self.backgrounds = [first, second];
    }

    /// Drops the obstacles that have left the screen, moves the others by
    /// `velocity` and lets each act on the character, in order.
    fn advance_obstacles(&mut self, velocity: i16)
        requires
            old(self).wf(),
        ensures
            all_moved(final(self).obstacles@, retained(old(self).obstacles@), velocity as int),
            final(self).boy_model() == after_contacts(
                old(self).boy.sheet(),
                final(self).obstacles@,
                old(self).boy_model(),
            ),
            final(self).boy.sheet() == old(self).boy.sheet(),
            final(self).wf(),
            final(self).backgrounds == old(self).backgrounds,
            final(self).obstacle_sheet == old(self).obstacle_sheet,
            final(self).stone == old(self).stone,
            final(self).timeline == old(self).timeline,
    {
        let ghost orig = self.obstacles@;
        let ghost sheet = self.boy.sheet();
        let ghost start = self.boy_model();
        let mut rest: Vec<AnyObstacle> = Vec::new();
        std::mem::swap(&mut rest, &mut self.obstacles);
        let mut kept: Vec<AnyObstacle> = Vec::new();
        let mut i: usize = 0;
        let len = rest.len();
        assert(orig.take(0) =~= Seq::<AnyObstacle>::empty());
        assert(orig.skip(0) =~= orig);
        while i < len
            invariant
                len == orig.len(),
                i <= len,
                rest@ == orig.skip(i as int),
                all_have_boxes(orig),
                all_moved(kept@, retained(orig.take(i as int)), velocity as int),
                all_have_boxes(kept@),
                self.boy_model() == after_contacts(sheet, kept@, start),
                self.boy.sheet() == sheet,
                self.boy.wf(),
                self.backgrounds == old(self).backgrounds,
                self.obstacle_sheet == old(self).obstacle_sheet,
                self.stone == old(self).stone,
                self.timeline == old(self).timeline,
            decreases len - i,
        {
            let ghost t = orig.take(i + 1);
            proof {
                reveal(Seq::filter);
            }
            assert(t.drop_last() =~= orig.take(i as int));
            assert(t.last() == orig[i as int]);
            assert(orig.skip(i as int)[0] == orig[i as int]);
            assert(orig.skip(i as int).remove(0) =~= orig.skip(i + 1));
            let mut obstacle = rest.remove(0);
            assert(obstacle.collision_boxes_spec().len() > 0);
            if obstacle.right() > 0 {
                let ghost before = obstacle;
                let ghost prev = kept@;
                assert(retained(t) == retained(orig.take(i as int)).push(before));
                obstacle.move_horizontally(velocity);
                obstacle.check_intersection(&mut self.boy);
                kept.push(obstacle);
                proof {
                    assert(kept@.drop_last() =~= prev);
                    assert(kept@.last() == obstacle);
                    assert forall|j: int| 0 <= j < kept@.len() implies #[trigger] kept@[j].moved_from(
                        retained(t)[j],
                        velocity as int,
                    ) by {
                        if j < prev.len() {
                            assert(kept@[j] == prev[j]);
                        }
                    }
                    assert forall|j: int| 0 <= j < kept@.len() implies #[trigger] kept@[j].collision_boxes_spec().len() > 0 by {
                        if j < prev.len() {
                            assert(kept@[j] == prev[j]);
                        }
                    }
                }
            } else {
                assert(retained(t) == retained(orig.take(i as int)));
            }
            i = i + 1;
        }
        assert(orig.take(len as int) =~= orig);
        self.obstacles = kept;
    }

    pub fn boy(&self) -> (r: &RedHatBoy)
        ensures
            *r == self.boy_spec(),
    {
        &self.boy
    }

    pub fn obstacles(&self) -> (r: &Vec<AnyObstacle>)
        ensures
            r@ == self.obstacles_spec(),
    {
        &self.obstacles
    }

    pub fn backgrounds(&self) -> (r: (Image, Image))
        ensures
            r == self.backgrounds_spec(),
    {
        (self.backgrounds[0], self.backgrounds[1])
    }

    pub fn timeline(&self) -> (r: i16)
        ensures
            r == self.timeline_spec(),
    {
        self.timeline
    }

    /// The character's state once the keys held in `keys` are applied.
    pub open spec fn after_keys(self, keys: Set<Seq<char>>) -> BoyModel {
        after_input(
            self.boy_model(),
            keys.contains(RIGHT_KEY@),
            keys.contains(UP_KEY@),
            keys.contains(DOWN_KEY@),
        )
    }

    /// Whether the keys held in `keys` start a jump.
    pub open spec fn jumps(self, keys: Set<Seq<char>>) -> bool {
        let s1 = if keys.contains(RIGHT_KEY@) {
            step(self.boy_model(), Event::Run)
        } else {
            self.boy_model()
        };
        keys.contains(UP_KEY@) && s1.0 == Phase::Running
    }

    /// `self` is `before` after one tick with the keys `keys` held, and
    /// `jump_sound` says whether that tick started a jump.
    pub open spec fn ticked(self, before: Walk, keys: Set<Seq<char>>, jump_sound: bool) -> bool {
        &&& jump_sound == before.jumps(keys)
        &&& ({
            let v = world_velocity(before.after_keys(keys).1.velocity.x);
            let n = retained(before.obstacles_spec()).len();
            let moved = self.obstacles_spec().take(n as int);
            &&& all_moved(moved, retained(before.obstacles_spec()), v as int)
            &&& self.boy_model() == after_contacts(
                before.boy_spec().sheet(),
                moved,
                step(before.after_keys(keys), Event::Update),
            )
            &&& self.backgrounds_spec() == scrolled(before.backgrounds_spec(), v as int)
        })
        &&& ({
            let v = world_velocity(before.after_keys(keys).1.velocity.x);
            let n = retained(before.obstacles_spec()).len();
            let added = self.obstacles_spec().skip(n as int);
            if before.timeline_spec() < TIMELINE_MINIMUM {
                &&& self.obstacles_spec().len() == n + 2
                &&& exists|kind: int|
                    0 <= kind < SEGMENT_KINDS && #[trigger] is_segment(
                        added,
                        kind,
                        before.stone_spec(),
                        before.obstacle_sheet_spec(),
                        clamp_i16(before.timeline_spec() + OBSTACLE_BUFFER) as i16,
                    )
                &&& self.timeline_spec() == max_right_edge(added)
            } else {
                &&& self.obstacles_spec().len() == n
                &&& self.timeline_spec() == clamp_i16(before.timeline_spec() + v)
            }
        })
    }

    /// One tick of the run, with the keys held in `keystate`. Returns whether
    /// the jump sound is due.
    pub fn update(&mut self, keystate: &KeyState) -> (jump_sound: bool)
        requires
            old(self).wf(),
        ensures
            final(self).wf(),
            final(self).same_assets(*old(self)),
            final(self).ticked(*old(self), keystate.keys(), jump_sound),
    {
        let ghost keys = keystate.keys();
        if keystate.is_pressed(RIGHT_KEY) {
            self.boy.run_right();
        }
        let mut jump_sound = false;
        if keystate.is_pressed(UP_KEY) {
            jump_sound = self.boy.jump();
        }
        if keystate.is_pressed(DOWN_KEY) {
            self.boy.slide();
        }
        assert(self.boy_model() == old(self).after_keys(keys));
        let velocity = self.velocity();
        self.boy.update();
        assert(self.boy_model() == step(old(self).after_keys(keys), Event::Update));
        self.advance_obstacles(velocity);
        let ghost advanced = *self;
        let ghost n = self.obstacles@.len();
        assert(n == retained(old(self).obstacles@).len());
        self.scroll_backgrounds(velocity);
        if self.timeline < TIMELINE_MINIMUM {
            let ghost pre = *self;
            self.generate_next_segment();
            proof {
                let kind = choose|kind: int| 0 <= kind < SEGMENT_KINDS && #[trigger] self.extended(pre, kind);
                assert(pre.obstacles@.len() == n);
                assert(is_segment(
                    self.obstacles_spec().skip(n as int),
                    kind,
                    old(self).stone_spec(),
                    old(self).obstacle_sheet_spec(),
                    clamp_i16(old(self).timeline_spec() + OBSTACLE_BUFFER) as i16,
                ));
            }
            assert(self.obstacles@.take(n as int) == advanced.obstacles@);
        } else {
            self.timeline = add_sat(self.timeline, velocity);
            assert(self.obstacles@.take(n as int) =~= advanced.obstacles@);
        }
        jump_sound
    }
}

/// The game: loading its assets, then running.
pub enum WalkTheDog {
    Loading,
    Loaded(Walk),
}

impl WalkTheDog {
    pub fn new() -> (r: Self)
        ensures
            r is Loading,
    {
        WalkTheDog::Loading
    }

    /// The running game built from the loaded assets. A game can be loaded once.
    pub fn initialize(&self, boy_sheet: Sheet, obstacle_sheet: Sheet, stone: Size, background: Size) -> (r: Result<WalkTheDog, GameError>)
        ensures
            self is Loaded ==> r == Err::<WalkTheDog, GameError>(GameError::AlreadyInitialized),
            self is Loading ==> (r is Err <==> !sheet_complete(boy_sheet.entries())),
            self is Loading && r is Err ==> r->Err_0 == GameError::MissingSprite,
            r is Ok ==> r->Ok_0 is Loaded && r->Ok_0->Loaded_0.is_start(boy_sheet, obstacle_sheet, stone, background),
    {
        match self {
            WalkTheDog::Loading => match Walk::new(boy_sheet, obstacle_sheet, stone, background) {
                Ok(walk) => Ok(WalkTheDog::Loaded(walk)),
                Err(e) => Err(e),
            },
            WalkTheDog::Loaded(_) => Err(GameError::AlreadyInitialized),
        }
    }

    /// One tick: nothing while loading. Returns whether the jump sound is due.
    pub fn update(&mut self, keystate: &KeyState) -> (jump_sound: bool)
        requires
            (*old(self)) is Loaded ==> (*old(self))->Loaded_0.wf(),
        ensures
            (*old(self)) is Loading ==> (*final(self)) is Loading && !jump_sound,
            (*old(self)) is Loaded ==> (*final(self)) is Loaded && (*final(self))->Loaded_0.ticked(
                (*old(self))->Loaded_0,
                keystate.keys(),
                jump_sound,
            ),
    {
        match self {
            WalkTheDog::Loaded(walk) => walk.update(keystate),
            WalkTheDog::Loading => false,
        }
    }

    /// The run, once the game is loaded.
    pub fn walk(&self) -> (r: Option<&Walk>)
        ensures
            self is Loading ==> r is None,
            self is Loaded ==> r == Some(&self->Loaded_0),
    {
        match self {
            WalkTheDog::Loaded(walk) => Some(walk),
            WalkTheDog::Loading => None,
        }
    }
}

/// The obstacles kept by a tick all reach past the left edge of the screen:
/// one whose right edge is 0 or less is gone.
pub proof fn lemma_retained_are_on_screen(obstacles: Seq<AnyObstacle>)
    ensures
        forall|i: int| 0 <= i < retained(obstacles).len() ==> #[trigger] retained(obstacles)[i].right_edge() > 0,
        forall|o: AnyObstacle| o.right_edge() <= 0 ==> !retained(obstacles).contains(o),
{
    assert forall|i: int| 0 <= i < retained(obstacles).len() implies #[trigger] retained(obstacles)[i].right_edge() > 0 by {
        obstacles.lemma_filter_pred(|o: AnyObstacle| o.right_edge() > 0, i);
    }
}

/// An obstacle that still reaches past the left edge is kept.
pub proof fn lemma_on_screen_are_retained(obstacles: Seq<AnyObstacle>, i: int)
    requires
        0 <= i < obstacles.len(),
        obstacles[i].right_edge() > 0,
    ensures
        retained(obstacles).contains(obstacles[i]),
{
    obstacles.lemma_filter_contains(|o: AnyObstacle| o.right_edge() > 0, i);
}

/// Where no obstacle reaches past the timeline, a new segment ends past every
/// obstacle: the timeline is then the greatest right edge of the whole list.
pub proof fn lemma_segment_sets_timeline(before: Walk, after: Walk, kind: int)
    requires
        after.extended(before, kind),
        0 <= kind < SEGMENT_KINDS,
        before.obstacles_spec().len() > 0 ==> max_right_edge(before.obstacles_spec()) <= before.timeline_spec(),
    ensures
        after.timeline_spec() == max_right_edge(after.obstacles_spec()),
{
    let n = before.obstacles_spec().len();
    let all = after.obstacles_spec();
    let added = all.skip(n as int);
    assert(added.len() == 2);
    assert(all.len() == n + 2);
    assert(all =~= all.take(n as int) + added);
    let platform = added[1]->Platform_0;
    let boxes = platform.bounding_boxes@;
    assert(boxes.len() == 3);
    assert(boxes.drop_last().len() == 2);
    assert(boxes.drop_last().drop_last().len() == 1);
    assert(max_right(boxes) >= boxes[2].right_spec());
    assert(added[1].right_edge() >= before.timeline_spec());
    assert(added.drop_last().len() == 1);
    assert(max_right_edge(added) >= added[1].right_edge());
    if n > 0 {
        lemma_max_right_edge_append(before.obstacles_spec(), added);
    }
}

} // verus!
