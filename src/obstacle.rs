use vstd::prelude::*;
use crate::game::RedHatBoy;
use crate::geometry::{clamp_i16, Point, Rect};
use crate::sheet::{Cell, Sheet};
use crate::state::{Event, RedHatBoyContext};

verus! {

/// A picture placed in the world: its bounding box. The pixels stay with the renderer.
#[derive(Clone, Copy, Debug, PartialEq, Eq, Structural)]
pub struct Image {
    pub bounding_box: Rect,
}

impl Image {
    /// An image of the given size with its top-left corner at `position`.
    pub fn new(width: i16, height: i16, position: Point) -> (r: Image)
        ensures
            r.bounding_box == (Rect { position, width, height }),
    {
        Image { bounding_box: Rect::new(position, width, height) }
    }

    pub fn move_horizontally(&mut self, distance: i16)
        ensures
            final(self).bounding_box == old(self).bounding_box.shifted(distance as int),
    {
        self.bounding_box.move_horizontally(distance);
    }

    pub fn set_x(&mut self, x: i16)
        ensures
            final(self).bounding_box == (Rect {
                position: Point { x, y: old(self).bounding_box.position.y },
                ..old(self).bounding_box
            }),
    {
        self.bounding_box.set_x(x);
    }

    pub fn right(&self) -> (r: i16)
        ensures
            r == self.bounding_box.right_spec(),
    {
        self.bounding_box.right()
    }
}

/// The greatest right edge among `boxes`.
pub open spec fn max_right(boxes: Seq<Rect>) -> int
    decreases boxes.len(),
{
    if boxes.len() <= 1 {
        boxes[0].right_spec()
    } else {
        let rest = max_right(boxes.drop_last());
        let last = boxes.last().right_spec();
        if last > rest { last } else { rest }
    }
}

/// The first of `boxes` that overlaps `target`.
pub open spec fn first_hit(boxes: Seq<Rect>, target: Rect) -> Option<Rect>
    decreases boxes.len(),
{
    if boxes.len() == 0 {
        None
    } else if target.intersects_spec(boxes[0]) {
        Some(boxes[0])
    } else {
        first_hit(boxes.drop_first(), target)
    }
}

/// What contact with an obstacle does to a character whose collision box is
/// `target`: nothing without overlap; on overlap, landing on the box that was
/// hit where the obstacle can be stood on and the character comes down from
/// above its top, and otherwise a knock-out.
pub open spec fn contact_event(
    boxes: Seq<Rect>,
    surface: Option<i16>,
    target: Rect,
    c: RedHatBoyContext,
) -> Option<Event> {
    match first_hit(boxes, target) {
        None => None,
        Some(hit) => match surface {
            Some(top) => if c.velocity.y > 0 && c.position.y < top {
                Some(Event::Land(hit.position.y))
            } else {
                Some(Event::KnockOut)
            },
            None => Some(Event::KnockOut),
        },
    }
}

/// `after` is `before` once it has touched an obstacle with these boxes and surface.
pub open spec fn touched(
    before: RedHatBoy,
    after: RedHatBoy,
    boxes: Seq<Rect>,
    surface: Option<i16>,
) -> bool {
    match contact_event(boxes, surface, before.collision_box_spec(), before.ctx()) {
        None => after == before,
        Some(e) => after.follows(before, e),
    }
}

/// What the world holds in the character's way.
pub trait Obstacle {
    /// Where the obstacle is drawn.
    spec fn origin(&self) -> Point;

    /// The boxes that count for contact, in the order they are tested.
    spec fn collision_boxes_spec(&self) -> Seq<Rect>;

    /// The top on which a character may land, if the obstacle can be stood on.
    spec fn surface(&self) -> Option<i16>;

    /// The sprites the obstacle is drawn with, beyond its own image.
    spec fn sprites_spec(&self) -> Seq<Cell>;

    /// Lets the obstacle act on a character that it touches.
    fn check_intersection(&self, boy: &mut RedHatBoy)
        requires
            old(boy).wf(),
        ensures
            touched(*old(boy), *final(boy), self.collision_boxes_spec(), self.surface()),
            final(boy).wf(),
    ;

    /// Moves the obstacle and all its boxes together.
    fn move_horizontally(&mut self, x: i16)
        ensures
            final(self).origin() == (Point {
                x: clamp_i16(old(self).origin().x + x) as i16,
                y: old(self).origin().y,
            }),
            final(self).collision_boxes_spec() == old(self).collision_boxes_spec().map_values(
                |b: Rect| b.shifted(x as int),
            ),
            final(self).surface() == old(self).surface(),
            final(self).sprites_spec() == old(self).sprites_spec(),
    ;

    /// The rightmost edge of the obstacle's boxes.
    fn right(&self) -> (r: i16)
        requires
            self.collision_boxes_spec().len() > 0,
        ensures
            r == max_right(self.collision_boxes_spec()),
    ;
}

/// A single image that knocks out whoever runs into it.
#[derive(Clone, Copy, Debug, PartialEq, Eq, Structural)]
pub struct Barrier {
    pub image: Image,
}

impl Barrier {
    pub fn new(image: Image) -> (r: Self)
        ensures
            r.image == image,
    {
        Barrier { image }
    }
}

impl Obstacle for Barrier {
    open spec fn origin(&self) -> Point {
        self.image.bounding_box.position
    }

    open spec fn collision_boxes_spec(&self) -> Seq<Rect> {
        seq![self.image.bounding_box]
    }

    open spec fn surface(&self) -> Option<i16> {
        None
    }

    open spec fn sprites_spec(&self) -> Seq<Cell> {
        seq![]
    }

    fn check_intersection(&self, boy: &mut RedHatBoy) {
        let target = boy.collision_box();
        if target.intersects(&self.image.bounding_box) {
            boy.knock_out();
        }
        proof {
            reveal_with_fuel(first_hit, 2);
        }
    }

    fn move_horizontally(&mut self, x: i16) {
        self.image.move_horizontally(x);
        proof {
            assert(self.collision_boxes_spec() =~= old(self).collision_boxes_spec().map_values(
                |b: Rect| b.shifted(x as int),
            ));
        }
    }

    fn right(&self) -> (r: i16) {
        self.image.right()
    }
}

/// A floating platform: a row of sprites with collision boxes of its own,
/// narrower than the sprites so that the character can run onto it.
#[derive(Clone, Debug)]
pub struct Platform {
    pub sprites: Vec<Cell>,
    pub bounding_boxes: Vec<Rect>,
    pub position: Point,
}

/// `r` moved by `offset`.
pub open spec fn offset_rect(r: Rect, offset: Point) -> Rect {
    Rect {
        position: Point {
            x: clamp_i16(r.position.x + offset.x) as i16,
            y: clamp_i16(r.position.y + offset.y) as i16,
        },
        ..r
    }
}

/// The cells of `names` that `sheet` has, in order.
pub open spec fn found_cells(sheet: Sheet, names: Seq<&str>) -> Seq<Cell>
    decreases names.len(),
{
    if names.len() == 0 {
        seq![]
    } else {
        let rest = found_cells(sheet, names.drop_last());
        match sheet.cell_spec(names.last()@) {
            Some(c) => rest.push(c),
            None => rest,
        }
    }
}

/// The first of `boxes` that overlaps `target`.
pub fn first_intersecting(boxes: &Vec<Rect>, target: &Rect) -> (r: Option<Rect>)
    ensures
        r == first_hit(boxes@, *target),
{
    let mut i: usize = 0;
    assert(boxes@.skip(0) =~= boxes@);
    while i < boxes.len()
        invariant
            i <= boxes@.len(),
            first_hit(boxes@, *target) == first_hit(boxes@.skip(i as int), *target),
        decreases boxes@.len() - i,
    {
        assert(boxes@.skip(i as int).drop_first() =~= boxes@.skip(i + 1));
        if target.intersects(&boxes[i]) {
            assert(boxes@.skip(i as int)[0] == boxes@[i as int]);
            return Some(boxes[i]);
        }
        i = i + 1;
    }
    None
}

impl Platform {
    /// A platform at `position` drawn with the named sprites of `sheet` (names
    /// that the sheet lacks are left out), whose collision boxes are
    /// `bounding_boxes` taken relative to `position`.
    pub fn new(sheet: &Sheet, position: Point, sprite_names: &[&str], bounding_boxes: &[Rect]) -> (r: Self)
        ensures
            r.position == position,
            r.sprites@ == found_cells(*sheet, sprite_names@),
            r.bounding_boxes@ == bounding_boxes@.map_values(|b: Rect| offset_rect(b, position)),
    {
        let mut sprites: Vec<Cell> = Vec::new();
        let mut i: usize = 0;
        while i < sprite_names.len()
            invariant
                i <= sprite_names@.len(),
                sprites@ == found_cells(*sheet, sprite_names@.take(i as int)),
            decreases sprite_names@.len() - i,
        {
            assert(sprite_names@.take(i + 1).drop_last() =~= sprite_names@.take(i as int));
            let name = sprite_names[i].to_owned();
            match sheet.cell(&name) {
                Some(c) => sprites.push(c),
                None => {},
            }
            i = i + 1;
        }
        assert(sprite_names@.take(sprite_names@.len() as int) =~= sprite_names@);
        let mut boxes: Vec<Rect> = Vec::new();
        let mut j: usize = 0;
        while j < bounding_boxes.len()
            invariant
                j <= bounding_boxes@.len(),
                boxes@ =~= bounding_boxes@.take(j as int).map_values(|b: Rect| offset_rect(b, position)),
            decreases bounding_boxes@.len() - j,
        {
            let b = bounding_boxes[j];
            boxes.push(
                Rect::new_from_x_y(
                    crate::geometry::add_sat(b.x(), position.x),
                    crate::geometry::add_sat(b.y(), position.y),
                    b.width,
                    b.height,
                ),
            );
            j = j + 1;
        }
        Platform { sprites, bounding_boxes: boxes, position }
    }

    pub fn collision_boxes(&self) -> (r: &Vec<Rect>)
        ensures
            r@ == self.bounding_boxes@,
    {
        &self.bounding_boxes
    }
}

impl Obstacle for Platform {
    open spec fn origin(&self) -> Point {
        self.position
    }

    open spec fn collision_boxes_spec(&self) -> Seq<Rect> {
        self.bounding_boxes@
    }

    open spec fn surface(&self) -> Option<i16> {
        Some(self.position.y)
    }

    open spec fn sprites_spec(&self) -> Seq<Cell> {
        self.sprites@
    }

    fn check_intersection(&self, boy: &mut RedHatBoy) {
        let target = boy.collision_box();
        if let Some(hit) = first_intersecting(&self.bounding_boxes, &target) {
            if boy.velocity_y() > 0 && boy.pos_y() < self.position.y {
                boy.land_on(hit.y());
            } else {
                boy.knock_out();
            }
        }
    }

    fn move_horizontally(&mut self, x: i16) {
        let ghost before = self.bounding_boxes@;
        let mut i: usize = 0;
        while i < self.bounding_boxes.len()
            invariant
                i <= self.bounding_boxes@.len(),
                self.bounding_boxes@.len() == before.len(),
                self.position == old(self).position,
                self.sprites == old(self).sprites,
                forall|k: int| 0 <= k < i ==> self.bounding_boxes@[k] == before[k].shifted(x as int),
                forall|k: int| i <= k < before.len() ==> self.bounding_boxes@[k] == before[k],
            decreases before.len() - i,
        {
            let mut b = self.bounding_boxes[i];
            b.move_horizontally(x);
            self.bounding_boxes.set(i, b);
            i = i + 1;
        }
        self.position.x = crate::geometry::add_sat(self.position.x, x);
        assert(self.bounding_boxes@ =~= before.map_values(|b: Rect| b.shifted(x as int)));
    }

    fn right(&self) -> (r: i16) {
        let boxes = &self.bounding_boxes;
        let mut best: i16 = boxes[0].right();
        let mut i: usize = 1;
        assert(boxes@.take(1).drop_last().len() == 0);
        assert(max_right(boxes@.take(1)) == boxes@[0].right_spec());
        while i < boxes.len()
            invariant
                1 <= i <= boxes@.len(),
                best == max_right(boxes@.take(i as int)),
            decreases boxes@.len() - i,
        {
            assert(boxes@.take(i + 1).drop_last() =~= boxes@.take(i as int));
            let r = boxes[i].right();
            if r > best {
                best = r;
            }
            i = i + 1;
        }
        assert(boxes@.take(boxes@.len() as int) =~= boxes@);
        best
    }
}

/// An obstacle of either kind, as the world's obstacle list holds it.
#[derive(Clone, Debug)]
pub enum AnyObstacle {
    Barrier(Barrier),
    Platform(Platform),
}

impl AnyObstacle {
    /// The rightmost edge of the obstacle's boxes.
    pub open spec fn right_edge(&self) -> int {
        max_right(self.collision_boxes_spec())
    }

    /// `self` is `before` moved `dx` to the right, as a whole.
    pub open spec fn moved_from(self, before: AnyObstacle, dx: int) -> bool {
        &&& self.origin() == (Point {
            x: clamp_i16(before.origin().x + dx) as i16,
            y: before.origin().y,
        })
        &&& self.collision_boxes_spec() == before.collision_boxes_spec().map_values(
            |b: Rect| b.shifted(dx),
        )
        &&& self.surface() == before.surface()
        &&& self.sprites_spec() == before.sprites_spec()
    }
}

impl Obstacle for AnyObstacle {
    open spec fn origin(&self) -> Point {
        match self {
            AnyObstacle::Barrier(b) => b.origin(),
            AnyObstacle::Platform(p) => p.origin(),
        }
    }

    open spec fn collision_boxes_spec(&self) -> Seq<Rect> {
        match self {
            AnyObstacle::Barrier(b) => b.collision_boxes_spec(),
            AnyObstacle::Platform(p) => p.collision_boxes_spec(),
        }
    }

    open spec fn surface(&self) -> Option<i16> {
        match self {
            AnyObstacle::Barrier(b) => b.surface(),
            AnyObstacle::Platform(p) => p.surface(),
        }
    }

    open spec fn sprites_spec(&self) -> Seq<Cell> {
        match self {
            AnyObstacle::Barrier(b) => b.sprites_spec(),
            AnyObstacle::Platform(p) => p.sprites_spec(),
        }
    }

    fn check_intersection(&self, boy: &mut RedHatBoy) {
        match self {
            AnyObstacle::Barrier(b) => b.check_intersection(boy),
            AnyObstacle::Platform(p) => p.check_intersection(boy),
        }
    }

    fn move_horizontally(&mut self, x: i16) {
        match self {
            AnyObstacle::Barrier(b) => b.move_horizontally(x),
            AnyObstacle::Platform(p) => p.move_horizontally(x),
        }
    }

    fn right(&self) -> (r: i16) {
        match self {
            AnyObstacle::Barrier(b) => b.right(),
            AnyObstacle::Platform(p) => p.right(),
        }
    }
}

/// Every obstacle of `obstacles` has at least one box.
pub open spec fn all_have_boxes(obstacles: Seq<AnyObstacle>) -> bool {
    forall|i: int| 0 <= i < obstacles.len() ==> #[trigger] obstacles[i].collision_boxes_spec().len() > 0
}

/// The greatest right edge among `obstacles`.
pub open spec fn max_right_edge(obstacles: Seq<AnyObstacle>) -> int
    decreases obstacles.len(),
{
    if obstacles.len() <= 1 {
        obstacles[0].right_edge()
    } else {
        let rest = max_right_edge(obstacles.drop_last());
        let last = obstacles.last().right_edge();
        if last > rest { last } else { rest }
    }
}

/// The rightmost edge of all the obstacles of the list.
pub fn rightmost(obstacle_list: &Vec<AnyObstacle>) -> (r: i16)
    requires
        obstacle_list@.len() > 0,
        all_have_boxes(obstacle_list@),
    ensures
        r == max_right_edge(obstacle_list@),
{
    let mut best: i16 = obstacle_list[0].right();
    let mut i: usize = 1;
    assert(max_right_edge(obstacle_list@.take(1)) == obstacle_list@[0].right_edge());
    while i < obstacle_list.len()
        invariant
            1 <= i <= obstacle_list@.len(),
            all_have_boxes(obstacle_list@),
            best == max_right_edge(obstacle_list@.take(i as int)),
        decreases obstacle_list@.len() - i,
    {
        assert(obstacle_list@.take(i + 1).drop_last() =~= obstacle_list@.take(i as int));
        let r = obstacle_list[i].right();
        if r > best {
            best = r;
        }
        i = i + 1;
    }
    assert(obstacle_list@.take(obstacle_list@.len() as int) =~= obstacle_list@);
    best
}

/// On contact with something that can be stood on, a character that is not
/// coming down from above its top is knocked out rather than landing.
pub proof fn lemma_contact_knocks_out_unless_descending(
    boxes: Seq<Rect>,
    top: i16,
    target: Rect,
    c: RedHatBoyContext,
)
    requires
        first_hit(boxes, target) is Some,
        c.velocity.y <= 0 || c.position.y >= top,
    ensures
        contact_event(boxes, Some(top), target, c) == Some(Event::KnockOut),
{
}

/// On contact with something that can be stood on, a character coming down
/// from above its top lands on the top of the box it hit.
pub proof fn lemma_contact_lands_when_descending(
    boxes: Seq<Rect>,
    top: i16,
    target: Rect,
    c: RedHatBoyContext,
)
    requires
        first_hit(boxes, target) is Some,
        c.velocity.y > 0,
        c.position.y < top,
    ensures
        contact_event(boxes, Some(top), target, c) == Some(
            Event::Land(first_hit(boxes, target)->Some_0.position.y),
        ),
{
}

/// Contact with a barrier always knocks out.
pub proof fn lemma_barrier_contact_knocks_out(boxes: Seq<Rect>, target: Rect, c: RedHatBoyContext)
    requires
        first_hit(boxes, target) is Some,
    ensures
        contact_event(boxes, None, target, c) == Some(Event::KnockOut),
{
}

/// The greatest right edge of a list joined to another is the greater of the two.
pub proof fn lemma_max_right_edge_append(a: Seq<AnyObstacle>, b: Seq<AnyObstacle>)
    requires
        a.len() > 0,
        b.len() > 0,
    ensures
        max_right_edge(a + b) == if max_right_edge(b) > max_right_edge(a) {
            max_right_edge(b)
        } else {
            max_right_edge(a)
        },
    decreases b.len(),
{
    if b.len() == 1 {
        assert((a + b).drop_last() =~= a);
        assert((a + b).last() == b[0]);
    } else {
        assert((a + b).drop_last() =~= a + b.drop_last());
        assert((a + b).last() == b.last());
        lemma_max_right_edge_append(a, b.drop_last());
    }
}

/// No list holds an obstacle with a right edge above its greatest one.
pub proof fn lemma_max_right_edge_bounds(obstacles: Seq<AnyObstacle>, i: int)
    requires
        0 <= i < obstacles.len(),
    ensures
        obstacles[i].right_edge() <= max_right_edge(obstacles),
    decreases obstacles.len(),
{
    if obstacles.len() > 1 && i < obstacles.len() - 1 {
        assert(obstacles.drop_last()[i] == obstacles[i]);
        lemma_max_right_edge_bounds(obstacles.drop_last(), i);
    }
}

} // verus!
