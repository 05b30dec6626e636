use vstd::prelude::*;
use crate::geometry::{add_sat, clamp_i16, Point, Rect, Size};
use crate::obstacle::{found_cells, offset_rect, AnyObstacle, Barrier, Image, Platform};
use crate::sheet::Sheet;

verus! {

/// Top of a stone that stands on the ground.
pub const STONE_ON_GROUND: i16 = 546;
pub const LOW_PLATFORM: i16 = 420;
pub const HIGH_PLATFORM: i16 = 375;
/// Horizontal offset of the platform in the stone-then-platform layout.
pub const FIRST_PLATFORM: i16 = 370;
/// Horizontal offset of the stone in the stone-then-platform layout.
pub const FIRST_STONE: i16 = 150;
/// Horizontal offset of the platform in the platform-then-stone layout.
pub const SECOND_PLATFORM: i16 = 200;
/// Horizontal offset of the stone in the platform-then-stone layout.
pub const SECOND_STONE: i16 = 400;
/// Width of the floating platform's sprites side by side.
pub const PLATFORM_WIDTH: i16 = 384;
/// Width of the platform's two end caps.
pub const PLATFORM_EDGE_WIDTH: i16 = 60;
pub const PLATFORM_EDGE_HEIGHT: i16 = 54;
pub const PLATFORM_CENTER_HEIGHT: i16 = 93;
/// How many layouts the catalog holds.
pub const SEGMENT_KINDS: usize = 2;

/// The sprites of the floating platform, left to right.
pub open spec fn floating_platform_sprites() -> Seq<&'static str> {
    seq!["13.png", "14.png", "15.png"]
}

/// The collision boxes of the floating platform relative to its position:
/// left cap, centre and right cap.
pub open spec fn floating_platform_boxes() -> Seq<Rect> {
    seq![
        Rect { position: Point { x: 0, y: 0 }, width: PLATFORM_EDGE_WIDTH, height: PLATFORM_EDGE_HEIGHT },
        Rect {
            position: Point { x: PLATFORM_EDGE_WIDTH, y: 0 },
            width: (PLATFORM_WIDTH - 2 * PLATFORM_EDGE_WIDTH) as i16,
            height: PLATFORM_CENTER_HEIGHT,
        },
        Rect {
            position: Point { x: (PLATFORM_WIDTH - PLATFORM_EDGE_WIDTH) as i16, y: 0 },
            width: PLATFORM_EDGE_WIDTH,
            height: PLATFORM_EDGE_HEIGHT,
        },
    ]
}

/// `p` is the floating platform at `position`, drawn from `sheet`.
pub open spec fn is_floating_platform(p: Platform, sheet: Sheet, position: Point) -> bool {
    &&& p.position == position
    &&& p.sprites@ == found_cells(sheet, floating_platform_sprites())
    &&& p.bounding_boxes@ == floating_platform_boxes().map_values(|b: Rect| offset_rect(b, position))
}

/// `o` is a stone of size `stone` with its left edge at `x`, standing on the ground.
pub open spec fn is_stone_at(o: AnyObstacle, stone: Size, x: int) -> bool {
    &&& o is Barrier
    &&& o->Barrier_0.image.bounding_box == (Rect {
        position: Point { x: clamp_i16(x) as i16, y: STONE_ON_GROUND },
        width: stone.width,
        height: stone.height,
    })
}

/// `o` is the floating platform with its left edge at `x`, at height `y`.
pub open spec fn is_platform_at(o: AnyObstacle, sheet: Sheet, x: int, y: i16) -> bool {
    &&& o is Platform
    &&& is_floating_platform(o->Platform_0, sheet, Point { x: clamp_i16(x) as i16, y })
}

/// `obstacles` is layout `kind` of the catalog, placed from `offset_x` on:
/// kind 0 is a stone followed by a low platform, kind 1 a high platform
/// followed by a stone.
pub open spec fn is_segment(obstacles: Seq<AnyObstacle>, kind: int, stone: Size, sheet: Sheet, offset_x: i16) -> bool {
    &&& obstacles.len() == 2
    &&& if kind == 0 {
        &&& is_stone_at(obstacles[0], stone, offset_x + FIRST_STONE)
        &&& is_platform_at(obstacles[1], sheet, offset_x + FIRST_PLATFORM, LOW_PLATFORM)
    } else {
        &&& is_stone_at(obstacles[0], stone, offset_x + SECOND_STONE)
        &&& is_platform_at(obstacles[1], sheet, offset_x + SECOND_PLATFORM, HIGH_PLATFORM)
    }
}

/// The floating platform at `position`.
pub fn create_floating_platform(sheet: &Sheet, position: Point) -> (r: Platform)
    ensures
        is_floating_platform(r, *sheet, position),
{
    let names: Vec<&'static str> = vec!["13.png", "14.png", "15.png"];
    let left = Rect::new_from_x_y(0, 0, PLATFORM_EDGE_WIDTH, PLATFORM_EDGE_HEIGHT);
    let center = Rect::new_from_x_y(
        PLATFORM_EDGE_WIDTH,
        0,
        PLATFORM_WIDTH - 2 * PLATFORM_EDGE_WIDTH,
        PLATFORM_CENTER_HEIGHT,
    );
    let right = Rect::new_from_x_y(
        PLATFORM_WIDTH - PLATFORM_EDGE_WIDTH,
        0,
        PLATFORM_EDGE_WIDTH,
        PLATFORM_EDGE_HEIGHT,
    );
    let boxes: Vec<Rect> = vec![left, center, right];
    assert(names@ =~= floating_platform_sprites());
    assert(boxes@ =~= floating_platform_boxes());
    Platform::new(sheet, position, names.as_slice(), boxes.as_slice())
}

/// A stone, then a low platform further right.
pub fn stone_and_platform(stone: Size, sheet: &Sheet, offset_x: i16) -> (r: Vec<AnyObstacle>)
    ensures
        is_segment(r@, 0, stone, *sheet, offset_x),
{
    let stone_x = add_sat(offset_x, FIRST_STONE);
    let platform_x = add_sat(offset_x, FIRST_PLATFORM);
    vec![
        AnyObstacle::Barrier(
            Barrier::new(Image::new(stone.width, stone.height, Point::new(stone_x, STONE_ON_GROUND))),
        ),
        AnyObstacle::Platform(create_floating_platform(sheet, Point::new(platform_x, LOW_PLATFORM))),
    ]
}

/// A high platform, then a stone further right.
pub fn platform_and_stone(stone: Size, sheet: &Sheet, offset_x: i16) -> (r: Vec<AnyObstacle>)
    ensures
        is_segment(r@, 1, stone, *sheet, offset_x),
{
    let stone_x = add_sat(offset_x, SECOND_STONE);
    let platform_x = add_sat(offset_x, SECOND_PLATFORM);
    vec![
        AnyObstacle::Barrier(
            Barrier::new(Image::new(stone.width, stone.height, Point::new(stone_x, STONE_ON_GROUND))),
        ),
        AnyObstacle::Platform(create_floating_platform(sheet, Point::new(platform_x, HIGH_PLATFORM))),
    ]
}

/// Layout `kind` of the catalog, placed from `offset_x` on.
pub fn segment(kind: usize, stone: Size, sheet: &Sheet, offset_x: i16) -> (r: Vec<AnyObstacle>)
    requires
        kind < SEGMENT_KINDS,
    ensures
        is_segment(r@, kind as int, stone, *sheet, offset_x),
{
    if kind == 0 {
        stone_and_platform(stone, sheet, offset_x)
    } else {
        platform_and_stone(stone, sheet, offset_x)
    }
}

} // verus!
