use walk_the_dog::engine::KeyState;
use walk_the_dog::game::{
    has_all_sprites, GameError, RedHatBoy, Walk, WalkTheDog, OBSTACLE_BUFFER, TIMELINE_MINIMUM,
};
use walk_the_dog::geometry::{add_sat, sub_sat, Point, Rect, Size};
use walk_the_dog::obstacle::{rightmost, AnyObstacle, Barrier, Image, Obstacle, Platform};
use walk_the_dog::segments::{
    platform_and_stone, segment, stone_and_platform, HIGH_PLATFORM, LOW_PLATFORM, STONE_ON_GROUND,
};
use walk_the_dog::sheet::{sprite_file_name, Cell, Sheet, SheetRect};
use walk_the_dog::state::{RedHatBoyStateMachine, FLOOR, PLAYER_HEIGHT};

const STONE: Size = Size { width: 90, height: 54 };
const BACKGROUND: Size = Size { width: 1000, height: 600 };

fn cell(x: i16, y: i16, w: i16, h: i16) -> Cell {
    Cell {
        frame: SheetRect { x: 0, y: 0, w, h },
        sprite_source_size: SheetRect { x, y, w, h },
    }
}

/// A character sheet with every sprite, each `w` by `h` and offset by (`x`, `y`).
fn boy_sheet_without(x: i16, y: i16, w: i16, h: i16, missing: &str) -> Sheet {
    let mut sheet = Sheet::new();
    for (label, count) in [("Idle", 10), ("Run", 8), ("Slide", 5), ("Jump", 12), ("Dead", 10)] {
        for n in 1..=count {
            let name = format!("{} ({}).png", label, n);
            if name != missing {
                sheet.insert(name, cell(x, y, w, h));
            }
        }
    }
    sheet
}

fn boy_sheet_with(x: i16, y: i16, w: i16, h: i16) -> Sheet {
    boy_sheet_without(x, y, w, h, "")
}

fn boy_sheet() -> Sheet {
    boy_sheet_with(0, 0, 100, 121)
}

/// A sheet whose sprites sit far above the world, so that nothing touches the character.
fn ghost_sheet() -> Sheet {
    boy_sheet_with(0, -1000, 100, 121)
}

fn tiles() -> Sheet {
    let mut sheet = Sheet::new();
    for (i, name) in ["13.png", "14.png", "15.png"].iter().enumerate() {
        sheet.insert(name.to_string(), cell(0, 0, 128, 93 + i as i16));
    }
    sheet
}

fn keys(codes: &[&str]) -> KeyState {
    let mut k = KeyState::new();
    for c in codes {
        k.set_pressed(c);
    }
    k
}

fn max_right(walk: &Walk) -> i16 {
    walk.obstacles().iter().map(|o| o.right()).max().unwrap()
}

#[test]
fn sprite_file_name_formats_label_and_number() {
    assert_eq!(sprite_file_name("Run", 3), "Run (3).png");
    assert_eq!(sprite_file_name("Jump", 12), "Jump (12).png");
}

#[test]
fn sheet_insert_replaces_a_name() {
    let mut sheet = Sheet::new();
    sheet.insert("a.png".to_string(), cell(1, 1, 1, 1));
    sheet.insert("b.png".to_string(), cell(2, 2, 2, 2));
    sheet.insert("a.png".to_string(), cell(3, 3, 3, 3));
    assert_eq!(sheet.frames().len(), 2);
    assert_eq!(sheet.cell(&"a.png".to_string()), Some(cell(3, 3, 3, 3)));
    assert_eq!(sheet.cell(&"b.png".to_string()), Some(cell(2, 2, 2, 2)));
    assert_eq!(sheet.cell(&"c.png".to_string()), None);
    assert_eq!(Sheet::new().cell(&"a.png".to_string()), None);
}

#[test]
fn sprite_file_name_handles_every_digit_count() {
    assert_eq!(sprite_file_name("Idle", 0), "Idle (0).png");
    assert_eq!(sprite_file_name("Idle", 100), "Idle (100).png");
    assert_eq!(sprite_file_name("Dead", 255), "Dead (255).png");
}

#[test]
fn complete_sheet_is_recognised() {
    assert!(has_all_sprites(&boy_sheet()));
    let sheet = boy_sheet_without(0, 0, 100, 121, "Jump (12).png");
    assert!(!has_all_sprites(&sheet));
    assert!(!has_all_sprites(&Sheet::new()));
}

#[test]
fn character_sprite_and_boxes() {
    let sheet = boy_sheet_with(5, 7, 100, 121);
    let boy = RedHatBoy::new(sheet);
    assert_eq!(boy.frame_name(), "Idle (1).png");
    assert_eq!(boy.current_sprite(), Some(cell(5, 7, 100, 121)));
    let bounds = boy.bounding_box();
    assert_eq!(bounds, Rect::new_from_x_y(-15, FLOOR + 7, 100, 121));
    let collision = boy.collision_box();
    assert_eq!(collision, Rect::new_from_x_y(0, FLOOR + 22, 70, 91));
    assert_eq!(collision.bottom(), bounds.bottom() - 15);
    assert_eq!(collision.right(), bounds.right() - 15);
}

#[test]
fn character_frame_name_follows_frame_counter() {
    let mut boy = RedHatBoy::new(boy_sheet());
    boy.run_right();
    for _ in 0..7 {
        boy.update();
    }
    assert_eq!(boy.state_machine().context().frame, 7);
    assert_eq!(boy.frame_name(), "Run (3).png");
}

#[test]
fn geometry_saturates_and_intersects() {
    assert_eq!(add_sat(i16::MAX, 1), i16::MAX);
    assert_eq!(add_sat(-5, 3), -2);
    assert_eq!(sub_sat(i16::MIN, 1), i16::MIN);
    let a = Rect::new_from_x_y(0, 0, 10, 10);
    assert_eq!(a.right(), 10);
    assert_eq!(a.bottom(), 10);
    assert!(a.intersects(&Rect::new_from_x_y(9, 9, 5, 5)));
    assert!(!a.intersects(&Rect::new_from_x_y(10, 0, 5, 5)));
    assert!(!a.intersects(&Rect::new_from_x_y(0, 10, 5, 5)));
    let mut b = a;
    b.move_horizontally(-4);
    assert_eq!(b.x(), -4);
    assert_eq!(b.y(), 0);
}

#[test]
fn stone_and_platform_layout() {
    let seg = stone_and_platform(STONE, &tiles(), 0);
    assert_eq!(seg.len(), 2);
    match &seg[0] {
        AnyObstacle::Barrier(b) => {
            assert_eq!(b.image.bounding_box, Rect::new_from_x_y(150, STONE_ON_GROUND, 90, 54));
        }
        _ => panic!("expected a stone first"),
    }
    match &seg[1] {
        AnyObstacle::Platform(p) => {
            assert_eq!(p.position, Point::new(370, LOW_PLATFORM));
            assert_eq!(p.sprites.len(), 3);
            assert_eq!(
                p.bounding_boxes,
                vec![
                    Rect::new_from_x_y(370, LOW_PLATFORM, 60, 54),
                    Rect::new_from_x_y(430, LOW_PLATFORM, 264, 93),
                    Rect::new_from_x_y(694, LOW_PLATFORM, 60, 54),
                ]
            );
            assert_eq!(p.right(), 754);
        }
        _ => panic!("expected a platform second"),
    }
    assert_eq!(rightmost(&seg), 754);
}

#[test]
fn platform_and_stone_layout() {
    let seg = platform_and_stone(STONE, &tiles(), 100);
    match &seg[0] {
        AnyObstacle::Barrier(b) => {
            assert_eq!(b.image.bounding_box, Rect::new_from_x_y(500, STONE_ON_GROUND, 90, 54));
        }
        _ => panic!("expected a stone first"),
    }
    match &seg[1] {
        AnyObstacle::Platform(p) => assert_eq!(p.position, Point::new(300, HIGH_PLATFORM)),
        _ => panic!("expected a platform second"),
    }
    assert_eq!(rightmost(&seg), 684);
    assert_eq!(segment(1, STONE, &tiles(), 100).len(), 2);
}

#[test]
fn platform_skips_missing_sprites() {
    let p = Platform::new(
        &tiles(),
        Point::new(10, 20),
        &["13.png", "missing.png", "15.png"],
        &[Rect::new_from_x_y(1, 2, 3, 4)],
    );
    assert_eq!(p.sprites.len(), 2);
    assert_eq!(p.sprites[1].frame.h, 95);
    assert_eq!(p.collision_boxes(), &vec![Rect::new_from_x_y(11, 22, 3, 4)]);
}

#[test]
fn moving_keeps_boxes_with_the_platform() {
    let mut p = Platform::new(
        &tiles(),
        Point::new(100, 300),
        &["13.png"],
        &[Rect::new_from_x_y(0, 0, 10, 10), Rect::new_from_x_y(20, 5, 10, 10)],
    );
    p.move_horizontally(-7);
    assert_eq!(p.position, Point::new(93, 300));
    assert_eq!(p.bounding_boxes[0].x(), 93);
    assert_eq!(p.bounding_boxes[1].x(), 113);
    assert_eq!(p.right(), 123);
    let mut b = Barrier::new(Image::new(90, 54, Point::new(5, 546)));
    b.move_horizontally(-10);
    assert_eq!(b.right(), 85);
}

#[test]
fn barrier_contact_knocks_out() {
    let mut boy = RedHatBoy::new(boy_sheet());
    boy.run_right();
    let stone = Barrier::new(Image::new(90, 54, Point::new(0, 546)));
    stone.check_intersection(&mut boy);
    assert!(matches!(boy.state_machine(), RedHatBoyStateMachine::Falling(_)));
    let mut other = RedHatBoy::new(boy_sheet());
    other.run_right();
    let far = Barrier::new(Image::new(90, 54, Point::new(500, 546)));
    far.check_intersection(&mut other);
    assert!(matches!(other.state_machine(), RedHatBoyStateMachine::Running(_)));
}

#[test]
fn platform_contact_when_rising_knocks_out() {
    let mut boy = RedHatBoy::new(boy_sheet());
    boy.run_right();
    boy.jump();
    boy.update();
    assert!(boy.velocity_y() <= 0);
    let top = boy.pos_y() + 50;
    let platform = Platform::new(&tiles(), Point::new(-50, top), &["13.png"], &[Rect::new_from_x_y(0, 0, 200, 40)]);
    platform.check_intersection(&mut boy);
    assert!(matches!(boy.state_machine(), RedHatBoyStateMachine::Falling(_)));
}

#[test]
fn platform_contact_from_below_knocks_out() {
    let mut boy = RedHatBoy::new(boy_sheet());
    boy.run_right();
    boy.jump();
    while boy.velocity_y() <= 0 {
        boy.update();
    }
    let top = boy.pos_y();
    let platform = Platform::new(&tiles(), Point::new(-50, top), &["13.png"], &[Rect::new_from_x_y(0, 0, 200, 40)]);
    platform.check_intersection(&mut boy);
    assert!(matches!(boy.state_machine(), RedHatBoyStateMachine::Falling(_)));
}

#[test]
fn platform_contact_when_falling_from_above_lands() {
    let mut boy = RedHatBoy::new(boy_sheet());
    boy.run_right();
    boy.jump();
    while boy.velocity_y() <= 0 {
        boy.update();
    }
    let feet = boy.pos_y() + PLAYER_HEIGHT;
    let top = feet - 30;
    let platform = Platform::new(
        &tiles(),
        Point::new(-50, top),
        &["13.png"],
        &[Rect::new_from_x_y(0, 0, 30, 40), Rect::new_from_x_y(30, 3, 200, 40)],
    );
    assert!(boy.pos_y() < top);
    platform.check_intersection(&mut boy);
    assert!(matches!(boy.state_machine(), RedHatBoyStateMachine::Running(_)));
    assert_eq!(boy.pos_y(), top + 3 - PLAYER_HEIGHT);
}

#[test]
fn key_state_tracks_pressed_keys() {
    let mut k = KeyState::new();
    assert!(!k.is_pressed("ArrowUp"));
    k.set_pressed("ArrowUp");
    k.set_pressed("ArrowUp");
    k.set_pressed("ArrowRight");
    assert!(k.is_pressed("ArrowUp"));
    assert!(k.is_pressed("ArrowRight"));
    k.set_released("ArrowUp");
    assert!(!k.is_pressed("ArrowUp"));
    assert!(k.is_pressed("ArrowRight"));
    k.set_released("ArrowDown");
    assert!(k.is_pressed("ArrowRight"));
}

#[test]
fn walk_needs_every_sprite() {
    let r = Walk::new(Sheet::new(), tiles(), STONE, BACKGROUND);
    assert!(matches!(r, Err(GameError::MissingSprite)));
}

#[test]
fn walk_starts_with_first_segment() {
    let walk = Walk::new(boy_sheet(), tiles(), STONE, BACKGROUND).unwrap();
    assert_eq!(walk.obstacles().len(), 2);
    assert_eq!(walk.timeline(), 754);
    assert_eq!(walk.timeline(), max_right(&walk));
    let (a, b) = walk.backgrounds();
    assert_eq!(a.bounding_box, Rect::new_from_x_y(0, 0, 1000, 600));
    assert_eq!(b.bounding_box, Rect::new_from_x_y(1000, 0, 1000, 600));
    assert_eq!(walk.velocity(), 0);
}

#[test]
fn game_loads_once() {
    let game = WalkTheDog::new();
    assert!(game.walk().is_none());
    let loaded = game.initialize(boy_sheet(), tiles(), STONE, BACKGROUND).unwrap();
    assert!(loaded.walk().is_some());
    let again = loaded.initialize(boy_sheet(), tiles(), STONE, BACKGROUND);
    assert!(matches!(again, Err(GameError::AlreadyInitialized)));
    let missing = WalkTheDog::new().initialize(Sheet::new(), tiles(), STONE, BACKGROUND);
    assert!(matches!(missing, Err(GameError::MissingSprite)));
}

#[test]
fn loading_game_ignores_ticks() {
    let mut game = WalkTheDog::new();
    assert!(!game.update(&keys(&["ArrowRight", "ArrowUp"])));
    assert!(matches!(game, WalkTheDog::Loading));
}

#[test]
fn running_scrolls_world_left() {
    let mut walk = Walk::new(ghost_sheet(), tiles(), STONE, BACKGROUND).unwrap();
    let right = keys(&["ArrowRight"]);
    assert!(!walk.update(&right));
    assert_eq!(walk.velocity(), -4);
    assert_eq!(walk.obstacles()[0].right(), 236);
    let (a, b) = walk.backgrounds();
    assert_eq!(a.bounding_box.x(), -4);
    assert_eq!(b.bounding_box.x(), 996);
    // The first segment ends before the timeline minimum: the next is placed
    // a buffer's width past it.
    assert_eq!(walk.obstacles().len(), 4);
    let t = walk.timeline();
    assert!(t == 754 + OBSTACLE_BUFFER + 754 || t == 754 + OBSTACLE_BUFFER + 584);
}

#[test]
fn jump_key_asks_for_sound_once() {
    let mut walk = Walk::new(ghost_sheet(), tiles(), STONE, BACKGROUND).unwrap();
    assert!(!walk.update(&keys(&["ArrowUp"])));
    walk.update(&keys(&["ArrowRight"]));
    assert!(walk.update(&keys(&["ArrowUp"])));
    assert!(!walk.update(&keys(&["ArrowUp"])));
    assert!(matches!(walk.boy().state_machine(), RedHatBoyStateMachine::Jumping(_)));
}

fn prune_when_right_edge_reaches(width: i16, edge: i16) {
    let stone = Size { width, height: 54 };
    let mut walk = Walk::new(ghost_sheet(), tiles(), stone, BACKGROUND).unwrap();
    let right = keys(&["ArrowRight"]);
    let mut ticks = 0;
    loop {
        walk.update(&right);
        ticks += 1;
        assert!(ticks < 1000);
        if walk.obstacles()[0].right() == edge {
            break;
        }
    }
    let count = walk.obstacles().len();
    walk.update(&right);
    // Kept, the obstacle would now end at `edge - 4`.
    assert!(walk.obstacles().iter().all(|o| o.right() > edge - 4));
    assert!(walk.obstacles().len() < count + 2);
}

#[test]
fn obstacle_at_edge_zero_is_pruned() {
    prune_when_right_edge_reaches(90, 0);
}

#[test]
fn obstacle_at_edge_minus_one_is_pruned() {
    prune_when_right_edge_reaches(89, -1);
}

#[test]
fn obstacles_never_linger_off_screen() {
    let mut walk = Walk::new(ghost_sheet(), tiles(), STONE, BACKGROUND).unwrap();
    let right = keys(&["ArrowRight"]);
    for _ in 0..2000 {
        walk.update(&right);
        assert!(walk.obstacles().iter().all(|o| o.right() > -4));
    }
}

#[test]
fn timeline_tracks_rightmost_obstacle() {
    let mut walk = Walk::new(ghost_sheet(), tiles(), STONE, BACKGROUND).unwrap();
    let right = keys(&["ArrowRight"]);
    let mut generated = 0;
    for _ in 0..2000 {
        let before = walk.obstacles().len();
        walk.update(&right);
        if walk.obstacles().len() > before {
            generated += 1;
        }
        assert_eq!(walk.timeline(), max_right(&walk));
        assert!(walk.timeline() >= TIMELINE_MINIMUM - 4);
    }
    assert!(generated > 3);
}

#[test]
fn add_segment_places_past_the_timeline() {
    for kind in 0..2 {
        let mut walk = Walk::new(boy_sheet(), tiles(), STONE, BACKGROUND).unwrap();
        walk.add_segment(kind);
        walk.add_segment(1 - kind);
        assert_eq!(walk.obstacles().len(), 6);
        assert_eq!(walk.timeline(), max_right(&walk));
        assert_eq!(walk.timeline(), rightmost(&walk.obstacles()[4..].to_vec()));
    }
}

#[test]
fn generate_next_segment_extends_the_list() {
    let mut walk = Walk::new(boy_sheet(), tiles(), STONE, BACKGROUND).unwrap();
    walk.generate_next_segment();
    assert_eq!(walk.obstacles().len(), 4);
    let t = walk.timeline();
    assert!(t == 754 + OBSTACLE_BUFFER + 754 || t == 754 + OBSTACLE_BUFFER + 584);
    assert_eq!(t, max_right(&walk));
}

