use platformer::geometry::Rect;
use platformer::platform::{
    collect_all, scroll_all, Collectible, Kind, Platform, PlatformType, Size,
};

fn fish_of(p: &Platform) -> Vec<Collectible> {
    match &p.kind {
        Kind::Fish { fish } => fish.clone(),
        _ => Vec::new(),
    }
}

fn fish_platform(x: i64, y: i64, size: Size) -> Platform {
    let mut p: Platform = Platform::new(size);
    p.set_position(x, y);
    p.set_type(PlatformType::Fish);
    p
}

#[test]
fn size_classes_by_number() {
    assert_eq!(Size::from_u32(0), Size::Small);
    assert_eq!(Size::from_u32(1), Size::Medium);
    assert_eq!(Size::from_u32(2), Size::Large);
    assert_eq!(Size::from_u32(3), Size::XLarge);
    assert_eq!(Size::from_u32(u32::MAX), Size::XLarge);
}

#[test]
fn size_classes_have_fixed_extents() {
    assert_eq!((Size::Small.width(), Size::Small.height()), (100_000, 30_000));
    assert_eq!((Size::Medium.width(), Size::Medium.height()), (150_000, 30_000));
    assert_eq!((Size::Large.width(), Size::Large.height()), (200_000, 30_000));
    assert_eq!((Size::XLarge.width(), Size::XLarge.height()), (300_000, 30_000));
}

#[test]
fn new_platform_is_plain_at_the_origin() {
    let p: Platform = Platform::new(Size::Medium);
    assert_eq!((p.x, p.y), (0, 0));
    assert_eq!(p.size, Size::Medium);
    assert_eq!(p.platform_type(), PlatformType::Plain);
    assert!(fish_of(&p).is_empty());
    assert_eq!(p.bounds(), Rect { x: 0, y: 0, w: 150_000, h: 30_000 });
}

#[test]
fn set_type_fish_gives_a_fresh_school() {
    let mut p: Platform = Platform::new(Size::Large);
    p.set_position(1_000, 2_000);
    p.set_type(PlatformType::Fish);
    assert_eq!(p.platform_type(), PlatformType::Fish);
    assert_eq!(
        fish_of(&p),
        vec![
            Collectible { dx: -50_000, dy: 40_000, taken: false },
            Collectible { dx: 0, dy: 40_000, taken: false },
            Collectible { dx: 50_000, dy: 40_000, taken: false },
        ]
    );
    assert_eq!((p.x, p.y), (1_000, 2_000));
    assert_eq!(p.size, Size::Large);
}

#[test]
fn set_type_drops_what_the_old_type_owned() {
    let mut p: Platform = fish_platform(0, 0, Size::Small);
    p.set_type(PlatformType::Enemy);
    assert_eq!(p.platform_type(), PlatformType::Enemy);
    assert!(fish_of(&p).is_empty());
    assert!(matches!(p.kind, Kind::Enemy));
    p.set_type(PlatformType::Plain);
    assert_eq!(p.platform_type(), PlatformType::Plain);
    assert!(matches!(p.kind, Kind::Plain));
}

#[test]
fn collectible_rectangle_follows_the_platform() {
    let c: Collectible = Collectible { dx: -25_000, dy: 40_000, taken: false };
    assert_eq!(
        c.bounds_at(100_000, -50_000),
        Rect { x: 75_000, y: -10_000, w: 32_000, h: 32_000 }
    );
    assert_eq!(c.bounds_at(i64::MIN, i64::MAX).x, i64::MIN);
    assert_eq!(c.bounds_at(i64::MIN, i64::MAX).y, i64::MAX);
}

#[test]
fn collect_takes_what_the_player_touches() {
    let mut p: Platform = fish_platform(0, 0, Size::Large);
    // Covers the middle collectible and the one on the right.
    let player: Rect = Rect { x: 25_000, y: 40_000, w: 60_000, h: 10_000 };
    assert_eq!(p.collect(&player), 2);
    let fish: Vec<Collectible> = fish_of(&p);
    assert!(!fish[0].taken);
    assert!(fish[1].taken);
    assert!(fish[2].taken);
    assert_eq!((fish[1].dx, fish[1].dy), (0, 40_000));
}

#[test]
fn collect_counts_a_collectible_once() {
    let mut p: Platform = fish_platform(0, 0, Size::Large);
    let player: Rect = Rect { x: 0, y: 40_000, w: 10_000, h: 10_000 };
    assert_eq!(p.collect(&player), 1);
    assert_eq!(p.collect(&player), 0);
    let wide: Rect = Rect { x: 0, y: 40_000, w: 500_000, h: 10_000 };
    assert_eq!(p.collect(&wide), 2);
    assert_eq!(p.collect(&wide), 0);
    assert!(fish_of(&p).iter().all(|c| c.taken));
}

#[test]
fn collect_needs_more_than_a_touch() {
    let mut p: Platform = fish_platform(0, 0, Size::Large);
    // The middle collectible spans -16_000..16_000 by 24_000..56_000.
    let beside: Rect = Rect { x: 21_000, y: 40_000, w: 10_000, h: 10_000 };
    assert_eq!(p.collect(&beside), 0);
    let below: Rect = Rect { x: 0, y: 19_000, w: 10_000, h: 10_000 };
    assert_eq!(p.collect(&below), 0);
    assert!(fish_of(&p).iter().all(|c| !c.taken));
    let inside: Rect = Rect { x: 20_999, y: 40_000, w: 10_000, h: 10_000 };
    assert_eq!(p.collect(&inside), 1);
}

#[test]
fn collect_on_a_platform_without_fish() {
    let mut p: Platform = Platform::new(Size::Large);
    let player: Rect = Rect { x: 0, y: 0, w: 1_000_000, h: 1_000_000 };
    assert_eq!(p.collect(&player), 0);
    p.set_type(PlatformType::Enemy);
    assert_eq!(p.collect(&player), 0);
    assert_eq!(p.platform_type(), PlatformType::Enemy);
}

#[test]
fn respawn_resets_all_but_the_size() {
    let mut p: Platform = fish_platform(0, 0, Size::Medium);
    let player: Rect = Rect { x: 0, y: 40_000, w: 500_000, h: 10_000 };
    assert_eq!(p.collect(&player), 3);
    p.respawn(900_000, -20_000, PlatformType::Fish);
    assert_eq!((p.x, p.y), (900_000, -20_000));
    assert_eq!(p.size, Size::Medium);
    assert_eq!(
        fish_of(&p),
        vec![
            Collectible { dx: -37_500, dy: 40_000, taken: false },
            Collectible { dx: 0, dy: 40_000, taken: false },
            Collectible { dx: 37_500, dy: 40_000, taken: false },
        ]
    );
    p.respawn(1, 2, PlatformType::Plain);
    assert!(matches!(p.kind, Kind::Plain));
    assert_eq!((p.x, p.y), (1, 2));
}

#[test]
fn translate_moves_platform_and_collectibles() {
    let mut p: Platform = fish_platform(10_000, 20_000, Size::Small);
    p.translate(-1_280, 5);
    assert_eq!((p.x, p.y), (8_720, 20_005));
    let fish: Vec<Collectible> = fish_of(&p);
    assert_eq!(fish[1].bounds_at(p.x, p.y).x, 8_720);
    assert_eq!(fish[0].bounds_at(p.x, p.y).x, 8_720 - 25_000);
    p.translate(i64::MIN, i64::MAX);
    assert_eq!((p.x, p.y), (i64::MIN + 8_720, i64::MAX));
}

#[test]
fn scroll_moves_left_by_speed_and_time() {
    let mut p: Platform = Platform::new(Size::Small);
    p.set_position(500_000, 7);
    p.scroll(16);
    assert_eq!((p.x, p.y), (498_720, 7));
    p.scroll(0);
    assert_eq!((p.x, p.y), (498_720, 7));
    p.scroll(1_000);
    assert_eq!(p.x, 418_720);
}

#[test]
fn off_left_is_past_a_screen_width() {
    let mut p: Platform = Platform::new(Size::Small);
    // Right edge exactly a screen's width left of the origin: still in.
    p.set_position(-1_330_000, 0);
    assert!(!p.is_off_left());
    p.set_position(-1_330_001, 0);
    assert!(p.is_off_left());
    p.set_position(0, 0);
    assert!(!p.is_off_left());
    p.set_position(i64::MIN, 0);
    assert!(p.is_off_left());
}

#[test]
fn collect_all_adds_the_pickups_to_the_score() {
    let mut platforms: Vec<Platform> = vec![
        fish_platform(0, 0, Size::Large),
        Platform::new(Size::Small),
        fish_platform(0, 10_000, Size::Small),
    ];
    // Touches the middle and right one of the first platform, and the
    // middle and right one of the third.
    let player: Rect = Rect { x: 30_000, y: 45_000, w: 50_000, h: 20_000 };
    assert_eq!(collect_all(&mut platforms, &player, 7), 11);
    assert_eq!(collect_all(&mut platforms, &player, 11), 11);
    assert_eq!(fish_of(&platforms[0]).iter().filter(|c| c.taken).count(), 2);
    assert_eq!(fish_of(&platforms[2]).iter().filter(|c| c.taken).count(), 2);
    assert_eq!(platforms[1].platform_type(), PlatformType::Plain);
}

#[test]
fn collect_all_stops_at_the_largest_score() {
    let mut platforms: Vec<Platform> = vec![fish_platform(0, 0, Size::Large)];
    let player: Rect = Rect { x: 0, y: 40_000, w: 500_000, h: 10_000 };
    assert_eq!(collect_all(&mut platforms, &player, u32::MAX - 1), u32::MAX);
    assert!(fish_of(&platforms[0]).iter().all(|c| c.taken));
}

#[test]
fn collect_all_without_platforms() {
    let mut platforms: Vec<Platform> = Vec::new();
    let player: Rect = Rect { x: 0, y: 0, w: 10, h: 10 };
    assert_eq!(collect_all(&mut platforms, &player, 3), 3);
    scroll_all(&mut platforms, 16);
    assert!(platforms.is_empty());
}

#[test]
fn scroll_all_moves_every_platform() {
    let mut platforms: Vec<Platform> =
        vec![fish_platform(0, 0, Size::Large), fish_platform(100_000, 5, Size::Small)];
    scroll_all(&mut platforms, 100);
    assert_eq!((platforms[0].x, platforms[0].y), (-8_000, 0));
    assert_eq!((platforms[1].x, platforms[1].y), (92_000, 5));
    assert_eq!(fish_of(&platforms[1]).len(), 3);
}
