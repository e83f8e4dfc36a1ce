use platformer::geometry::{overlap_x, Rect};
use platformer::platform::{Collectible, Kind, Platform, PlatformType, Size};
use platformer::respawn::{
    is_spot_free, place_platform, platform_type_for, respawn_platforms, BAND_BOTTOM, BAND_LEFT,
    BAND_RIGHT, BAND_TOP,
};
use platformer::world::SCREEN_WIDTH;

fn at(x: i64, y: i64, size: Size) -> Platform {
    let mut p: Platform = Platform::new(size);
    p.set_position(x, y);
    p
}

/// The three platforms ahead of a new game, preceded by `first`.
fn seeded(first: Platform) -> Vec<Platform> {
    vec![
        first,
        at(1_060_000, 50_000, Size::Small),
        at(800_000, -150_000, Size::Medium),
        at(510_000, -100_000, Size::Large),
    ]
}

fn assert_apart(platforms: &Vec<Platform>) {
    for i in 0..platforms.len() {
        for j in 0..platforms.len() {
            if i != j {
                assert!(!overlap_x(platforms[i].bounds(), platforms[j].bounds()));
            }
        }
    }
}

#[test]
fn type_by_draw() {
    let fish: [i64; 5] = [0, 1, 2, 3, 4];
    for d in fish {
        assert_eq!(platform_type_for(d), PlatformType::Fish);
    }
    let enemy: [i64; 3] = [5, 6, 7];
    for d in enemy {
        assert_eq!(platform_type_for(d), PlatformType::Enemy);
    }
    let plain: [i64; 2] = [8, 9];
    for d in plain {
        assert_eq!(platform_type_for(d), PlatformType::Plain);
    }
}

#[test]
fn band_is_right_of_the_screen() {
    assert_eq!(BAND_LEFT, 640_000 + 100_000);
    assert_eq!(BAND_RIGHT, SCREEN_WIDTH + 640_000);
    assert_eq!(BAND_BOTTOM, -360_000 + 100_000);
    assert_eq!(BAND_TOP, 360_000 - 200_000);
}

#[test]
fn spot_is_free_beside_the_others() {
    let platforms: Vec<Platform> = seeded(at(-1_500_000, 0, Size::Small));
    let candidate: Rect = Rect { x: 1_300_000, y: 0, w: 100_000, h: 30_000 };
    assert!(is_spot_free(&platforms, 0, candidate));
    // Touching the small platform, which spans 1_010_000..1_110_000.
    let touching: Rect = Rect { x: 1_160_000, y: 0, w: 100_000, h: 30_000 };
    assert!(is_spot_free(&platforms, 0, touching));
    let crossing: Rect = Rect { x: 1_159_999, y: 0, w: 100_000, h: 30_000 };
    assert!(!is_spot_free(&platforms, 0, crossing));
}

#[test]
fn spot_check_ignores_height() {
    let platforms: Vec<Platform> = seeded(at(-1_500_000, 0, Size::Small));
    let above: Rect = Rect { x: 800_000, y: 150_000, w: 100_000, h: 30_000 };
    assert!(!is_spot_free(&platforms, 0, above));
}

#[test]
fn spot_check_skips_by_index() {
    let platforms: Vec<Platform> = seeded(at(-1_500_000, 0, Size::Small));
    let on_the_second: Rect = Rect { x: 1_060_000, y: 50_000, w: 100_000, h: 30_000 };
    assert!(is_spot_free(&platforms, 1, on_the_second));
    assert!(!is_spot_free(&platforms, 0, on_the_second));
    assert!(!is_spot_free(&platforms, 2, on_the_second));
    // An index beyond the sequence skips nothing.
    assert!(!is_spot_free(&platforms, 4, on_the_second));
    let empty: Vec<Platform> = Vec::new();
    assert!(is_spot_free(&empty, 0, on_the_second));
}

#[test]
fn place_platform_on_a_free_spot() {
    let mut platforms: Vec<Platform> = seeded(at(-1_500_000, 0, Size::Small));
    assert!(place_platform(&mut platforms, 0, 1_500_000, 20_000, 3));
    assert_eq!((platforms[0].x, platforms[0].y), (1_500_000, 20_000));
    assert_eq!(platforms[0].size, Size::Small);
    match &platforms[0].kind {
        Kind::Fish { fish } => {
            assert_eq!(
                fish,
                &vec![
                    Collectible { dx: -25_000, dy: 40_000, taken: false },
                    Collectible { dx: 0, dy: 40_000, taken: false },
                    Collectible { dx: 25_000, dy: 40_000, taken: false },
                ]
            );
        }
        _ => panic!("a draw of 3 makes a fish platform"),
    }
    assert_eq!((platforms[1].x, platforms[1].y), (1_060_000, 50_000));
    assert_eq!((platforms[2].x, platforms[2].y), (800_000, -150_000));
    assert_eq!((platforms[3].x, platforms[3].y), (510_000, -100_000));
    assert_apart(&platforms);
}

#[test]
fn place_platform_types() {
    let mut platforms: Vec<Platform> = seeded(at(-1_500_000, 0, Size::Small));
    assert!(place_platform(&mut platforms, 0, 1_500_000, 0, 6));
    assert_eq!(platforms[0].platform_type(), PlatformType::Enemy);
    assert!(place_platform(&mut platforms, 0, 1_600_000, 0, 9));
    assert_eq!(platforms[0].platform_type(), PlatformType::Plain);
    assert!(place_platform(&mut platforms, 0, 1_700_000, 0, 0));
    assert_eq!(platforms[0].platform_type(), PlatformType::Fish);
}

#[test]
fn place_platform_refuses_a_taken_spot() {
    let mut platforms: Vec<Platform> = seeded(at(-1_500_000, 7, Size::Small));
    platforms[0].set_type(PlatformType::Enemy);
    assert!(!place_platform(&mut platforms, 0, 850_000, 20_000, 3));
    assert_eq!((platforms[0].x, platforms[0].y), (-1_500_000, 7));
    assert_eq!(platforms[0].platform_type(), PlatformType::Enemy);
    assert_eq!((platforms[2].x, platforms[2].y), (800_000, -150_000));
}

#[test]
fn platform_off_left_respawns_apart_from_the_seeds() {
    // Width 100; right edge one unit beyond a screen's width left of the
    // origin.
    let mut platforms: Vec<Platform> = seeded(at(-SCREEN_WIDTH - 1_000 - 50_000, 0, Size::Small));
    assert!(platforms[0].is_off_left());
    let mut rng = rand::thread_rng();
    respawn_platforms(&mut platforms, &mut rng);
    assert!(!platforms[0].is_off_left());
    assert!(BAND_LEFT <= platforms[0].x && platforms[0].x < BAND_RIGHT);
    assert!(BAND_BOTTOM <= platforms[0].y && platforms[0].y < BAND_TOP);
    assert_eq!(platforms[0].size, Size::Small);
    for j in 1..4 {
        assert!(!overlap_x(platforms[0].bounds(), platforms[j].bounds()));
        assert!(!overlap_x(platforms[j].bounds(), platforms[0].bounds()));
    }
    assert_eq!((platforms[1].x, platforms[1].y), (1_060_000, 50_000));
    assert_eq!((platforms[2].x, platforms[2].y), (800_000, -150_000));
    assert_eq!((platforms[3].x, platforms[3].y), (510_000, -100_000));
}

#[test]
fn respawn_many_times_keeps_platforms_apart() {
    let mut rng = rand::thread_rng();
    let mut round: u32 = 0;
    while round < 200 {
        let mut platforms: Vec<Platform> = seeded(at(-2_000_000, 0, Size::XLarge));
        platforms[2].set_position(-3_000_000, 0);
        respawn_platforms(&mut platforms, &mut rng);
        assert_apart(&platforms);
        assert!(platforms[0].x >= BAND_LEFT && platforms[2].x >= BAND_LEFT);
        round += 1;
    }
}

#[test]
fn respawn_leaves_platforms_in_the_world_alone() {
    let mut platforms: Vec<Platform> = seeded(at(-1_330_000, 0, Size::Small));
    platforms[1].set_type(PlatformType::Fish);
    let mut rng = rand::thread_rng();
    respawn_platforms(&mut platforms, &mut rng);
    assert_eq!((platforms[0].x, platforms[0].y), (-1_330_000, 0));
    assert_eq!(platforms[0].platform_type(), PlatformType::Plain);
    assert_eq!((platforms[1].x, platforms[1].y), (1_060_000, 50_000));
    assert_eq!(platforms[1].platform_type(), PlatformType::Fish);
}

#[test]
fn respawn_waits_when_the_band_is_full() {
    let mut platforms: Vec<Platform> = vec![
        at(-2_000_000, 3, Size::Small),
        at(840_000, 0, Size::XLarge),
        at(1_140_000, 0, Size::XLarge),
        at(1_440_000, 0, Size::XLarge),
        at(1_740_000, 0, Size::XLarge),
        at(2_040_000, 0, Size::XLarge),
    ];
    platforms[0].set_type(PlatformType::Fish);
    let mut rng = rand::thread_rng();
    respawn_platforms(&mut platforms, &mut rng);
    assert_eq!((platforms[0].x, platforms[0].y), (-2_000_000, 3));
    assert_eq!(platforms[0].platform_type(), PlatformType::Fish);
    assert!(platforms[0].is_off_left());
    assert_eq!(platforms[5].x, 2_040_000);
}

#[test]
fn respawn_types_vary() {
    let mut rng = rand::thread_rng();
    let mut seen: [bool; 3] = [false, false, false];
    let mut round: u32 = 0;
    while round < 300 {
        let mut platforms: Vec<Platform> = vec![at(-2_000_000, 0, Size::Small)];
        respawn_platforms(&mut platforms, &mut rng);
        match platforms[0].platform_type() {
            PlatformType::Plain => seen[0] = true,
            PlatformType::Fish => seen[1] = true,
            PlatformType::Enemy => seen[2] = true,
        }
        round += 1;
    }
    assert_eq!(seen, [true, true, true]);
}

#[test]
fn respawn_of_no_platforms() {
    let mut platforms: Vec<Platform> = Vec::new();
    let mut rng = rand::thread_rng();
    respawn_platforms(&mut platforms, &mut rng);
    assert!(platforms.is_empty());
}

#[test]
fn a_platform_free_to_go_anywhere_always_comes_back() {
    let mut rng = rand::thread_rng();
    let mut round: u32 = 0;
    while round < 300 {
        // The others end left of where the band begins for a platform of
        // width 100: at 560_000 and at 690_000.
        let mut platforms: Vec<Platform> = vec![
            at(410_000, 0, Size::XLarge),
            at(-1_330_001, 9, Size::Small),
            at(615_000, 0, Size::Medium),
        ];
        respawn_platforms(&mut platforms, &mut rng);
        assert!(BAND_LEFT <= platforms[1].x && platforms[1].x < BAND_RIGHT);
        assert!(BAND_BOTTOM <= platforms[1].y && platforms[1].y < BAND_TOP);
        assert_eq!(platforms[1].size, Size::Small);
        assert_eq!((platforms[0].x, platforms[0].y), (410_000, 0));
        assert_eq!((platforms[2].x, platforms[2].y), (615_000, 0));
        round += 1;
    }
}
