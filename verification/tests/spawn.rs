use platformer::geometry::{Position, Size};
use platformer::platform::{MovementAxis, MovingPlatform};
use platformer::spawn::{
    spawn_platforms, BodyKind, Color, PlatformBundle, PlatformSettings, PlatformSpawnEvent,
    PlatformType,
};

#[test]
fn default_level_has_five_platforms() {
    let settings = PlatformSettings::default();
    assert_eq!(settings.platforms.len(), 5);
    assert_eq!(
        settings.platforms[0],
        PlatformSpawnEvent {
            position: Position::new(0, -350, 0),
            platform_type: PlatformType::Static { color: Color::new(30, 30, 30) },
            size: Size::new(1000, 20),
        }
    );
    assert_eq!(
        settings.platforms[1],
        PlatformSpawnEvent {
            position: Position::new(0, -150, 0),
            platform_type: PlatformType::Static { color: Color::new(50, 50, 50) },
            size: Size::new(200, 20),
        }
    );
    assert_eq!(
        settings.platforms[2],
        PlatformSpawnEvent {
            position: Position::new(300, -250, 0),
            platform_type: PlatformType::Deadly { color: Color::new(100, 0, 0) },
            size: Size::new(100, 20),
        }
    );
    assert_eq!(
        settings.platforms[3],
        PlatformSpawnEvent {
            position: Position::new(-300, -200, 0),
            platform_type: PlatformType::MovingHorizontal {
                color: Color::new(0, 50, 100),
                range: 100,
                speed: 50,
            },
            size: Size::new(100, 20),
        }
    );
    assert_eq!(
        settings.platforms[4],
        PlatformSpawnEvent {
            position: Position::new(250, 0, 0),
            platform_type: PlatformType::MovingVertical {
                color: Color::new(0, 100, 0),
                range: 100,
                speed: 40,
            },
            size: Size::new(60, 20),
        }
    );
}

#[test]
fn static_platform_is_fixed_and_harmless() {
    let bundle =
        PlatformBundle::spawn_static(Position::new(0, -350, 0), Size::new(1000, 20), Color::new(30, 30, 30));
    assert_eq!(bundle.color, Color::new(30, 30, 30));
    assert_eq!(bundle.size, Size::new(1000, 20));
    assert_eq!(bundle.position, Position::new(0, -350, 0));
    assert_eq!(bundle.body, BodyKind::Fixed);
    assert_eq!(bundle.half_extents, Size::new(500, 10));
    assert!(!bundle.deadly);
    assert_eq!(bundle.moving, None);
}

#[test]
fn deadly_platform_is_fixed_and_deadly() {
    let bundle =
        PlatformBundle::spawn_deadly(Position::new(300, -250, 0), Size::new(100, 20), Color::new(100, 0, 0));
    assert_eq!(bundle.body, BodyKind::Fixed);
    assert_eq!(bundle.half_extents, Size::new(50, 10));
    assert!(bundle.deadly);
    assert_eq!(bundle.moving, None);
}

#[test]
fn horizontal_platform_moves_about_its_x() {
    let bundle = PlatformBundle::spawn_moving_horizontal(
        Position::new(-300, -200, 0),
        Size::new(100, 20),
        Color::new(0, 50, 100),
        100,
        50,
    );
    assert_eq!(bundle.body, BodyKind::KinematicVelocityBased);
    assert!(!bundle.deadly);
    assert_eq!(
        bundle.moving,
        Some(MovingPlatform {
            start_position: -300,
            range: 100,
            speed: 50,
            direction: 1,
            axis: MovementAxis::X,
        })
    );
}

#[test]
fn vertical_platform_moves_about_its_y() {
    let bundle = PlatformBundle::spawn_moving_vertical(
        Position::new(250, 7, 0),
        Size::new(60, 20),
        Color::new(0, 100, 0),
        100,
        40,
    );
    assert_eq!(bundle.body, BodyKind::KinematicVelocityBased);
    assert_eq!(bundle.half_extents, Size::new(30, 10));
    assert_eq!(
        bundle.moving,
        Some(MovingPlatform {
            start_position: 7,
            range: 100,
            speed: 40,
            direction: 1,
            axis: MovementAxis::Y,
        })
    );
}

#[test]
fn event_gives_the_bundle_of_its_kind() {
    let position = Position::new(5, 6, 7);
    let size = Size::new(9, 3);
    let color = Color::new(1, 2, 3);
    let of = |platform_type| PlatformSpawnEvent { position, platform_type, size }.bundle();
    assert_eq!(
        of(PlatformType::Static { color }),
        PlatformBundle::spawn_static(position, size, color)
    );
    assert_eq!(
        of(PlatformType::Deadly { color }),
        PlatformBundle::spawn_deadly(position, size, color)
    );
    assert_eq!(
        of(PlatformType::MovingHorizontal { color, range: 4, speed: 2 }),
        PlatformBundle::spawn_moving_horizontal(position, size, color, 4, 2)
    );
    assert_eq!(
        of(PlatformType::MovingVertical { color, range: 4, speed: 2 }),
        PlatformBundle::spawn_moving_vertical(position, size, color, 4, 2)
    );
}

#[test]
fn odd_sizes_halve_downwards() {
    assert_eq!(Size::new(9, 3).halved(), Size::new(4, 1));
    assert_eq!(Size::new(0, 1).halved(), Size::new(0, 0));
    assert_eq!(Size::new(u32::MAX, 2).halved(), Size::new(u32::MAX / 2, 1));
}

#[test]
fn level_is_spawned_in_order() {
    let settings = PlatformSettings::default();
    let bundles = spawn_platforms(&settings);
    assert_eq!(bundles.len(), 5);
    for (bundle, event) in bundles.iter().zip(settings.platforms.iter()) {
        assert_eq!(*bundle, event.bundle());
        assert_eq!(bundle.position, event.position);
    }
    assert_eq!(bundles[0].body, BodyKind::Fixed);
    assert!(bundles[2].deadly);
    assert_eq!(bundles[3].moving.map(|m| (m.start_position, m.axis)), Some((-300, MovementAxis::X)));
    assert_eq!(bundles[4].moving.map(|m| (m.start_position, m.axis)), Some((0, MovementAxis::Y)));
    assert_eq!(bundles.iter().filter(|b| b.deadly).count(), 1);
    assert_eq!(bundles.iter().filter(|b| b.moving.is_some()).count(), 2);
}

#[test]
fn empty_level_spawns_nothing() {
    let settings = PlatformSettings { platforms: Vec::new() };
    assert!(spawn_platforms(&settings).is_empty());
}
