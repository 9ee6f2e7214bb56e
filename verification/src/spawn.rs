//! The platforms of a level: what a level asks for, and what is put into the
//! world for each request.

use vstd::prelude::*;
use crate::geometry::{Position, Size};
use crate::platform::{MovementAxis, MovingPlatform};

verus! {

/// A colour: red, green and blue, each in hundredths of full intensity.
#[derive(Debug, Clone, Copy, PartialEq, Eq, Structural)]
pub struct Color {
    pub red: u8,
    pub green: u8,
    pub blue: u8,
}

impl Color {
    pub fn new(red: u8, green: u8, blue: u8) -> (color: Self)
        ensures
            color == (Color { red, green, blue }),
    {
        Color { red, green, blue }
    }
}

/// The kinds of platform that a level can ask for.
#[derive(Debug, Clone, Copy, PartialEq, Eq)]
pub enum PlatformType {
    /// A platform that stays where it is.
    Static { color: Color },
    /// A platform that stays where it is and kills on touch.
    Deadly { color: Color },
    /// A platform that travels left and right.
    MovingHorizontal { color: Color, range: u32, speed: u32 },
    /// A platform that travels up and down.
    MovingVertical { color: Color, range: u32, speed: u32 },
}

/// How the physics of the world treats a body.
#[derive(Debug, Clone, Copy, PartialEq, Eq, Structural)]
pub enum BodyKind {
    /// The body never moves.
    Fixed,
    /// The body is moved by the game and pushes what it meets.
    KinematicVelocityBased,
}

impl PlatformType {
    /// The colour in which the platform is drawn.
    pub open spec fn color(self) -> Color {
        match self {
            PlatformType::Static { color } => color,
            PlatformType::Deadly { color } => color,
            PlatformType::MovingHorizontal { color, .. } => color,
            PlatformType::MovingVertical { color, .. } => color,
        }
    }

    /// Platforms that travel are kinematic; the others are fixed.
    pub open spec fn body(self) -> BodyKind {
        if self is MovingHorizontal || self is MovingVertical {
            BodyKind::KinematicVelocityBased
        } else {
            BodyKind::Fixed
        }
    }

    /// How a platform of this kind that is placed at `position` moves, if it
    /// moves: along its axis, about the coordinate that it has there, going
    /// towards larger coordinates first.
    pub open spec fn motion(self, position: Position) -> Option<MovingPlatform> {
        match self {
            PlatformType::MovingHorizontal { range, speed, .. } => Some(
                MovingPlatform {
                    start_position: position.x,
                    range,
                    speed,
                    direction: 1,
                    axis: MovementAxis::X,
                },
            ),
            PlatformType::MovingVertical { range, speed, .. } => Some(
                MovingPlatform {
                    start_position: position.y,
                    range,
                    speed,
                    direction: 1,
                    axis: MovementAxis::Y,
                },
            ),
            _ => None,
        }
    }
}

/// A request for one platform.
#[derive(Debug, Clone, Copy, PartialEq, Eq)]
pub struct PlatformSpawnEvent {
    /// Where the centre of the platform is placed.
    pub position: Position,
    pub platform_type: PlatformType,
    /// The width and height of the platform.
    pub size: Size,
}

/// What is put into the world for one platform.
#[derive(Debug, Clone, Copy, PartialEq, Eq)]
pub struct PlatformBundle {
    /// The colour of the sprite.
    pub color: Color,
    /// The size of the sprite.
    pub size: Size,
    /// Where the centre of the platform is placed.
    pub position: Position,
    pub body: BodyKind,
    /// The extents of the box that other bodies collide with, measured from
    /// its centre.
    pub half_extents: Size,
    /// Whether the platform kills on touch.
    pub deadly: bool,
    /// The motion of the platform, if it moves.
    pub moving: Option<MovingPlatform>,
}

impl PlatformBundle {
    /// A platform that stays where it is.
    pub fn spawn_static(position: Position, size: Size, color: Color) -> (bundle: Self)
        ensures
            bundle == (PlatformSpawnEvent {
                position,
                platform_type: PlatformType::Static { color },
                size,
            }).spec_bundle(),
            bundle.body == BodyKind::Fixed,
            !bundle.deadly,
            bundle.moving is None,
    {
        PlatformBundle {
            color,
            size,
            position,
            body: BodyKind::Fixed,
            half_extents: size.halved(),
            deadly: false,
            moving: None,
        }
    }

    /// A platform that stays where it is and kills on touch.
    pub fn spawn_deadly(position: Position, size: Size, color: Color) -> (bundle: Self)
        ensures
            bundle == (PlatformSpawnEvent {
                position,
                platform_type: PlatformType::Deadly { color },
                size,
            }).spec_bundle(),
            bundle.body == BodyKind::Fixed,
            bundle.deadly,
            bundle.moving is None,
    {
        PlatformBundle {
            color,
            size,
            position,
            body: BodyKind::Fixed,
            half_extents: size.halved(),
            deadly: true,
            moving: None,
        }
    }

    /// A platform that travels left and right about the place where it is
    /// put.
    pub fn spawn_moving_horizontal(
        position: Position,
        size: Size,
        color: Color,
        range: u32,
        speed: u32,
    ) -> (bundle: Self)
        ensures
            bundle == (PlatformSpawnEvent {
                position,
                platform_type: PlatformType::MovingHorizontal { color, range, speed },
                size,
            }).spec_bundle(),
            bundle.body == BodyKind::KinematicVelocityBased,
            !bundle.deadly,
            bundle.moving == Some(
                MovingPlatform {
                    start_position: position.x,
                    range,
                    speed,
                    direction: 1,
                    axis: MovementAxis::X,
                },
            ),
    {
        PlatformBundle {
            color,
            size,
            position,
            body: BodyKind::KinematicVelocityBased,
            half_extents: size.halved(),
            deadly: false,
            moving: Some(MovingPlatform::new(position.x, range, speed, MovementAxis::X)),
        }
    }

    /// A platform that travels up and down about the place where it is put.
    pub fn spawn_moving_vertical(
        position: Position,
        size: Size,
        color: Color,
        range: u32,
        speed: u32,
    ) -> (bundle: Self)
        ensures
            bundle == (PlatformSpawnEvent {
                position,
                platform_type: PlatformType::MovingVertical { color, range, speed },
                size,
            }).spec_bundle(),
            bundle.body == BodyKind::KinematicVelocityBased,
            !bundle.deadly,
            bundle.moving == Some(
                MovingPlatform {
                    start_position: position.y,
                    range,
                    speed,
                    direction: 1,
                    axis: MovementAxis::Y,
                },
            ),
    {
        PlatformBundle {
            color,
            size,
            position,
            body: BodyKind::KinematicVelocityBased,
            half_extents: size.halved(),
            deadly: false,
            moving: Some(MovingPlatform::new(position.y, range, speed, MovementAxis::Y)),
        }
    }
}

impl PlatformSpawnEvent {
    /// What is put into the world for this request. The sprite has the
    /// colour and size asked for and stands at the place asked for; the
    /// collision box is the sprite's rectangle; only a deadly platform is
    /// deadly, and only a travelling one moves.
    pub open spec fn spec_bundle(self) -> PlatformBundle {
        PlatformBundle {
            color: self.platform_type.color(),
            size: self.size,
            position: self.position,
            body: self.platform_type.body(),
            half_extents: self.size.spec_halved(),
            deadly: self.platform_type is Deadly,
            moving: self.platform_type.motion(self.position),
        }
    }

    /// What is put into the world for this request.
    pub fn bundle(&self) -> (bundle: PlatformBundle)
        ensures
            bundle == self.spec_bundle(),
            bundle.moving matches Some(platform) ==> platform.well_formed(),
    {
        match self.platform_type {
            PlatformType::Static { color } => PlatformBundle::spawn_static(
                self.position,
                self.size,
                color,
            ),
            PlatformType::Deadly { color } => PlatformBundle::spawn_deadly(
                self.position,
                self.size,
                color,
            ),
            PlatformType::MovingHorizontal { color, range, speed } => {
                PlatformBundle::spawn_moving_horizontal(
                    self.position,
                    self.size,
                    color,
                    range,
                    speed,
                )
            },
            PlatformType::MovingVertical { color, range, speed } => {
                PlatformBundle::spawn_moving_vertical(self.position, self.size, color, range, speed)
            },
        }
    }
}

/// The platforms that a level asks for, in the order in which they are put
/// into the world.
#[derive(Debug, Clone)]
pub struct PlatformSettings {
    pub platforms: Vec<PlatformSpawnEvent>,
}

impl View for PlatformSettings {
    type V = Seq<PlatformSpawnEvent>;

    open spec fn view(&self) -> Seq<PlatformSpawnEvent> {
        self.platforms@
    }
}

/// The platforms of the level that is built when nothing else is asked for:
/// a floor, a ledge, a deadly block, and two travelling platforms.
pub open spec fn default_platforms() -> Seq<PlatformSpawnEvent> {
    seq![
        PlatformSpawnEvent {
            position: Position { x: 0, y: (-350) as i64, z: 0 },
            platform_type: PlatformType::Static { color: Color { red: 30, green: 30, blue: 30 } },
            size: Size { width: 1000, height: 20 },
        },
        PlatformSpawnEvent {
            position: Position { x: 0, y: (-150) as i64, z: 0 },
            platform_type: PlatformType::Static { color: Color { red: 50, green: 50, blue: 50 } },
            size: Size { width: 200, height: 20 },
        },
        PlatformSpawnEvent {
            position: Position { x: 300, y: (-250) as i64, z: 0 },
            platform_type: PlatformType::Deadly { color: Color { red: 100, green: 0, blue: 0 } },
            size: Size { width: 100, height: 20 },
        },
        PlatformSpawnEvent {
            position: Position { x: (-300) as i64, y: (-200) as i64, z: 0 },
            platform_type: PlatformType::MovingHorizontal {
                color: Color { red: 0, green: 50, blue: 100 },
                range: 100,
                speed: 50,
            },
            size: Size { width: 100, height: 20 },
        },
        PlatformSpawnEvent {
            position: Position { x: 250, y: 0, z: 0 },
            platform_type: PlatformType::MovingVertical {
                color: Color { red: 0, green: 100, blue: 0 },
                range: 100,
                speed: 40,
            },
            size: Size { width: 60, height: 20 },
        },
    ]
}

impl Default for PlatformSettings {
    fn default() -> (settings: Self)
        ensures
            settings@ == default_platforms(),
    {
        let mut platforms: Vec<PlatformSpawnEvent> = Vec::new();
        platforms.push(
            PlatformSpawnEvent {
                position: Position::new(0, -350, 0),
                platform_type: PlatformType::Static { color: Color::new(30, 30, 30) },
                size: Size::new(1000, 20),
            },
        );
        platforms.push(
            PlatformSpawnEvent {
                position: Position::new(0, -150, 0),
                platform_type: PlatformType::Static { color: Color::new(50, 50, 50) },
                size: Size::new(200, 20),
            },
        );
        platforms.push(
            PlatformSpawnEvent {
                position: Position::new(300, -250, 0),
                platform_type: PlatformType::Deadly { color: Color::new(100, 0, 0) },
                size: Size::new(100, 20),
            },
        );
        platforms.push(
            PlatformSpawnEvent {
                position: Position::new(-300, -200, 0),
                platform_type: PlatformType::MovingHorizontal {
                    color: Color::new(0, 50, 100),
                    range: 100,
                    speed: 50,
                },
                size: Size::new(100, 20),
            },
        );
        platforms.push(
            PlatformSpawnEvent {
                position: Position::new(250, 0, 0),
                platform_type: PlatformType::MovingVertical {
                    color: Color::new(0, 100, 0),
                    range: 100,
                    speed: 40,
                },
                size: Size::new(60, 20),
            },
        );
        assert(platforms@ =~= default_platforms());
        PlatformSettings { platforms }
    }
}

/// What is put into the world for a level: one bundle for each request, in
/// the order of the requests.
pub fn spawn_platforms(settings: &PlatformSettings) -> (bundles: Vec<PlatformBundle>)
    ensures
        bundles@.len() == settings@.len(),
        forall|i: int|
            0 <= i < settings@.len() ==> #[trigger] bundles@[i] == settings@[i].spec_bundle(),
{
    let mut bundles: Vec<PlatformBundle> = Vec::new();
    let mut index: usize = 0;
    while index < settings.platforms.len()
        invariant
            index <= settings.platforms@.len(),
            bundles@.len() == index,
            forall|i: int|
                0 <= i < index ==> #[trigger] bundles@[i] == settings.platforms@[i].spec_bundle(),
        decreases settings.platforms@.len() - index,
    {
        bundles.push(settings.platforms[index].bundle());
        index += 1;
    }
    bundles
}

} // verus!
