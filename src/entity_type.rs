use crate::kind::{EntityKind, EntitySubKind};
use vstd::prelude::*;

verus! {

/// How many entity types the catalog holds; ordinals run from zero to one less.
pub const ENTITY_TYPE_COUNT: u8 = 189;

/// The largest radius of any entity type, in millimetres.
pub const MAX_RADIUS: u32 = 912535;

/// The highest level of any boat.
pub const MAX_BOAT_LEVEL: u8 = 12;

/// Every kind of entity that can exist in the world, in ordinal order.
#[derive(Clone, Copy, Debug, PartialEq, Eq, Hash, Structural)]
pub enum EntityType {
    Abrams,
    Avenger,
    J15,
    E4N,
    TieFighter,
    Harbin,
    Ka25,
    Kingfisher,
    Seahawk,
    Type96,
    SuperEtendard,
    SuperFrelon,
    Z18,
    Akula,
    Apache,
    ArleighBurke,
    Bismarck,
    Buyan,
    B2,
    Clemenceau,
    Kaga,
    Liaoning,
    Chinook,
    Catalina,
    Spitfire,
    J20,
    F35,
    Dreadnought,
    Dredger,
    Drone,
    Espana,
    Ekranoplan,
    Essex,
    FairmileD,
    Fletcher,
    Freccia,
    Freedom,
    G5,
    Golf,
    Indiaman,
    Iowa,
    Kirov,
    Kolkata,
    Komar,
    Leander,
    Lublin,
    Momi,
    Montana,
    Moskva,
    Oberon,
    Ohio,
    Olympias,
    Osa,
    Pt34,
    Seawolf,
    Skipjack,
    Skjold,
    Sherman,
    StarDestroyer,
    Tanker,
    TerryFox,
    Town,
    Type055,
    TypeViic,
    Ticonderoga,
    Titanic,
    Uap,
    Vindicator,
    Visby,
    Virginia,
    Xwing,
    Yamato,
    Yasen,
    Zubr,
    Lst,
    Zudredger,
    Zumwalt,
    Barrel,
    Coin,
    Crate,
    Scrap,
    Brosok,
    Mk70,
    Mk3,
    Moskit,
    Jagm,
    Acacia,
    AverageTree,
    Palm,
    Hq,
    OilPlatform,
    SuperOilPlatform,
    M230,
    Type730,
    Turbolaser,
    ShermanTurret,
    AbramsTurret,
    _100Mm,
    _200Mm,
    _2M3M,
    _38CmSkc34,
    _45Type94,
    _6Pounder,
    _88CmSkc35,
    _M1919,
    A190,
    Ak130,
    Ansaldo,
    Bl6MkXxiii,
    Bl6MkXxiiiX3,
    Bofors57MmMk3,
    Crotale,
    Hq10,
    Hpj38,
    Mark12,
    Mark12X2,
    Mark49,
    Mark51,
    Mark7,
    MarkBViii,
    Ogon,
    OtoMelara76Mm,
    RatepKomar,
    Shtorm,
    VickersMkH12In,
    Blaster,
    GreenBlaster,
    VBlaster,
    VProjector,
    VMissiles,
    _30X130MmR,
    _30X165MmR,
    _762X54MmR,
    _200X1070MmR,
    _127X680MmR,
    _130X720MmR,
    _75X667MmR,
    _120X570MmR,
    _25X129MmR,
    _300X1400MmR,
    _380X1700MmR,
    _458X1980MmR,
    _57X441MmR,
    _76X636MmR,
    _82R,
    Asroc,
    Barak8,
    Pl12,
    BrahMos,
    Hellfire,
    CannonBall,
    Depositor,
    Shovel,
    Essm,
    Exocet,
    Harpoon,
    Hq9,
    Igla,
    Kalibr,
    Lrlap,
    Magic,
    Mark18,
    Mark48,
    Mark54,
    Yu7,
    Mark8,
    Mark9,
    Mistral,
    Nsm,
    Of45,
    RP3,
    P15,
    P700,
    Rbs15,
    Rim116,
    Rpk6,
    S300,
    Set65,
    Tomahawk,
    Torped45,
    Type53,
    V611,
    Vt1,
    Hq10SAM,
    Ls6,
    Wz0839,
    Type96Bomb,
    Mk82,
    Yj18,
}

/// The immutable data of one entity type.
///
/// Lengths are in millimetres and lifespans in ticks (zero meaning unlimited).
/// `radius` is half the diagonal of the `length` by `width` rectangle, rounded down.
#[derive(Clone, Copy, Debug, PartialEq, Eq, Structural)]
pub struct EntityData {
    pub kind: EntityKind,
    pub sub_kind: EntitySubKind,
    pub level: u8,
    pub length: u32,
    pub width: u32,
    pub radius: u32,
    pub lifespan: u16,
    pub npc: bool,
}

impl EntityType {
    /// The catalog entry of this type.
    pub open spec fn spec_data(self) -> EntityData {
        match self {
            EntityType::Abrams => EntityData {
                kind: EntityKind::Boat,
                sub_kind: EntitySubKind::Tank,
                level: 6,
                length: 7930,
                width: 3660,
                radius: 4366,
                lifespan: 0,
                npc: false,
            },
            EntityType::Avenger => EntityData {
                kind: EntityKind::Aircraft,
                sub_kind: EntitySubKind::Plane,
                level: 5,
                length: 12450,
                width: 16514,
                radius: 10340,
                lifespan: 0,
                npc: false,
            },
            EntityType::J15 => EntityData {
                kind: EntityKind::Aircraft,
                sub_kind: EntitySubKind::Plane,
                level: 9,
                length: 22280,
                width: 15000,
                radius: 13429,
                lifespan: 0,
                npc: false,
            },
            EntityType::E4N => EntityData {
                kind: EntityKind::Aircraft,
                sub_kind: EntitySubKind::Plane,
                level: 5,
                length: 8870,
                width: 10250,
                radius: 6777,
                lifespan: 0,
                npc: false,
            },
            EntityType::TieFighter => EntityData {
                kind: EntityKind::Aircraft,
                sub_kind: EntitySubKind::Plane,
                level: 12,
                length: 7240,
                width: 6700,
                radius: 4932,
                lifespan: 0,
                npc: false,
            },
            EntityType::Harbin => EntityData {
                kind: EntityKind::Aircraft,
                sub_kind: EntitySubKind::Heli,
                level: 5,
                length: 14214,
                width: 13104,
                radius: 9666,
                lifespan: 0,
                npc: false,
            },
            EntityType::Ka25 => EntityData {
                kind: EntityKind::Aircraft,
                sub_kind: EntitySubKind::Heli,
                level: 5,
                length: 15800,
                width: 15800,
                radius: 11172,
                lifespan: 0,
                npc: false,
            },
            EntityType::Kingfisher => EntityData {
                kind: EntityKind::Aircraft,
                sub_kind: EntitySubKind::Plane,
                level: 5,
                length: 10085,
                width: 10940,
                radius: 7439,
                lifespan: 0,
                npc: false,
            },
            EntityType::Seahawk => EntityData {
                kind: EntityKind::Aircraft,
                sub_kind: EntitySubKind::Heli,
                level: 5,
                length: 19600,
                width: 16078,
                radius: 12675,
                lifespan: 0,
                npc: false,
            },
            EntityType::Type96 => EntityData {
                kind: EntityKind::Aircraft,
                sub_kind: EntitySubKind::Plane,
                level: 7,
                length: 7565,
                width: 11000,
                radius: 6675,
                lifespan: 0,
                npc: false,
            },
            EntityType::SuperEtendard => EntityData {
                kind: EntityKind::Aircraft,
                sub_kind: EntitySubKind::Plane,
                level: 7,
                length: 14310,
                width: 9447,
                radius: 8573,
                lifespan: 0,
                npc: false,
            },
            EntityType::SuperFrelon => EntityData {
                kind: EntityKind::Aircraft,
                sub_kind: EntitySubKind::Heli,
                level: 5,
                length: 23100,
                width: 18949,
                radius: 14938,
                lifespan: 0,
                npc: false,
            },
            EntityType::Z18 => EntityData {
                kind: EntityKind::Aircraft,
                sub_kind: EntitySubKind::Heli,
                level: 9,
                length: 23100,
                width: 18949,
                radius: 14938,
                lifespan: 0,
                npc: false,
            },
            EntityType::Akula => EntityData {
                kind: EntityKind::Boat,
                sub_kind: EntitySubKind::Submarine,
                level: 6,
                length: 113300,
                width: 20137,
                radius: 57537,
                lifespan: 0,
                npc: false,
            },
            EntityType::Apache => EntityData {
                kind: EntityKind::Boat,
                sub_kind: EntitySubKind::Helicopter,
                level: 7,
                length: 17730,
                width: 14630,
                radius: 11493,
                lifespan: 0,
                npc: false,
            },
            EntityType::ArleighBurke => EntityData {
                kind: EntityKind::Boat,
                sub_kind: EntitySubKind::Destroyer,
                level: 5,
                length: 154000,
                width: 20000,
                radius: 77646,
                lifespan: 0,
                npc: false,
            },
            EntityType::Bismarck => EntityData {
                kind: EntityKind::Boat,
                sub_kind: EntitySubKind::Battleship,
                level: 7,
                length: 241600,
                width: 36000,
                radius: 122133,
                lifespan: 0,
                npc: false,
            },
            EntityType::Buyan => EntityData {
                kind: EntityKind::Boat,
                sub_kind: EntitySubKind::Corvette,
                level: 4,
                length: 75000,
                width: 11133,
                radius: 37910,
                lifespan: 0,
                npc: false,
            },
            EntityType::B2 => EntityData {
                kind: EntityKind::Boat,
                sub_kind: EntitySubKind::Aeroplane,
                level: 11,
                length: 21000,
                width: 52400,
                radius: 28225,
                lifespan: 0,
                npc: false,
            },
            EntityType::Clemenceau => EntityData {
                kind: EntityKind::Boat,
                sub_kind: EntitySubKind::Carrier,
                level: 8,
                length: 265000,
                width: 48652,
                radius: 134714,
                lifespan: 0,
                npc: false,
            },
            EntityType::Kaga => EntityData {
                kind: EntityKind::Boat,
                sub_kind: EntitySubKind::Carrier,
                level: 10,
                length: 247650,
                width: 32500,
                radius: 124886,
                lifespan: 0,
                npc: false,
            },
            EntityType::Liaoning => EntityData {
                kind: EntityKind::Boat,
                sub_kind: EntitySubKind::Carrier,
                level: 9,
                length: 304500,
                width: 67000,
                radius: 155891,
                lifespan: 0,
                npc: false,
            },
            EntityType::Chinook => EntityData {
                kind: EntityKind::Boat,
                sub_kind: EntitySubKind::Helicopter,
                level: 2,
                length: 30000,
                width: 18000,
                radius: 17492,
                lifespan: 0,
                npc: false,
            },
            EntityType::Catalina => EntityData {
                kind: EntityKind::Boat,
                sub_kind: EntitySubKind::Aeroplane,
                level: 5,
                length: 19479,
                width: 32000,
                radius: 18731,
                lifespan: 0,
                npc: false,
            },
            EntityType::Spitfire => EntityData {
                kind: EntityKind::Boat,
                sub_kind: EntitySubKind::Aeroplane,
                level: 8,
                length: 18240,
                width: 22460,
                radius: 14466,
                lifespan: 0,
                npc: false,
            },
            EntityType::J20 => EntityData {
                kind: EntityKind::Boat,
                sub_kind: EntitySubKind::Aeroplane,
                level: 10,
                length: 21200,
                width: 13010,
                radius: 12436,
                lifespan: 0,
                npc: false,
            },
            EntityType::F35 => EntityData {
                kind: EntityKind::Boat,
                sub_kind: EntitySubKind::Aeroplane,
                level: 11,
                length: 15700,
                width: 11000,
                radius: 9585,
                lifespan: 0,
                npc: false,
            },
            EntityType::Dreadnought => EntityData {
                kind: EntityKind::Boat,
                sub_kind: EntitySubKind::Dreadnought,
                level: 4,
                length: 160900,
                width: 25141,
                radius: 81426,
                lifespan: 0,
                npc: false,
            },
            EntityType::Dredger => EntityData {
                kind: EntityKind::Boat,
                sub_kind: EntitySubKind::Dredger,
                level: 4,
                length: 99000,
                width: 16500,
                radius: 50182,
                lifespan: 0,
                npc: false,
            },
            EntityType::Drone => EntityData {
                kind: EntityKind::Boat,
                sub_kind: EntitySubKind::Drone,
                level: 1,
                length: 1113,
                width: 1407,
                radius: 896,
                lifespan: 0,
                npc: false,
            },
            EntityType::Espana => EntityData {
                kind: EntityKind::Boat,
                sub_kind: EntitySubKind::Dreadnought,
                level: 3,
                length: 138414,
                width: 24331,
                radius: 70268,
                lifespan: 0,
                npc: false,
            },
            EntityType::Ekranoplan => EntityData {
                kind: EntityKind::Boat,
                sub_kind: EntitySubKind::Ekranoplan,
                level: 6,
                length: 73800,
                width: 44000,
                radius: 42960,
                lifespan: 0,
                npc: false,
            },
            EntityType::Essex => EntityData {
                kind: EntityKind::Boat,
                sub_kind: EntitySubKind::Carrier,
                level: 6,
                length: 265800,
                width: 42570,
                radius: 134593,
                lifespan: 0,
                npc: false,
            },
            EntityType::FairmileD => EntityData {
                kind: EntityKind::Boat,
                sub_kind: EntitySubKind::Mtb,
                level: 1,
                length: 35000,
                width: 6350,
                radius: 17785,
                lifespan: 0,
                npc: false,
            },
            EntityType::Fletcher => EntityData {
                kind: EntityKind::Boat,
                sub_kind: EntitySubKind::Destroyer,
                level: 4,
                length: 114800,
                width: 12000,
                radius: 57712,
                lifespan: 0,
                npc: false,
            },
            EntityType::Freccia => EntityData {
                kind: EntityKind::Boat,
                sub_kind: EntitySubKind::Destroyer,
                level: 3,
                length: 96150,
                width: 9390,
                radius: 48303,
                lifespan: 0,
                npc: false,
            },
            EntityType::Freedom => EntityData {
                kind: EntityKind::Boat,
                sub_kind: EntitySubKind::Lcs,
                level: 6,
                length: 115000,
                width: 17500,
                radius: 58161,
                lifespan: 0,
                npc: false,
            },
            EntityType::G5 => EntityData {
                kind: EntityKind::Boat,
                sub_kind: EntitySubKind::Mtb,
                level: 1,
                length: 18850,
                width: 3500,
                radius: 9586,
                lifespan: 0,
                npc: false,
            },
            EntityType::Golf => EntityData {
                kind: EntityKind::Boat,
                sub_kind: EntitySubKind::Submarine,
                level: 4,
                length: 98400,
                width: 8200,
                radius: 49370,
                lifespan: 0,
                npc: false,
            },
            EntityType::Indiaman => EntityData {
                kind: EntityKind::Boat,
                sub_kind: EntitySubKind::Pirate,
                level: 3,
                length: 52814,
                width: 13616,
                radius: 27270,
                lifespan: 0,
                npc: false,
            },
            EntityType::Iowa => EntityData {
                kind: EntityKind::Boat,
                sub_kind: EntitySubKind::Battleship,
                level: 10,
                length: 270400,
                width: 32740,
                radius: 136187,
                lifespan: 0,
                npc: false,
            },
            EntityType::Kirov => EntityData {
                kind: EntityKind::Boat,
                sub_kind: EntitySubKind::Cruiser,
                level: 9,
                length: 252000,
                width: 28793,
                radius: 126819,
                lifespan: 0,
                npc: false,
            },
            EntityType::Kolkata => EntityData {
                kind: EntityKind::Boat,
                sub_kind: EntitySubKind::Destroyer,
                level: 6,
                length: 163000,
                width: 17400,
                radius: 81963,
                lifespan: 0,
                npc: false,
            },
            EntityType::Komar => EntityData {
                kind: EntityKind::Boat,
                sub_kind: EntitySubKind::Mtb,
                level: 1,
                length: 25400,
                width: 6240,
                radius: 13077,
                lifespan: 0,
                npc: false,
            },
            EntityType::Leander => EntityData {
                kind: EntityKind::Boat,
                sub_kind: EntitySubKind::Cruiser,
                level: 5,
                length: 169100,
                width: 17100,
                radius: 84981,
                lifespan: 0,
                npc: false,
            },
            EntityType::Lublin => EntityData {
                kind: EntityKind::Boat,
                sub_kind: EntitySubKind::Minelayer,
                level: 3,
                length: 95800,
                width: 10800,
                radius: 48203,
                lifespan: 0,
                npc: false,
            },
            EntityType::Momi => EntityData {
                kind: EntityKind::Boat,
                sub_kind: EntitySubKind::Destroyer,
                level: 2,
                length: 85300,
                width: 7900,
                radius: 42832,
                lifespan: 0,
                npc: false,
            },
            EntityType::Montana => EntityData {
                kind: EntityKind::Boat,
                sub_kind: EntitySubKind::Battleship,
                level: 8,
                length: 280800,
                width: 36930,
                radius: 141609,
                lifespan: 0,
                npc: false,
            },
            EntityType::Moskva => EntityData {
                kind: EntityKind::Boat,
                sub_kind: EntitySubKind::Carrier,
                level: 7,
                length: 189000,
                width: 34000,
                radius: 96016,
                lifespan: 0,
                npc: false,
            },
            EntityType::Oberon => EntityData {
                kind: EntityKind::Boat,
                sub_kind: EntitySubKind::Submarine,
                level: 3,
                length: 90000,
                width: 8250,
                radius: 45188,
                lifespan: 0,
                npc: false,
            },
            EntityType::Ohio => EntityData {
                kind: EntityKind::Boat,
                sub_kind: EntitySubKind::Submarine,
                level: 7,
                length: 170000,
                width: 13000,
                radius: 85248,
                lifespan: 0,
                npc: false,
            },
            EntityType::Olympias => EntityData {
                kind: EntityKind::Boat,
                sub_kind: EntitySubKind::Ram,
                level: 1,
                length: 36900,
                width: 5500,
                radius: 18653,
                lifespan: 0,
                npc: false,
            },
            EntityType::Osa => EntityData {
                kind: EntityKind::Boat,
                sub_kind: EntitySubKind::Mtb,
                level: 3,
                length: 38600,
                width: 7640,
                radius: 19674,
                lifespan: 0,
                npc: false,
            },
            EntityType::Pt34 => EntityData {
                kind: EntityKind::Boat,
                sub_kind: EntitySubKind::Mtb,
                level: 1,
                length: 23000,
                width: 6070,
                radius: 11893,
                lifespan: 0,
                npc: false,
            },
            EntityType::Seawolf => EntityData {
                kind: EntityKind::Boat,
                sub_kind: EntitySubKind::Submarine,
                level: 8,
                length: 108000,
                width: 17613,
                radius: 54713,
                lifespan: 0,
                npc: false,
            },
            EntityType::Skipjack => EntityData {
                kind: EntityKind::Boat,
                sub_kind: EntitySubKind::Submarine,
                level: 5,
                length: 76710,
                width: 9650,
                radius: 38657,
                lifespan: 0,
                npc: false,
            },
            EntityType::Skjold => EntityData {
                kind: EntityKind::Boat,
                sub_kind: EntitySubKind::Corvette,
                level: 7,
                length: 47500,
                width: 13730,
                radius: 24722,
                lifespan: 0,
                npc: false,
            },
            EntityType::Sherman => EntityData {
                kind: EntityKind::Boat,
                sub_kind: EntitySubKind::Tank,
                level: 4,
                length: 5890,
                width: 2876,
                radius: 3277,
                lifespan: 0,
                npc: false,
            },
            EntityType::StarDestroyer => EntityData {
                kind: EntityKind::Boat,
                sub_kind: EntitySubKind::Starship,
                level: 12,
                length: 1600000,
                width: 878000,
                radius: 912535,
                lifespan: 0,
                npc: false,
            },
            EntityType::Tanker => EntityData {
                kind: EntityKind::Boat,
                sub_kind: EntitySubKind::Tanker,
                level: 5,
                length: 179000,
                width: 30940,
                radius: 90827,
                lifespan: 0,
                npc: false,
            },
            EntityType::TerryFox => EntityData {
                kind: EntityKind::Boat,
                sub_kind: EntitySubKind::Icebreaker,
                level: 6,
                length: 88000,
                width: 17703,
                radius: 44881,
                lifespan: 0,
                npc: false,
            },
            EntityType::Town => EntityData {
                kind: EntityKind::Boat,
                sub_kind: EntitySubKind::Cruiser,
                level: 6,
                length: 180300,
                width: 20777,
                radius: 90746,
                lifespan: 0,
                npc: false,
            },
            EntityType::Type055 => EntityData {
                kind: EntityKind::Boat,
                sub_kind: EntitySubKind::Destroyer,
                level: 7,
                length: 180000,
                width: 20000,
                radius: 90553,
                lifespan: 0,
                npc: false,
            },
            EntityType::TypeViic => EntityData {
                kind: EntityKind::Boat,
                sub_kind: EntitySubKind::Submarine,
                level: 2,
                length: 67100,
                width: 6200,
                radius: 33692,
                lifespan: 0,
                npc: false,
            },
            EntityType::Ticonderoga => EntityData {
                kind: EntityKind::Boat,
                sub_kind: EntitySubKind::Cruiser,
                level: 8,
                length: 173000,
                width: 16800,
                radius: 86906,
                lifespan: 0,
                npc: false,
            },
            EntityType::Titanic => EntityData {
                kind: EntityKind::Boat,
                sub_kind: EntitySubKind::Passenger,
                level: 7,
                length: 269100,
                width: 28200,
                radius: 135286,
                lifespan: 0,
                npc: false,
            },
            EntityType::Uap => EntityData {
                kind: EntityKind::Boat,
                sub_kind: EntitySubKind::Drone,
                level: 1,
                length: 12000,
                width: 7416,
                radius: 7053,
                lifespan: 0,
                npc: false,
            },
            EntityType::Vindicator => EntityData {
                kind: EntityKind::Boat,
                sub_kind: EntitySubKind::Aeroplane,
                level: 12,
                length: 28800,
                width: 29880,
                radius: 20750,
                lifespan: 0,
                npc: false,
            },
            EntityType::Visby => EntityData {
                kind: EntityKind::Boat,
                sub_kind: EntitySubKind::Corvette,
                level: 5,
                length: 72700,
                width: 10400,
                radius: 36720,
                lifespan: 0,
                npc: false,
            },
            EntityType::Virginia => EntityData {
                kind: EntityKind::Boat,
                sub_kind: EntitySubKind::Submarine,
                level: 10,
                length: 115000,
                width: 10000,
                radius: 57716,
                lifespan: 0,
                npc: false,
            },
            EntityType::Xwing => EntityData {
                kind: EntityKind::Boat,
                sub_kind: EntitySubKind::Aeroplane,
                level: 9,
                length: 13400,
                width: 11760,
                radius: 8914,
                lifespan: 0,
                npc: false,
            },
            EntityType::Yamato => EntityData {
                kind: EntityKind::Boat,
                sub_kind: EntitySubKind::Battleship,
                level: 9,
                length: 263000,
                width: 40066,
                radius: 133017,
                lifespan: 0,
                npc: false,
            },
            EntityType::Yasen => EntityData {
                kind: EntityKind::Boat,
                sub_kind: EntitySubKind::Submarine,
                level: 9,
                length: 130000,
                width: 19805,
                radius: 65749,
                lifespan: 0,
                npc: false,
            },
            EntityType::Zubr => EntityData {
                kind: EntityKind::Boat,
                sub_kind: EntitySubKind::Hovercraft,
                level: 2,
                length: 57000,
                width: 21152,
                radius: 30399,
                lifespan: 0,
                npc: false,
            },
            EntityType::Lst => EntityData {
                kind: EntityKind::Boat,
                sub_kind: EntitySubKind::LandingShip,
                level: 4,
                length: 33330,
                width: 5660,
                radius: 16903,
                lifespan: 0,
                npc: false,
            },
            EntityType::Zudredger => EntityData {
                kind: EntityKind::Boat,
                sub_kind: EntitySubKind::Hovercraft,
                level: 11,
                length: 57000,
                width: 21152,
                radius: 30399,
                lifespan: 0,
                npc: false,
            },
            EntityType::Zumwalt => EntityData {
                kind: EntityKind::Boat,
                sub_kind: EntitySubKind::Destroyer,
                level: 8,
                length: 190000,
                width: 24600,
                radius: 95792,
                lifespan: 0,
                npc: false,
            },
            EntityType::Barrel => EntityData {
                kind: EntityKind::Collectible,
                sub_kind: EntitySubKind::Score,
                level: 1,
                length: 2720,
                width: 1785,
                radius: 1626,
                lifespan: 600,
                npc: false,
            },
            EntityType::Coin => EntityData {
                kind: EntityKind::Collectible,
                sub_kind: EntitySubKind::Score,
                level: 5,
                length: 3000,
                width: 3000,
                radius: 2121,
                lifespan: 1200,
                npc: false,
            },
            EntityType::Crate => EntityData {
                kind: EntityKind::Collectible,
                sub_kind: EntitySubKind::Score,
                level: 1,
                length: 2000,
                width: 2000,
                radius: 1414,
                lifespan: 600,
                npc: false,
            },
            EntityType::Scrap => EntityData {
                kind: EntityKind::Collectible,
                sub_kind: EntitySubKind::Score,
                level: 2,
                length: 3000,
                width: 3000,
                radius: 2121,
                lifespan: 800,
                npc: false,
            },
            EntityType::Brosok => EntityData {
                kind: EntityKind::Decoy,
                sub_kind: EntitySubKind::Sonar,
                level: 4,
                length: 1500,
                width: 281,
                radius: 763,
                lifespan: 150,
                npc: false,
            },
            EntityType::Mk70 => EntityData {
                kind: EntityKind::Decoy,
                sub_kind: EntitySubKind::Sonar,
                level: 2,
                length: 2075,
                width: 290,
                radius: 1047,
                lifespan: 150,
                npc: false,
            },
            EntityType::Mk3 => EntityData {
                kind: EntityKind::Decoy,
                sub_kind: EntitySubKind::Sonar,
                level: 5,
                length: 2690,
                width: 159,
                radius: 1347,
                lifespan: 300,
                npc: false,
            },
            EntityType::Moskit => EntityData {
                kind: EntityKind::Weapon,
                sub_kind: EntitySubKind::Missile,
                level: 9,
                length: 9745,
                width: 800,
                radius: 4888,
                lifespan: 0,
                npc: false,
            },
            EntityType::Jagm => EntityData {
                kind: EntityKind::Weapon,
                sub_kind: EntitySubKind::Missile,
                level: 15,
                length: 1800,
                width: 180,
                radius: 904,
                lifespan: 0,
                npc: false,
            },
            EntityType::Acacia => EntityData {
                kind: EntityKind::Obstacle,
                sub_kind: EntitySubKind::Tree,
                level: 0,
                length: 10000,
                width: 10000,
                radius: 7071,
                lifespan: 0,
                npc: false,
            },
            EntityType::AverageTree => EntityData {
                kind: EntityKind::Obstacle,
                sub_kind: EntitySubKind::Tree,
                level: 0,
                length: 12000,
                width: 12000,
                radius: 8485,
                lifespan: 0,
                npc: false,
            },
            EntityType::Palm => EntityData {
                kind: EntityKind::Obstacle,
                sub_kind: EntitySubKind::Tree,
                level: 0,
                length: 14000,
                width: 14000,
                radius: 9899,
                lifespan: 0,
                npc: false,
            },
            EntityType::Hq => EntityData {
                kind: EntityKind::Obstacle,
                sub_kind: EntitySubKind::Structure,
                level: 0,
                length: 90000,
                width: 90000,
                radius: 63639,
                lifespan: 6000,
                npc: false,
            },
            EntityType::OilPlatform => EntityData {
                kind: EntityKind::Obstacle,
                sub_kind: EntitySubKind::Structure,
                level: 0,
                length: 90000,
                width: 90000,
                radius: 63639,
                lifespan: 6000,
                npc: false,
            },
            EntityType::SuperOilPlatform => EntityData {
                kind: EntityKind::Obstacle,
                sub_kind: EntitySubKind::Structure,
                level: 0,
                length: 90000,
                width: 90000,
                radius: 63639,
                lifespan: 6000,
                npc: false,
            },
            EntityType::M230 => EntityData {
                kind: EntityKind::Turret,
                sub_kind: EntitySubKind::Gun,
                level: 0,
                length: 2181,
                width: 277,
                radius: 1099,
                lifespan: 0,
                npc: false,
            },
            EntityType::Type730 => EntityData {
                kind: EntityKind::Turret,
                sub_kind: EntitySubKind::Gun,
                level: 0,
                length: 5000,
                width: 3292,
                radius: 2993,
                lifespan: 0,
                npc: false,
            },
            EntityType::Turbolaser => EntityData {
                kind: EntityKind::Turret,
                sub_kind: EntitySubKind::Gun,
                level: 0,
                length: 1000,
                width: 1000,
                radius: 707,
                lifespan: 0,
                npc: false,
            },
            EntityType::ShermanTurret => EntityData {
                kind: EntityKind::Turret,
                sub_kind: EntitySubKind::Gun,
                level: 0,
                length: 3300,
                width: 2217,
                radius: 1987,
                lifespan: 0,
                npc: false,
            },
            EntityType::AbramsTurret => EntityData {
                kind: EntityKind::Turret,
                sub_kind: EntitySubKind::Gun,
                level: 0,
                length: 7930,
                width: 2800,
                radius: 4204,
                lifespan: 0,
                npc: false,
            },
            EntityType::_100Mm => EntityData {
                kind: EntityKind::Turret,
                sub_kind: EntitySubKind::Gun,
                level: 0,
                length: 6700,
                width: 4188,
                radius: 3950,
                lifespan: 0,
                npc: false,
            },
            EntityType::_200Mm => EntityData {
                kind: EntityKind::Turret,
                sub_kind: EntitySubKind::Gun,
                level: 0,
                length: 6700,
                width: 4188,
                radius: 3950,
                lifespan: 0,
                npc: false,
            },
            EntityType::_2M3M => EntityData {
                kind: EntityKind::Turret,
                sub_kind: EntitySubKind::Gun,
                level: 0,
                length: 2975,
                width: 1720,
                radius: 1718,
                lifespan: 0,
                npc: false,
            },
            EntityType::_38CmSkc34 => EntityData {
                kind: EntityKind::Turret,
                sub_kind: EntitySubKind::Gun,
                level: 0,
                length: 25600,
                width: 11100,
                radius: 13951,
                lifespan: 0,
                npc: false,
            },
            EntityType::_45Type94 => EntityData {
                kind: EntityKind::Turret,
                sub_kind: EntitySubKind::Gun,
                level: 0,
                length: 30350,
                width: 16479,
                radius: 17267,
                lifespan: 0,
                npc: false,
            },
            EntityType::_6Pounder => EntityData {
                kind: EntityKind::Turret,
                sub_kind: EntitySubKind::Gun,
                level: 0,
                length: 2675,
                width: 1588,
                radius: 1555,
                lifespan: 0,
                npc: false,
            },
            EntityType::_88CmSkc35 => EntityData {
                kind: EntityKind::Turret,
                sub_kind: EntitySubKind::Gun,
                level: 0,
                length: 3410,
                width: 1812,
                radius: 1930,
                lifespan: 0,
                npc: false,
            },
            EntityType::_M1919 => EntityData {
                kind: EntityKind::Turret,
                sub_kind: EntitySubKind::Gun,
                level: 0,
                length: 1346,
                width: 715,
                radius: 762,
                lifespan: 0,
                npc: false,
            },
            EntityType::A190 => EntityData {
                kind: EntityKind::Turret,
                sub_kind: EntitySubKind::Gun,
                level: 0,
                length: 9450,
                width: 3691,
                radius: 5072,
                lifespan: 0,
                npc: false,
            },
            EntityType::Ak130 => EntityData {
                kind: EntityKind::Turret,
                sub_kind: EntitySubKind::Gun,
                level: 0,
                length: 8450,
                width: 3235,
                radius: 4524,
                lifespan: 0,
                npc: false,
            },
            EntityType::Ansaldo => EntityData {
                kind: EntityKind::Turret,
                sub_kind: EntitySubKind::Gun,
                level: 0,
                length: 6650,
                width: 3481,
                radius: 3752,
                lifespan: 0,
                npc: false,
            },
            EntityType::Bl6MkXxiii => EntityData {
                kind: EntityKind::Turret,
                sub_kind: EntitySubKind::Gun,
                level: 0,
                length: 11900,
                width: 5671,
                radius: 6591,
                lifespan: 0,
                npc: false,
            },
            EntityType::Bl6MkXxiiiX3 => EntityData {
                kind: EntityKind::Turret,
                sub_kind: EntitySubKind::Gun,
                level: 0,
                length: 12300,
                width: 7207,
                radius: 7127,
                lifespan: 0,
                npc: false,
            },
            EntityType::Bofors57MmMk3 => EntityData {
                kind: EntityKind::Turret,
                sub_kind: EntitySubKind::Gun,
                level: 0,
                length: 6925,
                width: 4220,
                radius: 4054,
                lifespan: 0,
                npc: false,
            },
            EntityType::Crotale => EntityData {
                kind: EntityKind::Turret,
                sub_kind: EntitySubKind::Missile,
                level: 0,
                length: 3575,
                width: 2374,
                radius: 2145,
                lifespan: 0,
                npc: false,
            },
            EntityType::Hq10 => EntityData {
                kind: EntityKind::Turret,
                sub_kind: EntitySubKind::Sam,
                level: 0,
                length: 5000,
                width: 3750,
                radius: 3125,
                lifespan: 0,
                npc: false,
            },
            EntityType::Hpj38 => EntityData {
                kind: EntityKind::Turret,
                sub_kind: EntitySubKind::Gun,
                level: 0,
                length: 12200,
                width: 3622,
                radius: 6363,
                lifespan: 0,
                npc: false,
            },
            EntityType::Mark12 => EntityData {
                kind: EntityKind::Turret,
                sub_kind: EntitySubKind::Gun,
                level: 0,
                length: 7340,
                width: 3060,
                radius: 3976,
                lifespan: 0,
                npc: false,
            },
            EntityType::Mark12X2 => EntityData {
                kind: EntityKind::Turret,
                sub_kind: EntitySubKind::Gun,
                level: 0,
                length: 7600,
                width: 4394,
                radius: 4389,
                lifespan: 0,
                npc: false,
            },
            EntityType::Mark49 => EntityData {
                kind: EntityKind::Turret,
                sub_kind: EntitySubKind::Sam,
                level: 0,
                length: 3020,
                width: 2005,
                radius: 1812,
                lifespan: 0,
                npc: false,
            },
            EntityType::Mark51 => EntityData {
                kind: EntityKind::Turret,
                sub_kind: EntitySubKind::Gun,
                level: 0,
                length: 11450,
                width: 6350,
                radius: 6546,
                lifespan: 0,
                npc: false,
            },
            EntityType::Mark7 => EntityData {
                kind: EntityKind::Turret,
                sub_kind: EntitySubKind::Gun,
                level: 0,
                length: 30050,
                width: 15260,
                radius: 16851,
                lifespan: 0,
                npc: false,
            },
            EntityType::MarkBViii => EntityData {
                kind: EntityKind::Turret,
                sub_kind: EntitySubKind::Gun,
                level: 0,
                length: 18150,
                width: 8153,
                radius: 9948,
                lifespan: 0,
                npc: false,
            },
            EntityType::Ogon => EntityData {
                kind: EntityKind::Turret,
                sub_kind: EntitySubKind::Rocket,
                level: 0,
                length: 2600,
                width: 2600,
                radius: 1838,
                lifespan: 0,
                npc: false,
            },
            EntityType::OtoMelara76Mm => EntityData {
                kind: EntityKind::Turret,
                sub_kind: EntitySubKind::Gun,
                level: 0,
                length: 7300,
                width: 3080,
                radius: 3961,
                lifespan: 0,
                npc: false,
            },
            EntityType::RatepKomar => EntityData {
                kind: EntityKind::Turret,
                sub_kind: EntitySubKind::Missile,
                level: 0,
                length: 1874,
                width: 2050,
                radius: 1388,
                lifespan: 0,
                npc: false,
            },
            EntityType::Shtorm => EntityData {
                kind: EntityKind::Turret,
                sub_kind: EntitySubKind::Sam,
                level: 0,
                length: 5800,
                width: 3127,
                radius: 3294,
                lifespan: 0,
                npc: false,
            },
            EntityType::VickersMkH12In => EntityData {
                kind: EntityKind::Turret,
                sub_kind: EntitySubKind::Gun,
                level: 0,
                length: 16650,
                width: 8455,
                radius: 9336,
                lifespan: 0,
                npc: false,
            },
            EntityType::Blaster => EntityData {
                kind: EntityKind::Weapon,
                sub_kind: EntitySubKind::Laser,
                level: 0,
                length: 2000,
                width: 300,
                radius: 1011,
                lifespan: 0,
                npc: false,
            },
            EntityType::GreenBlaster => EntityData {
                kind: EntityKind::Weapon,
                sub_kind: EntitySubKind::Laser,
                level: 0,
                length: 2000,
                width: 300,
                radius: 1011,
                lifespan: 0,
                npc: false,
            },
            EntityType::VBlaster => EntityData {
                kind: EntityKind::Weapon,
                sub_kind: EntitySubKind::Laser,
                level: 0,
                length: 2000,
                width: 300,
                radius: 1011,
                lifespan: 0,
                npc: false,
            },
            EntityType::VProjector => EntityData {
                kind: EntityKind::Weapon,
                sub_kind: EntitySubKind::Shell,
                level: 0,
                length: 25000,
                width: 0,
                radius: 12500,
                lifespan: 0,
                npc: false,
            },
            EntityType::VMissiles => EntityData {
                kind: EntityKind::Weapon,
                sub_kind: EntitySubKind::Missile,
                level: 0,
                length: 5000,
                width: 6000,
                radius: 3905,
                lifespan: 0,
                npc: false,
            },
            EntityType::_30X130MmR => EntityData {
                kind: EntityKind::Weapon,
                sub_kind: EntitySubKind::Shell,
                level: 0,
                length: 130,
                width: 30,
                radius: 66,
                lifespan: 0,
                npc: false,
            },
            EntityType::_30X165MmR => EntityData {
                kind: EntityKind::Weapon,
                sub_kind: EntitySubKind::Shell,
                level: 0,
                length: 165,
                width: 30,
                radius: 83,
                lifespan: 0,
                npc: false,
            },
            EntityType::_762X54MmR => EntityData {
                kind: EntityKind::Weapon,
                sub_kind: EntitySubKind::Shell,
                level: 0,
                length: 762,
                width: 54,
                radius: 381,
                lifespan: 0,
                npc: false,
            },
            EntityType::_200X1070MmR => EntityData {
                kind: EntityKind::Weapon,
                sub_kind: EntitySubKind::Shell,
                level: 0,
                length: 1070,
                width: 200,
                radius: 544,
                lifespan: 0,
                npc: false,
            },
            EntityType::_127X680MmR => EntityData {
                kind: EntityKind::Weapon,
                sub_kind: EntitySubKind::Shell,
                level: 0,
                length: 680,
                width: 127,
                radius: 345,
                lifespan: 0,
                npc: false,
            },
            EntityType::_130X720MmR => EntityData {
                kind: EntityKind::Weapon,
                sub_kind: EntitySubKind::Shell,
                level: 0,
                length: 720,
                width: 130,
                radius: 365,
                lifespan: 0,
                npc: false,
            },
            EntityType::_75X667MmR => EntityData {
                kind: EntityKind::Weapon,
                sub_kind: EntitySubKind::TankShell,
                level: 0,
                length: 668,
                width: 75,
                radius: 336,
                lifespan: 0,
                npc: false,
            },
            EntityType::_120X570MmR => EntityData {
                kind: EntityKind::Weapon,
                sub_kind: EntitySubKind::TankShell,
                level: 0,
                length: 570,
                width: 120,
                radius: 291,
                lifespan: 0,
                npc: false,
            },
            EntityType::_25X129MmR => EntityData {
                kind: EntityKind::Weapon,
                sub_kind: EntitySubKind::Shell,
                level: 0,
                length: 130,
                width: 25,
                radius: 66,
                lifespan: 0,
                npc: false,
            },
            EntityType::_300X1400MmR => EntityData {
                kind: EntityKind::Weapon,
                sub_kind: EntitySubKind::Shell,
                level: 0,
                length: 1400,
                width: 300,
                radius: 715,
                lifespan: 0,
                npc: false,
            },
            EntityType::_380X1700MmR => EntityData {
                kind: EntityKind::Weapon,
                sub_kind: EntitySubKind::Shell,
                level: 0,
                length: 1700,
                width: 380,
                radius: 870,
                lifespan: 0,
                npc: false,
            },
            EntityType::_458X1980MmR => EntityData {
                kind: EntityKind::Weapon,
                sub_kind: EntitySubKind::Shell,
                level: 0,
                length: 1980,
                width: 458,
                radius: 1016,
                lifespan: 0,
                npc: false,
            },
            EntityType::_57X441MmR => EntityData {
                kind: EntityKind::Weapon,
                sub_kind: EntitySubKind::Shell,
                level: 0,
                length: 441,
                width: 57,
                radius: 222,
                lifespan: 0,
                npc: false,
            },
            EntityType::_76X636MmR => EntityData {
                kind: EntityKind::Weapon,
                sub_kind: EntitySubKind::Shell,
                level: 0,
                length: 636,
                width: 76,
                radius: 320,
                lifespan: 0,
                npc: false,
            },
            EntityType::_82R => EntityData {
                kind: EntityKind::Weapon,
                sub_kind: EntitySubKind::Torpedo,
                level: 4,
                length: 3275,
                width: 460,
                radius: 1653,
                lifespan: 0,
                npc: false,
            },
            EntityType::Asroc => EntityData {
                kind: EntityKind::Weapon,
                sub_kind: EntitySubKind::RocketTorpedo,
                level: 5,
                length: 4500,
                width: 809,
                radius: 2286,
                lifespan: 0,
                npc: false,
            },
            EntityType::Barak8 => EntityData {
                kind: EntityKind::Weapon,
                sub_kind: EntitySubKind::Sam,
                level: 4,
                length: 4500,
                width: 703,
                radius: 2277,
                lifespan: 0,
                npc: false,
            },
            EntityType::Pl12 => EntityData {
                kind: EntityKind::Weapon,
                sub_kind: EntitySubKind::Sam,
                level: 11,
                length: 2500,
                width: 500,
                radius: 1274,
                lifespan: 0,
                npc: false,
            },
            EntityType::BrahMos => EntityData {
                kind: EntityKind::Weapon,
                sub_kind: EntitySubKind::Missile,
                level: 5,
                length: 8400,
                width: 952,
                radius: 4226,
                lifespan: 0,
                npc: false,
            },
            EntityType::Hellfire => EntityData {
                kind: EntityKind::Weapon,
                sub_kind: EntitySubKind::Missile,
                level: 7,
                length: 1600,
                width: 180,
                radius: 805,
                lifespan: 0,
                npc: false,
            },
            EntityType::CannonBall => EntityData {
                kind: EntityKind::Weapon,
                sub_kind: EntitySubKind::Shell,
                level: 0,
                length: 91,
                width: 91,
                radius: 64,
                lifespan: 0,
                npc: false,
            },
            EntityType::Depositor => EntityData {
                kind: EntityKind::Weapon,
                sub_kind: EntitySubKind::Depositor,
                level: 0,
                length: 21900,
                width: 5133,
                radius: 11246,
                lifespan: 0,
                npc: false,
            },
            EntityType::Shovel => EntityData {
                kind: EntityKind::Weapon,
                sub_kind: EntitySubKind::Shovel,
                level: 0,
                length: 21900,
                width: 5133,
                radius: 11246,
                lifespan: 0,
                npc: false,
            },
            EntityType::Essm => EntityData {
                kind: EntityKind::Weapon,
                sub_kind: EntitySubKind::Sam,
                level: 4,
                length: 3660,
                width: 458,
                radius: 1844,
                lifespan: 0,
                npc: false,
            },
            EntityType::Exocet => EntityData {
                kind: EntityKind::Weapon,
                sub_kind: EntitySubKind::Missile,
                level: 5,
                length: 6000,
                width: 938,
                radius: 3036,
                lifespan: 0,
                npc: false,
            },
            EntityType::Harpoon => EntityData {
                kind: EntityKind::Weapon,
                sub_kind: EntitySubKind::Missile,
                level: 4,
                length: 3800,
                width: 594,
                radius: 1923,
                lifespan: 0,
                npc: false,
            },
            EntityType::Hq9 => EntityData {
                kind: EntityKind::Weapon,
                sub_kind: EntitySubKind::Sam,
                level: 4,
                length: 6800,
                width: 956,
                radius: 3433,
                lifespan: 0,
                npc: false,
            },
            EntityType::Igla => EntityData {
                kind: EntityKind::Weapon,
                sub_kind: EntitySubKind::Sam,
                level: 4,
                length: 1574,
                width: 160,
                radius: 791,
                lifespan: 0,
                npc: false,
            },
            EntityType::Kalibr => EntityData {
                kind: EntityKind::Weapon,
                sub_kind: EntitySubKind::Missile,
                level: 4,
                length: 8100,
                width: 4113,
                radius: 4542,
                lifespan: 0,
                npc: false,
            },
            EntityType::Lrlap => EntityData {
                kind: EntityKind::Weapon,
                sub_kind: EntitySubKind::Shell,
                level: 0,
                length: 2300,
                width: 288,
                radius: 1158,
                lifespan: 0,
                npc: false,
            },
            EntityType::Magic => EntityData {
                kind: EntityKind::Weapon,
                sub_kind: EntitySubKind::Sam,
                level: 5,
                length: 2720,
                width: 500,
                radius: 1382,
                lifespan: 0,
                npc: false,
            },
            EntityType::Mark18 => EntityData {
                kind: EntityKind::Weapon,
                sub_kind: EntitySubKind::Torpedo,
                level: 1,
                length: 6200,
                width: 533,
                radius: 3111,
                lifespan: 0,
                npc: false,
            },
            EntityType::Mark48 => EntityData {
                kind: EntityKind::Weapon,
                sub_kind: EntitySubKind::Torpedo,
                level: 4,
                length: 5800,
                width: 533,
                radius: 2912,
                lifespan: 0,
                npc: false,
            },
            EntityType::Mark54 => EntityData {
                kind: EntityKind::Weapon,
                sub_kind: EntitySubKind::Torpedo,
                level: 4,
                length: 2720,
                width: 324,
                radius: 1369,
                lifespan: 0,
                npc: false,
            },
            EntityType::Yu7 => EntityData {
                kind: EntityKind::Weapon,
                sub_kind: EntitySubKind::Torpedo,
                level: 7,
                length: 2720,
                width: 324,
                radius: 1369,
                lifespan: 0,
                npc: false,
            },
            EntityType::Mark8 => EntityData {
                kind: EntityKind::Weapon,
                sub_kind: EntitySubKind::Shell,
                level: 0,
                length: 1626,
                width: 406,
                radius: 837,
                lifespan: 0,
                npc: false,
            },
            EntityType::Mark9 => EntityData {
                kind: EntityKind::Weapon,
                sub_kind: EntitySubKind::DepthCharge,
                level: 1,
                length: 448,
                width: 702,
                radius: 416,
                lifespan: 50,
                npc: false,
            },
            EntityType::Mistral => EntityData {
                kind: EntityKind::Weapon,
                sub_kind: EntitySubKind::Sam,
                level: 6,
                length: 1860,
                width: 182,
                radius: 934,
                lifespan: 0,
                npc: false,
            },
            EntityType::Nsm => EntityData {
                kind: EntityKind::Weapon,
                sub_kind: EntitySubKind::Missile,
                level: 5,
                length: 3950,
                width: 1049,
                radius: 2043,
                lifespan: 0,
                npc: false,
            },
            EntityType::Of45 => EntityData {
                kind: EntityKind::Weapon,
                sub_kind: EntitySubKind::Rocket,
                level: 2,
                length: 1125,
                width: 299,
                radius: 582,
                lifespan: 0,
                npc: false,
            },
            EntityType::RP3 => EntityData {
                kind: EntityKind::Weapon,
                sub_kind: EntitySubKind::Rocket,
                level: 7,
                length: 1400,
                width: 80,
                radius: 701,
                lifespan: 0,
                npc: false,
            },
            EntityType::P15 => EntityData {
                kind: EntityKind::Weapon,
                sub_kind: EntitySubKind::Missile,
                level: 3,
                length: 5800,
                width: 2084,
                radius: 3081,
                lifespan: 0,
                npc: false,
            },
            EntityType::P700 => EntityData {
                kind: EntityKind::Weapon,
                sub_kind: EntitySubKind::Missile,
                level: 4,
                length: 10000,
                width: 2969,
                radius: 5215,
                lifespan: 0,
                npc: false,
            },
            EntityType::Rbs15 => EntityData {
                kind: EntityKind::Weapon,
                sub_kind: EntitySubKind::Missile,
                level: 3,
                length: 4330,
                width: 1252,
                radius: 2253,
                lifespan: 0,
                npc: false,
            },
            EntityType::Rim116 => EntityData {
                kind: EntityKind::Weapon,
                sub_kind: EntitySubKind::Sam,
                level: 4,
                length: 2790,
                width: 305,
                radius: 1403,
                lifespan: 0,
                npc: false,
            },
            EntityType::Rpk6 => EntityData {
                kind: EntityKind::Weapon,
                sub_kind: EntitySubKind::RocketTorpedo,
                level: 6,
                length: 6500,
                width: 533,
                radius: 3260,
                lifespan: 0,
                npc: false,
            },
            EntityType::S300 => EntityData {
                kind: EntityKind::Weapon,
                sub_kind: EntitySubKind::Sam,
                level: 5,
                length: 6600,
                width: 1031,
                radius: 3340,
                lifespan: 0,
                npc: false,
            },
            EntityType::Set65 => EntityData {
                kind: EntityKind::Weapon,
                sub_kind: EntitySubKind::Torpedo,
                level: 3,
                length: 7900,
                width: 533,
                radius: 3958,
                lifespan: 0,
                npc: false,
            },
            EntityType::Tomahawk => EntityData {
                kind: EntityKind::Weapon,
                sub_kind: EntitySubKind::Missile,
                level: 5,
                length: 5560,
                width: 2606,
                radius: 3070,
                lifespan: 0,
                npc: false,
            },
            EntityType::Torped45 => EntityData {
                kind: EntityKind::Weapon,
                sub_kind: EntitySubKind::Torpedo,
                level: 4,
                length: 2850,
                width: 400,
                radius: 1438,
                lifespan: 0,
                npc: false,
            },
            EntityType::Type53 => EntityData {
                kind: EntityKind::Weapon,
                sub_kind: EntitySubKind::Torpedo,
                level: 1,
                length: 7200,
                width: 533,
                radius: 3609,
                lifespan: 0,
                npc: false,
            },
            EntityType::V611 => EntityData {
                kind: EntityKind::Weapon,
                sub_kind: EntitySubKind::Sam,
                level: 4,
                length: 6150,
                width: 1345,
                radius: 3147,
                lifespan: 0,
                npc: false,
            },
            EntityType::Vt1 => EntityData {
                kind: EntityKind::Weapon,
                sub_kind: EntitySubKind::Sam,
                level: 5,
                length: 2350,
                width: 340,
                radius: 1187,
                lifespan: 0,
                npc: false,
            },
            EntityType::Hq10SAM => EntityData {
                kind: EntityKind::Weapon,
                sub_kind: EntitySubKind::Sam,
                level: 5,
                length: 2000,
                width: 120,
                radius: 1001,
                lifespan: 0,
                npc: false,
            },
            EntityType::Ls6 => EntityData {
                kind: EntityKind::Weapon,
                sub_kind: EntitySubKind::GlideBomb,
                level: 10,
                length: 2140,
                width: 1280,
                radius: 1246,
                lifespan: 0,
                npc: false,
            },
            EntityType::Wz0839 => EntityData {
                kind: EntityKind::Weapon,
                sub_kind: EntitySubKind::Mine,
                level: 3,
                length: 2000,
                width: 2600,
                radius: 1640,
                lifespan: 3000,
                npc: false,
            },
            EntityType::Type96Bomb => EntityData {
                kind: EntityKind::Weapon,
                sub_kind: EntitySubKind::Mine,
                level: 3,
                length: 1000,
                width: 1500,
                radius: 901,
                lifespan: 150,
                npc: false,
            },
            EntityType::Mk82 => EntityData {
                kind: EntityKind::Weapon,
                sub_kind: EntitySubKind::Mine,
                level: 10,
                length: 2220,
                width: 273,
                radius: 1118,
                lifespan: 200,
                npc: false,
            },
            EntityType::Yj18 => EntityData {
                kind: EntityKind::Weapon,
                sub_kind: EntitySubKind::Missile,
                level: 5,
                length: 8100,
                width: 4113,
                radius: 4542,
                lifespan: 0,
                npc: false,
            },
        }
    }

    /// Looks up the catalog entry of this type.
    pub fn data(self) -> (r: EntityData)
        ensures
            r == self.spec_data(),
    {
        match self {
            EntityType::Abrams => EntityData {
                kind: EntityKind::Boat,
                sub_kind: EntitySubKind::Tank,
                level: 6,
                length: 7930,
                width: 3660,
                radius: 4366,
                lifespan: 0,
                npc: false,
            },
            EntityType::Avenger => EntityData {
                kind: EntityKind::Aircraft,
                sub_kind: EntitySubKind::Plane,
                level: 5,
                length: 12450,
                width: 16514,
                radius: 10340,
                lifespan: 0,
                npc: false,
            },
            EntityType::J15 => EntityData {
                kind: EntityKind::Aircraft,
                sub_kind: EntitySubKind::Plane,
                level: 9,
                length: 22280,
                width: 15000,
                radius: 13429,
                lifespan: 0,
                npc: false,
            },
            EntityType::E4N => EntityData {
                kind: EntityKind::Aircraft,
                sub_kind: EntitySubKind::Plane,
                level: 5,
                length: 8870,
                width: 10250,
                radius: 6777,
                lifespan: 0,
                npc: false,
            },
            EntityType::TieFighter => EntityData {
                kind: EntityKind::Aircraft,
                sub_kind: EntitySubKind::Plane,
                level: 12,
                length: 7240,
                width: 6700,
                radius: 4932,
                lifespan: 0,
                npc: false,
            },
            EntityType::Harbin => EntityData {
                kind: EntityKind::Aircraft,
                sub_kind: EntitySubKind::Heli,
                level: 5,
                length: 14214,
                width: 13104,
                radius: 9666,
                lifespan: 0,
                npc: false,
            },
            EntityType::Ka25 => EntityData {
                kind: EntityKind::Aircraft,
                sub_kind: EntitySubKind::Heli,
                level: 5,
                length: 15800,
                width: 15800,
                radius: 11172,
                lifespan: 0,
                npc: false,
            },
            EntityType::Kingfisher => EntityData {
                kind: EntityKind::Aircraft,
                sub_kind: EntitySubKind::Plane,
                level: 5,
                length: 10085,
                width: 10940,
                radius: 7439,
                lifespan: 0,
                npc: false,
            },
            EntityType::Seahawk => EntityData {
                kind: EntityKind::Aircraft,
                sub_kind: EntitySubKind::Heli,
                level: 5,
                length: 19600,
                width: 16078,
                radius: 12675,
                lifespan: 0,
                npc: false,
            },
            EntityType::Type96 => EntityData {
                kind: EntityKind::Aircraft,
                sub_kind: EntitySubKind::Plane,
                level: 7,
                length: 7565,
                width: 11000,
                radius: 6675,
                lifespan: 0,
                npc: false,
            },
            EntityType::SuperEtendard => EntityData {
                kind: EntityKind::Aircraft,
                sub_kind: EntitySubKind::Plane,
                level: 7,
                length: 14310,
                width: 9447,
                radius: 8573,
                lifespan: 0,
                npc: false,
            },
            EntityType::SuperFrelon => EntityData {
                kind: EntityKind::Aircraft,
                sub_kind: EntitySubKind::Heli,
                level: 5,
                length: 23100,
                width: 18949,
                radius: 14938,
                lifespan: 0,
                npc: false,
            },
            EntityType::Z18 => EntityData {
                kind: EntityKind::Aircraft,
                sub_kind: EntitySubKind::Heli,
                level: 9,
                length: 23100,
                width: 18949,
                radius: 14938,
                lifespan: 0,
                npc: false,
            },
            EntityType::Akula => EntityData {
                kind: EntityKind::Boat,
                sub_kind: EntitySubKind::Submarine,
                level: 6,
                length: 113300,
                width: 20137,
                radius: 57537,
                lifespan: 0,
                npc: false,
            },
            EntityType::Apache => EntityData {
                kind: EntityKind::Boat,
                sub_kind: EntitySubKind::Helicopter,
                level: 7,
                length: 17730,
                width: 14630,
                radius: 11493,
                lifespan: 0,
                npc: false,
            },
            EntityType::ArleighBurke => EntityData {
                kind: EntityKind::Boat,
                sub_kind: EntitySubKind::Destroyer,
                level: 5,
                length: 154000,
                width: 20000,
                radius: 77646,
                lifespan: 0,
                npc: false,
            },
            EntityType::Bismarck => EntityData {
                kind: EntityKind::Boat,
                sub_kind: EntitySubKind::Battleship,
                level: 7,
                length: 241600,
                width: 36000,
                radius: 122133,
                lifespan: 0,
                npc: false,
            },
            EntityType::Buyan => EntityData {
                kind: EntityKind::Boat,
                sub_kind: EntitySubKind::Corvette,
                level: 4,
                length: 75000,
                width: 11133,
                radius: 37910,
                lifespan: 0,
                npc: false,
            },
            EntityType::B2 => EntityData {
                kind: EntityKind::Boat,
                sub_kind: EntitySubKind::Aeroplane,
                level: 11,
                length: 21000,
                width: 52400,
                radius: 28225,
                lifespan: 0,
                npc: false,
            },
            EntityType::Clemenceau => EntityData {
                kind: EntityKind::Boat,
                sub_kind: EntitySubKind::Carrier,
                level: 8,
                length: 265000,
                width: 48652,
                radius: 134714,
                lifespan: 0,
                npc: false,
            },
            EntityType::Kaga => EntityData {
                kind: EntityKind::Boat,
                sub_kind: EntitySubKind::Carrier,
                level: 10,
                length: 247650,
                width: 32500,
                radius: 124886,
                lifespan: 0,
                npc: false,
            },
            EntityType::Liaoning => EntityData {
                kind: EntityKind::Boat,
                sub_kind: EntitySubKind::Carrier,
                level: 9,
                length: 304500,
                width: 67000,
                radius: 155891,
                lifespan: 0,
                npc: false,
            },
            EntityType::Chinook => EntityData {
                kind: EntityKind::Boat,
                sub_kind: EntitySubKind::Helicopter,
                level: 2,
                length: 30000,
                width: 18000,
                radius: 17492,
                lifespan: 0,
                npc: false,
            },
            EntityType::Catalina => EntityData {
                kind: EntityKind::Boat,
                sub_kind: EntitySubKind::Aeroplane,
                level: 5,
                length: 19479,
                width: 32000,
                radius: 18731,
                lifespan: 0,
                npc: false,
            },
            EntityType::Spitfire => EntityData {
                kind: EntityKind::Boat,
                sub_kind: EntitySubKind::Aeroplane,
                level: 8,
                length: 18240,
                width: 22460,
                radius: 14466,
                lifespan: 0,
                npc: false,
            },
            EntityType::J20 => EntityData {
                kind: EntityKind::Boat,
                sub_kind: EntitySubKind::Aeroplane,
                level: 10,
                length: 21200,
                width: 13010,
                radius: 12436,
                lifespan: 0,
                npc: false,
            },
            EntityType::F35 => EntityData {
                kind: EntityKind::Boat,
                sub_kind: EntitySubKind::Aeroplane,
                level: 11,
                length: 15700,
                width: 11000,
                radius: 9585,
                lifespan: 0,
                npc: false,
            },
            EntityType::Dreadnought => EntityData {
                kind: EntityKind::Boat,
                sub_kind: EntitySubKind::Dreadnought,
                level: 4,
                length: 160900,
                width: 25141,
                radius: 81426,
                lifespan: 0,
                npc: false,
            },
            EntityType::Dredger => EntityData {
                kind: EntityKind::Boat,
                sub_kind: EntitySubKind::Dredger,
                level: 4,
                length: 99000,
                width: 16500,
                radius: 50182,
                lifespan: 0,
                npc: false,
            },
            EntityType::Drone => EntityData {
                kind: EntityKind::Boat,
                sub_kind: EntitySubKind::Drone,
                level: 1,
                length: 1113,
                width: 1407,
                radius: 896,
                lifespan: 0,
                npc: false,
            },
            EntityType::Espana => EntityData {
                kind: EntityKind::Boat,
                sub_kind: EntitySubKind::Dreadnought,
                level: 3,
                length: 138414,
                width: 24331,
                radius: 70268,
                lifespan: 0,
                npc: false,
            },
            EntityType::Ekranoplan => EntityData {
                kind: EntityKind::Boat,
                sub_kind: EntitySubKind::Ekranoplan,
                level: 6,
                length: 73800,
                width: 44000,
                radius: 42960,
                lifespan: 0,
                npc: false,
            },
            EntityType::Essex => EntityData {
                kind: EntityKind::Boat,
                sub_kind: EntitySubKind::Carrier,
                level: 6,
                length: 265800,
                width: 42570,
                radius: 134593,
                lifespan: 0,
                npc: false,
            },
            EntityType::FairmileD => EntityData {
                kind: EntityKind::Boat,
                sub_kind: EntitySubKind::Mtb,
                level: 1,
                length: 35000,
                width: 6350,
                radius: 17785,
                lifespan: 0,
                npc: false,
            },
            EntityType::Fletcher => EntityData {
                kind: EntityKind::Boat,
                sub_kind: EntitySubKind::Destroyer,
                level: 4,
                length: 114800,
                width: 12000,
                radius: 57712,
                lifespan: 0,
                npc: false,
            },
            EntityType::Freccia => EntityData {
                kind: EntityKind::Boat,
                sub_kind: EntitySubKind::Destroyer,
                level: 3,
                length: 96150,
                width: 9390,
                radius: 48303,
                lifespan: 0,
                npc: false,
            },
            EntityType::Freedom => EntityData {
                kind: EntityKind::Boat,
                sub_kind: EntitySubKind::Lcs,
                level: 6,
                length: 115000,
                width: 17500,
                radius: 58161,
                lifespan: 0,
                npc: false,
            },
            EntityType::G5 => EntityData {
                kind: EntityKind::Boat,
                sub_kind: EntitySubKind::Mtb,
                level: 1,
                length: 18850,
                width: 3500,
                radius: 9586,
                lifespan: 0,
                npc: false,
            },
            EntityType::Golf => EntityData {
                kind: EntityKind::Boat,
                sub_kind: EntitySubKind::Submarine,
                level: 4,
                length: 98400,
                width: 8200,
                radius: 49370,
                lifespan: 0,
                npc: false,
            },
            EntityType::Indiaman => EntityData {
                kind: EntityKind::Boat,
                sub_kind: EntitySubKind::Pirate,
                level: 3,
                length: 52814,
                width: 13616,
                radius: 27270,
                lifespan: 0,
                npc: false,
            },
            EntityType::Iowa => EntityData {
                kind: EntityKind::Boat,
                sub_kind: EntitySubKind::Battleship,
                level: 10,
                length: 270400,
                width: 32740,
                radius: 136187,
                lifespan: 0,
                npc: false,
            },
            EntityType::Kirov => EntityData {
                kind: EntityKind::Boat,
                sub_kind: EntitySubKind::Cruiser,
                level: 9,
                length: 252000,
                width: 28793,
                radius: 126819,
                lifespan: 0,
                npc: false,
            },
            EntityType::Kolkata => EntityData {
                kind: EntityKind::Boat,
                sub_kind: EntitySubKind::Destroyer,
                level: 6,
                length: 163000,
                width: 17400,
                radius: 81963,
                lifespan: 0,
                npc: false,
            },
            EntityType::Komar => EntityData {
                kind: EntityKind::Boat,
                sub_kind: EntitySubKind::Mtb,
                level: 1,
                length: 25400,
                width: 6240,
                radius: 13077,
                lifespan: 0,
                npc: false,
            },
            EntityType::Leander => EntityData {
                kind: EntityKind::Boat,
                sub_kind: EntitySubKind::Cruiser,
                level: 5,
                length: 169100,
                width: 17100,
                radius: 84981,
                lifespan: 0,
                npc: false,
            },
            EntityType::Lublin => EntityData {
                kind: EntityKind::Boat,
                sub_kind: EntitySubKind::Minelayer,
                level: 3,
                length: 95800,
                width: 10800,
                radius: 48203,
                lifespan: 0,
                npc: false,
            },
            EntityType::Momi => EntityData {
                kind: EntityKind::Boat,
                sub_kind: EntitySubKind::Destroyer,
                level: 2,
                length: 85300,
                width: 7900,
                radius: 42832,
                lifespan: 0,
                npc: false,
            },
            EntityType::Montana => EntityData {
                kind: EntityKind::Boat,
                sub_kind: EntitySubKind::Battleship,
                level: 8,
                length: 280800,
                width: 36930,
                radius: 141609,
                lifespan: 0,
                npc: false,
            },
            EntityType::Moskva => EntityData {
                kind: EntityKind::Boat,
                sub_kind: EntitySubKind::Carrier,
                level: 7,
                length: 189000,
                width: 34000,
                radius: 96016,
                lifespan: 0,
                npc: false,
            },
            EntityType::Oberon => EntityData {
                kind: EntityKind::Boat,
                sub_kind: EntitySubKind::Submarine,
                level: 3,
                length: 90000,
                width: 8250,
                radius: 45188,
                lifespan: 0,
                npc: false,
            },
            EntityType::Ohio => EntityData {
                kind: EntityKind::Boat,
                sub_kind: EntitySubKind::Submarine,
                level: 7,
                length: 170000,
                width: 13000,
                radius: 85248,
                lifespan: 0,
                npc: false,
            },
            EntityType::Olympias => EntityData {
                kind: EntityKind::Boat,
                sub_kind: EntitySubKind::Ram,
                level: 1,
                length: 36900,
                width: 5500,
                radius: 18653,
                lifespan: 0,
                npc: false,
            },
            EntityType::Osa => EntityData {
                kind: EntityKind::Boat,
                sub_kind: EntitySubKind::Mtb,
                level: 3,
                length: 38600,
                width: 7640,
                radius: 19674,
                lifespan: 0,
                npc: false,
            },
            EntityType::Pt34 => EntityData {
                kind: EntityKind::Boat,
                sub_kind: EntitySubKind::Mtb,
                level: 1,
                length: 23000,
                width: 6070,
                radius: 11893,
                lifespan: 0,
                npc: false,
            },
            EntityType::Seawolf => EntityData {
                kind: EntityKind::Boat,
                sub_kind: EntitySubKind::Submarine,
                level: 8,
                length: 108000,
                width: 17613,
                radius: 54713,
                lifespan: 0,
                npc: false,
            },
            EntityType::Skipjack => EntityData {
                kind: EntityKind::Boat,
                sub_kind: EntitySubKind::Submarine,
                level: 5,
                length: 76710,
                width: 9650,
                radius: 38657,
                lifespan: 0,
                npc: false,
            },
            EntityType::Skjold => EntityData {
                kind: EntityKind::Boat,
                sub_kind: EntitySubKind::Corvette,
                level: 7,
                length: 47500,
                width: 13730,
                radius: 24722,
                lifespan: 0,
                npc: false,
            },
            EntityType::Sherman => EntityData {
                kind: EntityKind::Boat,
                sub_kind: EntitySubKind::Tank,
                level: 4,
                length: 5890,
                width: 2876,
                radius: 3277,
                lifespan: 0,
                npc: false,
            },
            EntityType::StarDestroyer => EntityData {
                kind: EntityKind::Boat,
                sub_kind: EntitySubKind::Starship,
                level: 12,
                length: 1600000,
                width: 878000,
                radius: 912535,
                lifespan: 0,
                npc: false,
            },
            EntityType::Tanker => EntityData {
                kind: EntityKind::Boat,
                sub_kind: EntitySubKind::Tanker,
                level: 5,
                length: 179000,
                width: 30940,
                radius: 90827,
                lifespan: 0,
                npc: false,
            },
            EntityType::TerryFox => EntityData {
                kind: EntityKind::Boat,
                sub_kind: EntitySubKind::Icebreaker,
                level: 6,
                length: 88000,
                width: 17703,
                radius: 44881,
                lifespan: 0,
                npc: false,
            },
            EntityType::Town => EntityData {
                kind: EntityKind::Boat,
                sub_kind: EntitySubKind::Cruiser,
                level: 6,
                length: 180300,
                width: 20777,
                radius: 90746,
                lifespan: 0,
                npc: false,
            },
            EntityType::Type055 => EntityData {
                kind: EntityKind::Boat,
                sub_kind: EntitySubKind::Destroyer,
                level: 7,
                length: 180000,
                width: 20000,
                radius: 90553,
                lifespan: 0,
                npc: false,
            },
            EntityType::TypeViic => EntityData {
                kind: EntityKind::Boat,
                sub_kind: EntitySubKind::Submarine,
                level: 2,
                length: 67100,
                width: 6200,
                radius: 33692,
                lifespan: 0,
                npc: false,
            },
            EntityType::Ticonderoga => EntityData {
                kind: EntityKind::Boat,
                sub_kind: EntitySubKind::Cruiser,
                level: 8,
                length: 173000,
                width: 16800,
                radius: 86906,
                lifespan: 0,
                npc: false,
            },
            EntityType::Titanic => EntityData {
                kind: EntityKind::Boat,
                sub_kind: EntitySubKind::Passenger,
                level: 7,
                length: 269100,
                width: 28200,
                radius: 135286,
                lifespan: 0,
                npc: false,
            },
            EntityType::Uap => EntityData {
                kind: EntityKind::Boat,
                sub_kind: EntitySubKind::Drone,
                level: 1,
                length: 12000,
                width: 7416,
                radius: 7053,
                lifespan: 0,
                npc: false,
            },
            EntityType::Vindicator => EntityData {
                kind: EntityKind::Boat,
                sub_kind: EntitySubKind::Aeroplane,
                level: 12,
                length: 28800,
                width: 29880,
                radius: 20750,
                lifespan: 0,
                npc: false,
            },
            EntityType::Visby => EntityData {
                kind: EntityKind::Boat,
                sub_kind: EntitySubKind::Corvette,
                level: 5,
                length: 72700,
                width: 10400,
                radius: 36720,
                lifespan: 0,
                npc: false,
            },
            EntityType::Virginia => EntityData {
                kind: EntityKind::Boat,
                sub_kind: EntitySubKind::Submarine,
                level: 10,
                length: 115000,
                width: 10000,
                radius: 57716,
                lifespan: 0,
                npc: false,
            },
            EntityType::Xwing => EntityData {
                kind: EntityKind::Boat,
                sub_kind: EntitySubKind::Aeroplane,
                level: 9,
                length: 13400,
                width: 11760,
                radius: 8914,
                lifespan: 0,
                npc: false,
            },
            EntityType::Yamato => EntityData {
                kind: EntityKind::Boat,
                sub_kind: EntitySubKind::Battleship,
                level: 9,
                length: 263000,
                width: 40066,
                radius: 133017,
                lifespan: 0,
                npc: false,
            },
            EntityType::Yasen => EntityData {
                kind: EntityKind::Boat,
                sub_kind: EntitySubKind::Submarine,
                level: 9,
                length: 130000,
                width: 19805,
                radius: 65749,
                lifespan: 0,
                npc: false,
            },
            EntityType::Zubr => EntityData {
                kind: EntityKind::Boat,
                sub_kind: EntitySubKind::Hovercraft,
                level: 2,
                length: 57000,
                width: 21152,
                radius: 30399,
                lifespan: 0,
                npc: false,
            },
            EntityType::Lst => EntityData {
                kind: EntityKind::Boat,
                sub_kind: EntitySubKind::LandingShip,
                level: 4,
                length: 33330,
                width: 5660,
                radius: 16903,
                lifespan: 0,
                npc: false,
            },
            EntityType::Zudredger => EntityData {
                kind: EntityKind::Boat,
                sub_kind: EntitySubKind::Hovercraft,
                level: 11,
                length: 57000,
                width: 21152,
                radius: 30399,
                lifespan: 0,
                npc: false,
            },
            EntityType::Zumwalt => EntityData {
                kind: EntityKind::Boat,
                sub_kind: EntitySubKind::Destroyer,
                level: 8,
                length: 190000,
                width: 24600,
                radius: 95792,
                lifespan: 0,
                npc: false,
            },
            EntityType::Barrel => EntityData {
                kind: EntityKind::Collectible,
                sub_kind: EntitySubKind::Score,
                level: 1,
                length: 2720,
                width: 1785,
                radius: 1626,
                lifespan: 600,
                npc: false,
            },
            EntityType::Coin => EntityData {
                kind: EntityKind::Collectible,
                sub_kind: EntitySubKind::Score,
                level: 5,
                length: 3000,
                width: 3000,
                radius: 2121,
                lifespan: 1200,
                npc: false,
            },
            EntityType::Crate => EntityData {
                kind: EntityKind::Collectible,
                sub_kind: EntitySubKind::Score,
                level: 1,
                length: 2000,
                width: 2000,
                radius: 1414,
                lifespan: 600,
                npc: false,
            },
            EntityType::Scrap => EntityData {
                kind: EntityKind::Collectible,
                sub_kind: EntitySubKind::Score,
                level: 2,
                length: 3000,
                width: 3000,
                radius: 2121,
                lifespan: 800,
                npc: false,
            },
            EntityType::Brosok => EntityData {
                kind: EntityKind::Decoy,
                sub_kind: EntitySubKind::Sonar,
                level: 4,
                length: 1500,
                width: 281,
                radius: 763,
                lifespan: 150,
                npc: false,
            },
            EntityType::Mk70 => EntityData {
                kind: EntityKind::Decoy,
                sub_kind: EntitySubKind::Sonar,
                level: 2,
                length: 2075,
                width: 290,
                radius: 1047,
                lifespan: 150,
                npc: false,
            },
            EntityType::Mk3 => EntityData {
                kind: EntityKind::Decoy,
                sub_kind: EntitySubKind::Sonar,
                level: 5,
                length: 2690,
                width: 159,
                radius: 1347,
                lifespan: 300,
                npc: false,
            },
            EntityType::Moskit => EntityData {
                kind: EntityKind::Weapon,
                sub_kind: EntitySubKind::Missile,
                level: 9,
                length: 9745,
                width: 800,
                radius: 4888,
                lifespan: 0,
                npc: false,
            },
            EntityType::Jagm => EntityData {
                kind: EntityKind::Weapon,
                sub_kind: EntitySubKind::Missile,
                level: 15,
                length: 1800,
                width: 180,
                radius: 904,
                lifespan: 0,
                npc: false,
            },
            EntityType::Acacia => EntityData {
                kind: EntityKind::Obstacle,
                sub_kind: EntitySubKind::Tree,
                level: 0,
                length: 10000,
                width: 10000,
                radius: 7071,
                lifespan: 0,
                npc: false,
            },
            EntityType::AverageTree => EntityData {
                kind: EntityKind::Obstacle,
                sub_kind: EntitySubKind::Tree,
                level: 0,
                length: 12000,
                width: 12000,
                radius: 8485,
                lifespan: 0,
                npc: false,
            },
            EntityType::Palm => EntityData {
                kind: EntityKind::Obstacle,
                sub_kind: EntitySubKind::Tree,
                level: 0,
                length: 14000,
                width: 14000,
                radius: 9899,
                lifespan: 0,
                npc: false,
            },
            EntityType::Hq => EntityData {
                kind: EntityKind::Obstacle,
                sub_kind: EntitySubKind::Structure,
                level: 0,
                length: 90000,
                width: 90000,
                radius: 63639,
                lifespan: 6000,
                npc: false,
            },
            EntityType::OilPlatform => EntityData {
                kind: EntityKind::Obstacle,
                sub_kind: EntitySubKind::Structure,
                level: 0,
                length: 90000,
                width: 90000,
                radius: 63639,
                lifespan: 6000,
                npc: false,
            },
            EntityType::SuperOilPlatform => EntityData {
                kind: EntityKind::Obstacle,
                sub_kind: EntitySubKind::Structure,
                level: 0,
                length: 90000,
                width: 90000,
                radius: 63639,
                lifespan: 6000,
                npc: false,
            },
            EntityType::M230 => EntityData {
                kind: EntityKind::Turret,
                sub_kind: EntitySubKind::Gun,
                level: 0,
                length: 2181,
                width: 277,
                radius: 1099,
                lifespan: 0,
                npc: false,
            },
            EntityType::Type730 => EntityData {
                kind: EntityKind::Turret,
                sub_kind: EntitySubKind::Gun,
                level: 0,
                length: 5000,
                width: 3292,
                radius: 2993,
                lifespan: 0,
                npc: false,
            },
            EntityType::Turbolaser => EntityData {
                kind: EntityKind::Turret,
                sub_kind: EntitySubKind::Gun,
                level: 0,
                length: 1000,
                width: 1000,
                radius: 707,
                lifespan: 0,
                npc: false,
            },
            EntityType::ShermanTurret => EntityData {
                kind: EntityKind::Turret,
                sub_kind: EntitySubKind::Gun,
                level: 0,
                length: 3300,
                width: 2217,
                radius: 1987,
                lifespan: 0,
                npc: false,
            },
            EntityType::AbramsTurret => EntityData {
                kind: EntityKind::Turret,
                sub_kind: EntitySubKind::Gun,
                level: 0,
                length: 7930,
                width: 2800,
                radius: 4204,
                lifespan: 0,
                npc: false,
            },
            EntityType::_100Mm => EntityData {
                kind: EntityKind::Turret,
                sub_kind: EntitySubKind::Gun,
                level: 0,
                length: 6700,
                width: 4188,
                radius: 3950,
                lifespan: 0,
                npc: false,
            },
            EntityType::_200Mm => EntityData {
                kind: EntityKind::Turret,
                sub_kind: EntitySubKind::Gun,
                level: 0,
                length: 6700,
                width: 4188,
                radius: 3950,
                lifespan: 0,
                npc: false,
            },
            EntityType::_2M3M => EntityData {
                kind: EntityKind::Turret,
                sub_kind: EntitySubKind::Gun,
                level: 0,
                length: 2975,
                width: 1720,
                radius: 1718,
                lifespan: 0,
                npc: false,
            },
            EntityType::_38CmSkc34 => EntityData {
                kind: EntityKind::Turret,
                sub_kind: EntitySubKind::Gun,
                level: 0,
                length: 25600,
                width: 11100,
                radius: 13951,
                lifespan: 0,
                npc: false,
            },
            EntityType::_45Type94 => EntityData {
                kind: EntityKind::Turret,
                sub_kind: EntitySubKind::Gun,
                level: 0,
                length: 30350,
                width: 16479,
                radius: 17267,
                lifespan: 0,
                npc: false,
            },
            EntityType::_6Pounder => EntityData {
                kind: EntityKind::Turret,
                sub_kind: EntitySubKind::Gun,
                level: 0,
                length: 2675,
                width: 1588,
                radius: 1555,
                lifespan: 0,
                npc: false,
            },
            EntityType::_88CmSkc35 => EntityData {
                kind: EntityKind::Turret,
                sub_kind: EntitySubKind::Gun,
                level: 0,
                length: 3410,
                width: 1812,
                radius: 1930,
                lifespan: 0,
                npc: false,
            },
            EntityType::_M1919 => EntityData {
                kind: EntityKind::Turret,
                sub_kind: EntitySubKind::Gun,
                level: 0,
                length: 1346,
                width: 715,
                radius: 762,
                lifespan: 0,
                npc: false,
            },
            EntityType::A190 => EntityData {
                kind: EntityKind::Turret,
                sub_kind: EntitySubKind::Gun,
                level: 0,
                length: 9450,
                width: 3691,
                radius: 5072,
                lifespan: 0,
                npc: false,
            },
            EntityType::Ak130 => EntityData {
                kind: EntityKind::Turret,
                sub_kind: EntitySubKind::Gun,
                level: 0,
                length: 8450,
                width: 3235,
                radius: 4524,
                lifespan: 0,
                npc: false,
            },
            EntityType::Ansaldo => EntityData {
                kind: EntityKind::Turret,
                sub_kind: EntitySubKind::Gun,
                level: 0,
                length: 6650,
                width: 3481,
                radius: 3752,
                lifespan: 0,
                npc: false,
            },
            EntityType::Bl6MkXxiii => EntityData {
                kind: EntityKind::Turret,
                sub_kind: EntitySubKind::Gun,
                level: 0,
                length: 11900,
                width: 5671,
                radius: 6591,
                lifespan: 0,
                npc: false,
            },
            EntityType::Bl6MkXxiiiX3 => EntityData {
                kind: EntityKind::Turret,
                sub_kind: EntitySubKind::Gun,
                level: 0,
                length: 12300,
                width: 7207,
                radius: 7127,
                lifespan: 0,
                npc: false,
            },
            EntityType::Bofors57MmMk3 => EntityData {
                kind: EntityKind::Turret,
                sub_kind: EntitySubKind::Gun,
                level: 0,
                length: 6925,
                width: 4220,
                radius: 4054,
                lifespan: 0,
                npc: false,
            },
            EntityType::Crotale => EntityData {
                kind: EntityKind::Turret,
                sub_kind: EntitySubKind::Missile,
                level: 0,
                length: 3575,
                width: 2374,
                radius: 2145,
                lifespan: 0,
                npc: false,
            },
            EntityType::Hq10 => EntityData {
                kind: EntityKind::Turret,
                sub_kind: EntitySubKind::Sam,
                level: 0,
                length: 5000,
                width: 3750,
                radius: 3125,
                lifespan: 0,
                npc: false,
            },
            EntityType::Hpj38 => EntityData {
                kind: EntityKind::Turret,
                sub_kind: EntitySubKind::Gun,
                level: 0,
                length: 12200,
                width: 3622,
                radius: 6363,
                lifespan: 0,
                npc: false,
            },
            EntityType::Mark12 => EntityData {
                kind: EntityKind::Turret,
                sub_kind: EntitySubKind::Gun,
                level: 0,
                length: 7340,
                width: 3060,
                radius: 3976,
                lifespan: 0,
                npc: false,
            },
            EntityType::Mark12X2 => EntityData {
                kind: EntityKind::Turret,
                sub_kind: EntitySubKind::Gun,
                level: 0,
                length: 7600,
                width: 4394,
                radius: 4389,
                lifespan: 0,
                npc: false,
            },
            EntityType::Mark49 => EntityData {
                kind: EntityKind::Turret,
                sub_kind: EntitySubKind::Sam,
                level: 0,
                length: 3020,
                width: 2005,
                radius: 1812,
                lifespan: 0,
                npc: false,
            },
            EntityType::Mark51 => EntityData {
                kind: EntityKind::Turret,
                sub_kind: EntitySubKind::Gun,
                level: 0,
                length: 11450,
                width: 6350,
                radius: 6546,
                lifespan: 0,
                npc: false,
            },
            EntityType::Mark7 => EntityData {
                kind: EntityKind::Turret,
                sub_kind: EntitySubKind::Gun,
                level: 0,
                length: 30050,
                width: 15260,
                radius: 16851,
                lifespan: 0,
                npc: false,
            },
            EntityType::MarkBViii => EntityData {
                kind: EntityKind::Turret,
                sub_kind: EntitySubKind::Gun,
                level: 0,
                length: 18150,
                width: 8153,
                radius: 9948,
                lifespan: 0,
                npc: false,
            },
            EntityType::Ogon => EntityData {
                kind: EntityKind::Turret,
                sub_kind: EntitySubKind::Rocket,
                level: 0,
                length: 2600,
                width: 2600,
                radius: 1838,
                lifespan: 0,
                npc: false,
            },
            EntityType::OtoMelara76Mm => EntityData {
                kind: EntityKind::Turret,
                sub_kind: EntitySubKind::Gun,
                level: 0,
                length: 7300,
                width: 3080,
                radius: 3961,
                lifespan: 0,
                npc: false,
            },
            EntityType::RatepKomar => EntityData {
                kind: EntityKind::Turret,
                sub_kind: EntitySubKind::Missile,
                level: 0,
                length: 1874,
                width: 2050,
                radius: 1388,
                lifespan: 0,
                npc: false,
            },
            EntityType::Shtorm => EntityData {
                kind: EntityKind::Turret,
                sub_kind: EntitySubKind::Sam,
                level: 0,
                length: 5800,
                width: 3127,
                radius: 3294,
                lifespan: 0,
                npc: false,
            },
            EntityType::VickersMkH12In => EntityData {
                kind: EntityKind::Turret,
                sub_kind: EntitySubKind::Gun,
                level: 0,
                length: 16650,
                width: 8455,
                radius: 9336,
                lifespan: 0,
                npc: false,
            },
            EntityType::Blaster => EntityData {
                kind: EntityKind::Weapon,
                sub_kind: EntitySubKind::Laser,
                level: 0,
                length: 2000,
                width: 300,
                radius: 1011,
                lifespan: 0,
                npc: false,
            },
            EntityType::GreenBlaster => EntityData {
                kind: EntityKind::Weapon,
                sub_kind: EntitySubKind::Laser,
                level: 0,
                length: 2000,
                width: 300,
                radius: 1011,
                lifespan: 0,
                npc: false,
            },
            EntityType::VBlaster => EntityData {
                kind: EntityKind::Weapon,
                sub_kind: EntitySubKind::Laser,
                level: 0,
                length: 2000,
                width: 300,
                radius: 1011,
                lifespan: 0,
                npc: false,
            },
            EntityType::VProjector => EntityData {
                kind: EntityKind::Weapon,
                sub_kind: EntitySubKind::Shell,
                level: 0,
                length: 25000,
                width: 0,
                radius: 12500,
                lifespan: 0,
                npc: false,
            },
            EntityType::VMissiles => EntityData {
                kind: EntityKind::Weapon,
                sub_kind: EntitySubKind::Missile,
                level: 0,
                length: 5000,
                width: 6000,
                radius: 3905,
                lifespan: 0,
                npc: false,
            },
            EntityType::_30X130MmR => EntityData {
                kind: EntityKind::Weapon,
                sub_kind: EntitySubKind::Shell,
                level: 0,
                length: 130,
                width: 30,
                radius: 66,
                lifespan: 0,
                npc: false,
            },
            EntityType::_30X165MmR => EntityData {
                kind: EntityKind::Weapon,
                sub_kind: EntitySubKind::Shell,
                level: 0,
                length: 165,
                width: 30,
                radius: 83,
                lifespan: 0,
                npc: false,
            },
            EntityType::_762X54MmR => EntityData {
                kind: EntityKind::Weapon,
                sub_kind: EntitySubKind::Shell,
                level: 0,
                length: 762,
                width: 54,
                radius: 381,
                lifespan: 0,
                npc: false,
            },
            EntityType::_200X1070MmR => EntityData {
                kind: EntityKind::Weapon,
                sub_kind: EntitySubKind::Shell,
                level: 0,
                length: 1070,
                width: 200,
                radius: 544,
                lifespan: 0,
                npc: false,
            },
            EntityType::_127X680MmR => EntityData {
                kind: EntityKind::Weapon,
                sub_kind: EntitySubKind::Shell,
                level: 0,
                length: 680,
                width: 127,
                radius: 345,
                lifespan: 0,
                npc: false,
            },
            EntityType::_130X720MmR => EntityData {
                kind: EntityKind::Weapon,
                sub_kind: EntitySubKind::Shell,
                level: 0,
                length: 720,
                width: 130,
                radius: 365,
                lifespan: 0,
                npc: false,
            },
            EntityType::_75X667MmR => EntityData {
                kind: EntityKind::Weapon,
                sub_kind: EntitySubKind::TankShell,
                level: 0,
                length: 668,
                width: 75,
                radius: 336,
                lifespan: 0,
                npc: false,
            },
            EntityType::_120X570MmR => EntityData {
                kind: EntityKind::Weapon,
                sub_kind: EntitySubKind::TankShell,
                level: 0,
                length: 570,
                width: 120,
                radius: 291,
                lifespan: 0,
                npc: false,
            },
            EntityType::_25X129MmR => EntityData {
                kind: EntityKind::Weapon,
                sub_kind: EntitySubKind::Shell,
                level: 0,
                length: 130,
                width: 25,
                radius: 66,
                lifespan: 0,
                npc: false,
            },
            EntityType::_300X1400MmR => EntityData {
                kind: EntityKind::Weapon,
                sub_kind: EntitySubKind::Shell,
                level: 0,
                length: 1400,
                width: 300,
                radius: 715,
                lifespan: 0,
                npc: false,
            },
            EntityType::_380X1700MmR => EntityData {
                kind: EntityKind::Weapon,
                sub_kind: EntitySubKind::Shell,
                level: 0,
                length: 1700,
                width: 380,
                radius: 870,
                lifespan: 0,
                npc: false,
            },
            EntityType::_458X1980MmR => EntityData {
                kind: EntityKind::Weapon,
                sub_kind: EntitySubKind::Shell,
                level: 0,
                length: 1980,
                width: 458,
                radius: 1016,
                lifespan: 0,
                npc: false,
            },
            EntityType::_57X441MmR => EntityData {
                kind: EntityKind::Weapon,
                sub_kind: EntitySubKind::Shell,
                level: 0,
                length: 441,
                width: 57,
                radius: 222,
                lifespan: 0,
                npc: false,
            },
            EntityType::_76X636MmR => EntityData {
                kind: EntityKind::Weapon,
                sub_kind: EntitySubKind::Shell,
                level: 0,
                length: 636,
                width: 76,
                radius: 320,
                lifespan: 0,
                npc: false,
            },
            EntityType::_82R => EntityData {
                kind: EntityKind::Weapon,
                sub_kind: EntitySubKind::Torpedo,
                level: 4,
                length: 3275,
                width: 460,
                radius: 1653,
                lifespan: 0,
                npc: false,
            },
            EntityType::Asroc => EntityData {
                kind: EntityKind::Weapon,
                sub_kind: EntitySubKind::RocketTorpedo,
                level: 5,
                length: 4500,
                width: 809,
                radius: 2286,
                lifespan: 0,
                npc: false,
            },
            EntityType::Barak8 => EntityData {
                kind: EntityKind::Weapon,
                sub_kind: EntitySubKind::Sam,
                level: 4,
                length: 4500,
                width: 703,
                radius: 2277,
                lifespan: 0,
                npc: false,
            },
            EntityType::Pl12 => EntityData {
                kind: EntityKind::Weapon,
                sub_kind: EntitySubKind::Sam,
                level: 11,
                length: 2500,
                width: 500,
                radius: 1274,
                lifespan: 0,
                npc: false,
            },
            EntityType::BrahMos => EntityData {
                kind: EntityKind::Weapon,
                sub_kind: EntitySubKind::Missile,
                level: 5,
                length: 8400,
                width: 952,
                radius: 4226,
                lifespan: 0,
                npc: false,
            },
            EntityType::Hellfire => EntityData {
                kind: EntityKind::Weapon,
                sub_kind: EntitySubKind::Missile,
                level: 7,
                length: 1600,
                width: 180,
                radius: 805,
                lifespan: 0,
                npc: false,
            },
            EntityType::CannonBall => EntityData {
                kind: EntityKind::Weapon,
                sub_kind: EntitySubKind::Shell,
                level: 0,
                length: 91,
                width: 91,
                radius: 64,
                lifespan: 0,
                npc: false,
            },
            EntityType::Depositor => EntityData {
                kind: EntityKind::Weapon,
                sub_kind: EntitySubKind::Depositor,
                level: 0,
                length: 21900,
                width: 5133,
                radius: 11246,
                lifespan: 0,
                npc: false,
            },
            EntityType::Shovel => EntityData {
                kind: EntityKind::Weapon,
                sub_kind: EntitySubKind::Shovel,
                level: 0,
                length: 21900,
                width: 5133,
                radius: 11246,
                lifespan: 0,
                npc: false,
            },
            EntityType::Essm => EntityData {
                kind: EntityKind::Weapon,
                sub_kind: EntitySubKind::Sam,
                level: 4,
                length: 3660,
                width: 458,
                radius: 1844,
                lifespan: 0,
                npc: false,
            },
            EntityType::Exocet => EntityData {
                kind: EntityKind::Weapon,
                sub_kind: EntitySubKind::Missile,
                level: 5,
                length: 6000,
                width: 938,
                radius: 3036,
                lifespan: 0,
                npc: false,
            },
            EntityType::Harpoon => EntityData {
                kind: EntityKind::Weapon,
                sub_kind: EntitySubKind::Missile,
                level: 4,
                length: 3800,
                width: 594,
                radius: 1923,
                lifespan: 0,
                npc: false,
            },
            EntityType::Hq9 => EntityData {
                kind: EntityKind::Weapon,
                sub_kind: EntitySubKind::Sam,
                level: 4,
                length: 6800,
                width: 956,
                radius: 3433,
                lifespan: 0,
                npc: false,
            },
            EntityType::Igla => EntityData {
                kind: EntityKind::Weapon,
                sub_kind: EntitySubKind::Sam,
                level: 4,
                length: 1574,
                width: 160,
                radius: 791,
                lifespan: 0,
                npc: false,
            },
            EntityType::Kalibr => EntityData {
                kind: EntityKind::Weapon,
                sub_kind: EntitySubKind::Missile,
                level: 4,
                length: 8100,
                width: 4113,
                radius: 4542,
                lifespan: 0,
                npc: false,
            },
            EntityType::Lrlap => EntityData {
                kind: EntityKind::Weapon,
                sub_kind: EntitySubKind::Shell,
                level: 0,
                length: 2300,
                width: 288,
                radius: 1158,
                lifespan: 0,
                npc: false,
            },
            EntityType::Magic => EntityData {
                kind: EntityKind::Weapon,
                sub_kind: EntitySubKind::Sam,
                level: 5,
                length: 2720,
                width: 500,
                radius: 1382,
                lifespan: 0,
                npc: false,
            },
            EntityType::Mark18 => EntityData {
                kind: EntityKind::Weapon,
                sub_kind: EntitySubKind::Torpedo,
                level: 1,
                length: 6200,
                width: 533,
                radius: 3111,
                lifespan: 0,
                npc: false,
            },
            EntityType::Mark48 => EntityData {
                kind: EntityKind::Weapon,
                sub_kind: EntitySubKind::Torpedo,
                level: 4,
                length: 5800,
                width: 533,
                radius: 2912,
                lifespan: 0,
                npc: false,
            },
            EntityType::Mark54 => EntityData {
                kind: EntityKind::Weapon,
                sub_kind: EntitySubKind::Torpedo,
                level: 4,
                length: 2720,
                width: 324,
                radius: 1369,
                lifespan: 0,
                npc: false,
            },
            EntityType::Yu7 => EntityData {
                kind: EntityKind::Weapon,
                sub_kind: EntitySubKind::Torpedo,
                level: 7,
                length: 2720,
                width: 324,
                radius: 1369,
                lifespan: 0,
                npc: false,
            },
            EntityType::Mark8 => EntityData {
                kind: EntityKind::Weapon,
                sub_kind: EntitySubKind::Shell,
                level: 0,
                length: 1626,
                width: 406,
                radius: 837,
                lifespan: 0,
                npc: false,
            },
            EntityType::Mark9 => EntityData {
                kind: EntityKind::Weapon,
                sub_kind: EntitySubKind::DepthCharge,
                level: 1,
                length: 448,
                width: 702,
                radius: 416,
                lifespan: 50,
                npc: false,
            },
            EntityType::Mistral => EntityData {
                kind: EntityKind::Weapon,
                sub_kind: EntitySubKind::Sam,
                level: 6,
                length: 1860,
                width: 182,
                radius: 934,
                lifespan: 0,
                npc: false,
            },
            EntityType::Nsm => EntityData {
                kind: EntityKind::Weapon,
                sub_kind: EntitySubKind::Missile,
                level: 5,
                length: 3950,
                width: 1049,
                radius: 2043,
                lifespan: 0,
                npc: false,
            },
            EntityType::Of45 => EntityData {
                kind: EntityKind::Weapon,
                sub_kind: EntitySubKind::Rocket,
                level: 2,
                length: 1125,
                width: 299,
                radius: 582,
                lifespan: 0,
                npc: false,
            },
            EntityType::RP3 => EntityData {
                kind: EntityKind::Weapon,
                sub_kind: EntitySubKind::Rocket,
                level: 7,
                length: 1400,
                width: 80,
                radius: 701,
                lifespan: 0,
                npc: false,
            },
            EntityType::P15 => EntityData {
                kind: EntityKind::Weapon,
                sub_kind: EntitySubKind::Missile,
                level: 3,
                length: 5800,
                width: 2084,
                radius: 3081,
                lifespan: 0,
                npc: false,
            },
            EntityType::P700 => EntityData {
                kind: EntityKind::Weapon,
                sub_kind: EntitySubKind::Missile,
                level: 4,
                length: 10000,
                width: 2969,
                radius: 5215,
                lifespan: 0,
                npc: false,
            },
            EntityType::Rbs15 => EntityData {
                kind: EntityKind::Weapon,
                sub_kind: EntitySubKind::Missile,
                level: 3,
                length: 4330,
                width: 1252,
                radius: 2253,
                lifespan: 0,
                npc: false,
            },
            EntityType::Rim116 => EntityData {
                kind: EntityKind::Weapon,
                sub_kind: EntitySubKind::Sam,
                level: 4,
                length: 2790,
                width: 305,
                radius: 1403,
                lifespan: 0,
                npc: false,
            },
            EntityType::Rpk6 => EntityData {
                kind: EntityKind::Weapon,
                sub_kind: EntitySubKind::RocketTorpedo,
                level: 6,
                length: 6500,
                width: 533,
                radius: 3260,
                lifespan: 0,
                npc: false,
            },
            EntityType::S300 => EntityData {
                kind: EntityKind::Weapon,
                sub_kind: EntitySubKind::Sam,
                level: 5,
                length: 6600,
                width: 1031,
                radius: 3340,
                lifespan: 0,
                npc: false,
            },
            EntityType::Set65 => EntityData {
                kind: EntityKind::Weapon,
                sub_kind: EntitySubKind::Torpedo,
                level: 3,
                length: 7900,
                width: 533,
                radius: 3958,
                lifespan: 0,
                npc: false,
            },
            EntityType::Tomahawk => EntityData {
                kind: EntityKind::Weapon,
                sub_kind: EntitySubKind::Missile,
                level: 5,
                length: 5560,
                width: 2606,
                radius: 3070,
                lifespan: 0,
                npc: false,
            },
            EntityType::Torped45 => EntityData {
                kind: EntityKind::Weapon,
                sub_kind: EntitySubKind::Torpedo,
                level: 4,
                length: 2850,
                width: 400,
                radius: 1438,
                lifespan: 0,
                npc: false,
            },
            EntityType::Type53 => EntityData {
                kind: EntityKind::Weapon,
                sub_kind: EntitySubKind::Torpedo,
                level: 1,
                length: 7200,
                width: 533,
                radius: 3609,
                lifespan: 0,
                npc: false,
            },
            EntityType::V611 => EntityData {
                kind: EntityKind::Weapon,
                sub_kind: EntitySubKind::Sam,
                level: 4,
                length: 6150,
                width: 1345,
                radius: 3147,
                lifespan: 0,
                npc: false,
            },
            EntityType::Vt1 => EntityData {
                kind: EntityKind::Weapon,
                sub_kind: EntitySubKind::Sam,
                level: 5,
                length: 2350,
                width: 340,
                radius: 1187,
                lifespan: 0,
                npc: false,
            },
            EntityType::Hq10SAM => EntityData {
                kind: EntityKind::Weapon,
                sub_kind: EntitySubKind::Sam,
                level: 5,
                length: 2000,
                width: 120,
                radius: 1001,
                lifespan: 0,
                npc: false,
            },
            EntityType::Ls6 => EntityData {
                kind: EntityKind::Weapon,
                sub_kind: EntitySubKind::GlideBomb,
                level: 10,
                length: 2140,
                width: 1280,
                radius: 1246,
                lifespan: 0,
                npc: false,
            },
            EntityType::Wz0839 => EntityData {
                kind: EntityKind::Weapon,
                sub_kind: EntitySubKind::Mine,
                level: 3,
                length: 2000,
                width: 2600,
                radius: 1640,
                lifespan: 3000,
                npc: false,
            },
            EntityType::Type96Bomb => EntityData {
                kind: EntityKind::Weapon,
                sub_kind: EntitySubKind::Mine,
                level: 3,
                length: 1000,
                width: 1500,
                radius: 901,
                lifespan: 150,
                npc: false,
            },
            EntityType::Mk82 => EntityData {
                kind: EntityKind::Weapon,
                sub_kind: EntitySubKind::Mine,
                level: 10,
                length: 2220,
                width: 273,
                radius: 1118,
                lifespan: 200,
                npc: false,
            },
            EntityType::Yj18 => EntityData {
                kind: EntityKind::Weapon,
                sub_kind: EntitySubKind::Missile,
                level: 5,
                length: 8100,
                width: 4113,
                radius: 4542,
                lifespan: 0,
                npc: false,
            },
        }
    }

    /// The stable position of this type in the catalog; it is the binary wire form.
    pub open spec fn ordinal(self) -> int {
        match self {
            EntityType::Abrams => 0,
            EntityType::Avenger => 1,
            EntityType::J15 => 2,
            EntityType::E4N => 3,
            EntityType::TieFighter => 4,
            EntityType::Harbin => 5,
            EntityType::Ka25 => 6,
            EntityType::Kingfisher => 7,
            EntityType::Seahawk => 8,
            EntityType::Type96 => 9,
            EntityType::SuperEtendard => 10,
            EntityType::SuperFrelon => 11,
            EntityType::Z18 => 12,
            EntityType::Akula => 13,
            EntityType::Apache => 14,
            EntityType::ArleighBurke => 15,
            EntityType::Bismarck => 16,
            EntityType::Buyan => 17,
            EntityType::B2 => 18,
            EntityType::Clemenceau => 19,
            EntityType::Kaga => 20,
            EntityType::Liaoning => 21,
            EntityType::Chinook => 22,
            EntityType::Catalina => 23,
            EntityType::Spitfire => 24,
            EntityType::J20 => 25,
            EntityType::F35 => 26,
            EntityType::Dreadnought => 27,
            EntityType::Dredger => 28,
            EntityType::Drone => 29,
            EntityType::Espana => 30,
            EntityType::Ekranoplan => 31,
            EntityType::Essex => 32,
            EntityType::FairmileD => 33,
            EntityType::Fletcher => 34,
            EntityType::Freccia => 35,
            EntityType::Freedom => 36,
            EntityType::G5 => 37,
            EntityType::Golf => 38,
            EntityType::Indiaman => 39,
            EntityType::Iowa => 40,
            EntityType::Kirov => 41,
            EntityType::Kolkata => 42,
            EntityType::Komar => 43,
            EntityType::Leander => 44,
            EntityType::Lublin => 45,
            EntityType::Momi => 46,
            EntityType::Montana => 47,
            EntityType::Moskva => 48,
            EntityType::Oberon => 49,
            EntityType::Ohio => 50,
            EntityType::Olympias => 51,
            EntityType::Osa => 52,
            EntityType::Pt34 => 53,
            EntityType::Seawolf => 54,
            EntityType::Skipjack => 55,
            EntityType::Skjold => 56,
            EntityType::Sherman => 57,
            EntityType::StarDestroyer => 58,
            EntityType::Tanker => 59,
            EntityType::TerryFox => 60,
            EntityType::Town => 61,
            EntityType::Type055 => 62,
            EntityType::TypeViic => 63,
            EntityType::Ticonderoga => 64,
            EntityType::Titanic => 65,
            EntityType::Uap => 66,
            EntityType::Vindicator => 67,
            EntityType::Visby => 68,
            EntityType::Virginia => 69,
            EntityType::Xwing => 70,
            EntityType::Yamato => 71,
            EntityType::Yasen => 72,
            EntityType::Zubr => 73,
            EntityType::Lst => 74,
            EntityType::Zudredger => 75,
            EntityType::Zumwalt => 76,
            EntityType::Barrel => 77,
            EntityType::Coin => 78,
            EntityType::Crate => 79,
            EntityType::Scrap => 80,
            EntityType::Brosok => 81,
            EntityType::Mk70 => 82,
            EntityType::Mk3 => 83,
            EntityType::Moskit => 84,
            EntityType::Jagm => 85,
            EntityType::Acacia => 86,
            EntityType::AverageTree => 87,
            EntityType::Palm => 88,
            EntityType::Hq => 89,
            EntityType::OilPlatform => 90,
            EntityType::SuperOilPlatform => 91,
            EntityType::M230 => 92,
            EntityType::Type730 => 93,
            EntityType::Turbolaser => 94,
            EntityType::ShermanTurret => 95,
            EntityType::AbramsTurret => 96,
            EntityType::_100Mm => 97,
            EntityType::_200Mm => 98,
            EntityType::_2M3M => 99,
            EntityType::_38CmSkc34 => 100,
            EntityType::_45Type94 => 101,
            EntityType::_6Pounder => 102,
            EntityType::_88CmSkc35 => 103,
            EntityType::_M1919 => 104,
            EntityType::A190 => 105,
            EntityType::Ak130 => 106,
            EntityType::Ansaldo => 107,
            EntityType::Bl6MkXxiii => 108,
            EntityType::Bl6MkXxiiiX3 => 109,
            EntityType::Bofors57MmMk3 => 110,
            EntityType::Crotale => 111,
            EntityType::Hq10 => 112,
            EntityType::Hpj38 => 113,
            EntityType::Mark12 => 114,
            EntityType::Mark12X2 => 115,
            EntityType::Mark49 => 116,
            EntityType::Mark51 => 117,
            EntityType::Mark7 => 118,
            EntityType::MarkBViii => 119,
            EntityType::Ogon => 120,
            EntityType::OtoMelara76Mm => 121,
            EntityType::RatepKomar => 122,
            EntityType::Shtorm => 123,
            EntityType::VickersMkH12In => 124,
            EntityType::Blaster => 125,
            EntityType::GreenBlaster => 126,
            EntityType::VBlaster => 127,
            EntityType::VProjector => 128,
            EntityType::VMissiles => 129,
            EntityType::_30X130MmR => 130,
            EntityType::_30X165MmR => 131,
            EntityType::_762X54MmR => 132,
            EntityType::_200X1070MmR => 133,
            EntityType::_127X680MmR => 134,
            EntityType::_130X720MmR => 135,
            EntityType::_75X667MmR => 136,
            EntityType::_120X570MmR => 137,
            EntityType::_25X129MmR => 138,
            EntityType::_300X1400MmR => 139,
            EntityType::_380X1700MmR => 140,
            EntityType::_458X1980MmR => 141,
            EntityType::_57X441MmR => 142,
            EntityType::_76X636MmR => 143,
            EntityType::_82R => 144,
            EntityType::Asroc => 145,
            EntityType::Barak8 => 146,
            EntityType::Pl12 => 147,
            EntityType::BrahMos => 148,
            EntityType::Hellfire => 149,
            EntityType::CannonBall => 150,
            EntityType::Depositor => 151,
            EntityType::Shovel => 152,
            EntityType::Essm => 153,
            EntityType::Exocet => 154,
            EntityType::Harpoon => 155,
            EntityType::Hq9 => 156,
            EntityType::Igla => 157,
            EntityType::Kalibr => 158,
            EntityType::Lrlap => 159,
            EntityType::Magic => 160,
            EntityType::Mark18 => 161,
            EntityType::Mark48 => 162,
            EntityType::Mark54 => 163,
            EntityType::Yu7 => 164,
            EntityType::Mark8 => 165,
            EntityType::Mark9 => 166,
            EntityType::Mistral => 167,
            EntityType::Nsm => 168,
            EntityType::Of45 => 169,
            EntityType::RP3 => 170,
            EntityType::P15 => 171,
            EntityType::P700 => 172,
            EntityType::Rbs15 => 173,
            EntityType::Rim116 => 174,
            EntityType::Rpk6 => 175,
            EntityType::S300 => 176,
            EntityType::Set65 => 177,
            EntityType::Tomahawk => 178,
            EntityType::Torped45 => 179,
            EntityType::Type53 => 180,
            EntityType::V611 => 181,
            EntityType::Vt1 => 182,
            EntityType::Hq10SAM => 183,
            EntityType::Ls6 => 184,
            EntityType::Wz0839 => 185,
            EntityType::Type96Bomb => 186,
            EntityType::Mk82 => 187,
            EntityType::Yj18 => 188,
        }
    }

    /// Encodes this type as its ordinal.
    pub fn to_u8(self) -> (r: u8)
        ensures
            r as int == self.ordinal(),
    {
        match self {
            EntityType::Abrams => 0,
            EntityType::Avenger => 1,
            EntityType::J15 => 2,
            EntityType::E4N => 3,
            EntityType::TieFighter => 4,
            EntityType::Harbin => 5,
            EntityType::Ka25 => 6,
            EntityType::Kingfisher => 7,
            EntityType::Seahawk => 8,
            EntityType::Type96 => 9,
            EntityType::SuperEtendard => 10,
            EntityType::SuperFrelon => 11,
            EntityType::Z18 => 12,
            EntityType::Akula => 13,
            EntityType::Apache => 14,
            EntityType::ArleighBurke => 15,
            EntityType::Bismarck => 16,
            EntityType::Buyan => 17,
            EntityType::B2 => 18,
            EntityType::Clemenceau => 19,
            EntityType::Kaga => 20,
            EntityType::Liaoning => 21,
            EntityType::Chinook => 22,
            EntityType::Catalina => 23,
            EntityType::Spitfire => 24,
            EntityType::J20 => 25,
            EntityType::F35 => 26,
            EntityType::Dreadnought => 27,
            EntityType::Dredger => 28,
            EntityType::Drone => 29,
            EntityType::Espana => 30,
            EntityType::Ekranoplan => 31,
            EntityType::Essex => 32,
            EntityType::FairmileD => 33,
            EntityType::Fletcher => 34,
            EntityType::Freccia => 35,
            EntityType::Freedom => 36,
            EntityType::G5 => 37,
            EntityType::Golf => 38,
            EntityType::Indiaman => 39,
            EntityType::Iowa => 40,
            EntityType::Kirov => 41,
            EntityType::Kolkata => 42,
            EntityType::Komar => 43,
            EntityType::Leander => 44,
            EntityType::Lublin => 45,
            EntityType::Momi => 46,
            EntityType::Montana => 47,
            EntityType::Moskva => 48,
            EntityType::Oberon => 49,
            EntityType::Ohio => 50,
            EntityType::Olympias => 51,
            EntityType::Osa => 52,
            EntityType::Pt34 => 53,
            EntityType::Seawolf => 54,
            EntityType::Skipjack => 55,
            EntityType::Skjold => 56,
            EntityType::Sherman => 57,
            EntityType::StarDestroyer => 58,
            EntityType::Tanker => 59,
            EntityType::TerryFox => 60,
            EntityType::Town => 61,
            EntityType::Type055 => 62,
            EntityType::TypeViic => 63,
            EntityType::Ticonderoga => 64,
            EntityType::Titanic => 65,
            EntityType::Uap => 66,
            EntityType::Vindicator => 67,
            EntityType::Visby => 68,
            EntityType::Virginia => 69,
            EntityType::Xwing => 70,
            EntityType::Yamato => 71,
            EntityType::Yasen => 72,
            EntityType::Zubr => 73,
            EntityType::Lst => 74,
            EntityType::Zudredger => 75,
            EntityType::Zumwalt => 76,
            EntityType::Barrel => 77,
            EntityType::Coin => 78,
            EntityType::Crate => 79,
            EntityType::Scrap => 80,
            EntityType::Brosok => 81,
            EntityType::Mk70 => 82,
            EntityType::Mk3 => 83,
            EntityType::Moskit => 84,
            EntityType::Jagm => 85,
            EntityType::Acacia => 86,
            EntityType::AverageTree => 87,
            EntityType::Palm => 88,
            EntityType::Hq => 89,
            EntityType::OilPlatform => 90,
            EntityType::SuperOilPlatform => 91,
            EntityType::M230 => 92,
            EntityType::Type730 => 93,
            EntityType::Turbolaser => 94,
            EntityType::ShermanTurret => 95,
            EntityType::AbramsTurret => 96,
            EntityType::_100Mm => 97,
            EntityType::_200Mm => 98,
            EntityType::_2M3M => 99,
            EntityType::_38CmSkc34 => 100,
            EntityType::_45Type94 => 101,
            EntityType::_6Pounder => 102,
            EntityType::_88CmSkc35 => 103,
            EntityType::_M1919 => 104,
            EntityType::A190 => 105,
            EntityType::Ak130 => 106,
            EntityType::Ansaldo => 107,
            EntityType::Bl6MkXxiii => 108,
            EntityType::Bl6MkXxiiiX3 => 109,
            EntityType::Bofors57MmMk3 => 110,
            EntityType::Crotale => 111,
            EntityType::Hq10 => 112,
            EntityType::Hpj38 => 113,
            EntityType::Mark12 => 114,
            EntityType::Mark12X2 => 115,
            EntityType::Mark49 => 116,
            EntityType::Mark51 => 117,
            EntityType::Mark7 => 118,
            EntityType::MarkBViii => 119,
            EntityType::Ogon => 120,
            EntityType::OtoMelara76Mm => 121,
            EntityType::RatepKomar => 122,
            EntityType::Shtorm => 123,
            EntityType::VickersMkH12In => 124,
            EntityType::Blaster => 125,
            EntityType::GreenBlaster => 126,
            EntityType::VBlaster => 127,
            EntityType::VProjector => 128,
            EntityType::VMissiles => 129,
            EntityType::_30X130MmR => 130,
            EntityType::_30X165MmR => 131,
            EntityType::_762X54MmR => 132,
            EntityType::_200X1070MmR => 133,
            EntityType::_127X680MmR => 134,
            EntityType::_130X720MmR => 135,
            EntityType::_75X667MmR => 136,
            EntityType::_120X570MmR => 137,
            EntityType::_25X129MmR => 138,
            EntityType::_300X1400MmR => 139,
            EntityType::_380X1700MmR => 140,
            EntityType::_458X1980MmR => 141,
            EntityType::_57X441MmR => 142,
            EntityType::_76X636MmR => 143,
            EntityType::_82R => 144,
            EntityType::Asroc => 145,
            EntityType::Barak8 => 146,
            EntityType::Pl12 => 147,
            EntityType::BrahMos => 148,
            EntityType::Hellfire => 149,
            EntityType::CannonBall => 150,
            EntityType::Depositor => 151,
            EntityType::Shovel => 152,
            EntityType::Essm => 153,
            EntityType::Exocet => 154,
            EntityType::Harpoon => 155,
            EntityType::Hq9 => 156,
            EntityType::Igla => 157,
            EntityType::Kalibr => 158,
            EntityType::Lrlap => 159,
            EntityType::Magic => 160,
            EntityType::Mark18 => 161,
            EntityType::Mark48 => 162,
            EntityType::Mark54 => 163,
            EntityType::Yu7 => 164,
            EntityType::Mark8 => 165,
            EntityType::Mark9 => 166,
            EntityType::Mistral => 167,
            EntityType::Nsm => 168,
            EntityType::Of45 => 169,
            EntityType::RP3 => 170,
            EntityType::P15 => 171,
            EntityType::P700 => 172,
            EntityType::Rbs15 => 173,
            EntityType::Rim116 => 174,
            EntityType::Rpk6 => 175,
            EntityType::S300 => 176,
            EntityType::Set65 => 177,
            EntityType::Tomahawk => 178,
            EntityType::Torped45 => 179,
            EntityType::Type53 => 180,
            EntityType::V611 => 181,
            EntityType::Vt1 => 182,
            EntityType::Hq10SAM => 183,
            EntityType::Ls6 => 184,
            EntityType::Wz0839 => 185,
            EntityType::Type96Bomb => 186,
            EntityType::Mk82 => 187,
            EntityType::Yj18 => 188,
        }
    }

    /// The type whose ordinal is `n`, if there is one.
    pub open spec fn spec_from_u8(n: u8) -> Option<EntityType> {
        match n {
            0 => Some(EntityType::Abrams),
            1 => Some(EntityType::Avenger),
            2 => Some(EntityType::J15),
            3 => Some(EntityType::E4N),
            4 => Some(EntityType::TieFighter),
            5 => Some(EntityType::Harbin),
            6 => Some(EntityType::Ka25),
            7 => Some(EntityType::Kingfisher),
            8 => Some(EntityType::Seahawk),
            9 => Some(EntityType::Type96),
            10 => Some(EntityType::SuperEtendard),
            11 => Some(EntityType::SuperFrelon),
            12 => Some(EntityType::Z18),
            13 => Some(EntityType::Akula),
            14 => Some(EntityType::Apache),
            15 => Some(EntityType::ArleighBurke),
            16 => Some(EntityType::Bismarck),
            17 => Some(EntityType::Buyan),
            18 => Some(EntityType::B2),
            19 => Some(EntityType::Clemenceau),
            20 => Some(EntityType::Kaga),
            21 => Some(EntityType::Liaoning),
            22 => Some(EntityType::Chinook),
            23 => Some(EntityType::Catalina),
            24 => Some(EntityType::Spitfire),
            25 => Some(EntityType::J20),
            26 => Some(EntityType::F35),
            27 => Some(EntityType::Dreadnought),
            28 => Some(EntityType::Dredger),
            29 => Some(EntityType::Drone),
            30 => Some(EntityType::Espana),
            31 => Some(EntityType::Ekranoplan),
            32 => Some(EntityType::Essex),
            33 => Some(EntityType::FairmileD),
            34 => Some(EntityType::Fletcher),
            35 => Some(EntityType::Freccia),
            36 => Some(EntityType::Freedom),
            37 => Some(EntityType::G5),
            38 => Some(EntityType::Golf),
            39 => Some(EntityType::Indiaman),
            40 => Some(EntityType::Iowa),
            41 => Some(EntityType::Kirov),
            42 => Some(EntityType::Kolkata),
            43 => Some(EntityType::Komar),
            44 => Some(EntityType::Leander),
            45 => Some(EntityType::Lublin),
            46 => Some(EntityType::Momi),
            47 => Some(EntityType::Montana),
            48 => Some(EntityType::Moskva),
            49 => Some(EntityType::Oberon),
            50 => Some(EntityType::Ohio),
            51 => Some(EntityType::Olympias),
            52 => Some(EntityType::Osa),
            53 => Some(EntityType::Pt34),
            54 => Some(EntityType::Seawolf),
            55 => Some(EntityType::Skipjack),
            56 => Some(EntityType::Skjold),
            57 => Some(EntityType::Sherman),
            58 => Some(EntityType::StarDestroyer),
            59 => Some(EntityType::Tanker),
            60 => Some(EntityType::TerryFox),
            61 => Some(EntityType::Town),
            62 => Some(EntityType::Type055),
            63 => Some(EntityType::TypeViic),
            64 => Some(EntityType::Ticonderoga),
            65 => Some(EntityType::Titanic),
            66 => Some(EntityType::Uap),
            67 => Some(EntityType::Vindicator),
            68 => Some(EntityType::Visby),
            69 => Some(EntityType::Virginia),
            70 => Some(EntityType::Xwing),
            71 => Some(EntityType::Yamato),
            72 => Some(EntityType::Yasen),
            73 => Some(EntityType::Zubr),
            74 => Some(EntityType::Lst),
            75 => Some(EntityType::Zudredger),
            76 => Some(EntityType::Zumwalt),
            77 => Some(EntityType::Barrel),
            78 => Some(EntityType::Coin),
            79 => Some(EntityType::Crate),
            80 => Some(EntityType::Scrap),
            81 => Some(EntityType::Brosok),
            82 => Some(EntityType::Mk70),
            83 => Some(EntityType::Mk3),
            84 => Some(EntityType::Moskit),
            85 => Some(EntityType::Jagm),
            86 => Some(EntityType::Acacia),
            87 => Some(EntityType::AverageTree),
            88 => Some(EntityType::Palm),
            89 => Some(EntityType::Hq),
            90 => Some(EntityType::OilPlatform),
            91 => Some(EntityType::SuperOilPlatform),
            92 => Some(EntityType::M230),
            93 => Some(EntityType::Type730),
            94 => Some(EntityType::Turbolaser),
            95 => Some(EntityType::ShermanTurret),
            96 => Some(EntityType::AbramsTurret),
            97 => Some(EntityType::_100Mm),
            98 => Some(EntityType::_200Mm),
            99 => Some(EntityType::_2M3M),
            100 => Some(EntityType::_38CmSkc34),
            101 => Some(EntityType::_45Type94),
            102 => Some(EntityType::_6Pounder),
            103 => Some(EntityType::_88CmSkc35),
            104 => Some(EntityType::_M1919),
            105 => Some(EntityType::A190),
            106 => Some(EntityType::Ak130),
            107 => Some(EntityType::Ansaldo),
            108 => Some(EntityType::Bl6MkXxiii),
            109 => Some(EntityType::Bl6MkXxiiiX3),
            110 => Some(EntityType::Bofors57MmMk3),
            111 => Some(EntityType::Crotale),
            112 => Some(EntityType::Hq10),
            113 => Some(EntityType::Hpj38),
            114 => Some(EntityType::Mark12),
            115 => Some(EntityType::Mark12X2),
            116 => Some(EntityType::Mark49),
            117 => Some(EntityType::Mark51),
            118 => Some(EntityType::Mark7),
            119 => Some(EntityType::MarkBViii),
            120 => Some(EntityType::Ogon),
            121 => Some(EntityType::OtoMelara76Mm),
            122 => Some(EntityType::RatepKomar),
            123 => Some(EntityType::Shtorm),
            124 => Some(EntityType::VickersMkH12In),
            125 => Some(EntityType::Blaster),
            126 => Some(EntityType::GreenBlaster),
            127 => Some(EntityType::VBlaster),
            128 => Some(EntityType::VProjector),
            129 => Some(EntityType::VMissiles),
            130 => Some(EntityType::_30X130MmR),
            131 => Some(EntityType::_30X165MmR),
            132 => Some(EntityType::_762X54MmR),
            133 => Some(EntityType::_200X1070MmR),
            134 => Some(EntityType::_127X680MmR),
            135 => Some(EntityType::_130X720MmR),
            136 => Some(EntityType::_75X667MmR),
            137 => Some(EntityType::_120X570MmR),
            138 => Some(EntityType::_25X129MmR),
            139 => Some(EntityType::_300X1400MmR),
            140 => Some(EntityType::_380X1700MmR),
            141 => Some(EntityType::_458X1980MmR),
            142 => Some(EntityType::_57X441MmR),
            143 => Some(EntityType::_76X636MmR),
            144 => Some(EntityType::_82R),
            145 => Some(EntityType::Asroc),
            146 => Some(EntityType::Barak8),
            147 => Some(EntityType::Pl12),
            148 => Some(EntityType::BrahMos),
            149 => Some(EntityType::Hellfire),
            150 => Some(EntityType::CannonBall),
            151 => Some(EntityType::Depositor),
            152 => Some(EntityType::Shovel),
            153 => Some(EntityType::Essm),
            154 => Some(EntityType::Exocet),
            155 => Some(EntityType::Harpoon),
            156 => Some(EntityType::Hq9),
            157 => Some(EntityType::Igla),
            158 => Some(EntityType::Kalibr),
            159 => Some(EntityType::Lrlap),
            160 => Some(EntityType::Magic),
            161 => Some(EntityType::Mark18),
            162 => Some(EntityType::Mark48),
            163 => Some(EntityType::Mark54),
            164 => Some(EntityType::Yu7),
            165 => Some(EntityType::Mark8),
            166 => Some(EntityType::Mark9),
            167 => Some(EntityType::Mistral),
            168 => Some(EntityType::Nsm),
            169 => Some(EntityType::Of45),
            170 => Some(EntityType::RP3),
            171 => Some(EntityType::P15),
            172 => Some(EntityType::P700),
            173 => Some(EntityType::Rbs15),
            174 => Some(EntityType::Rim116),
            175 => Some(EntityType::Rpk6),
            176 => Some(EntityType::S300),
            177 => Some(EntityType::Set65),
            178 => Some(EntityType::Tomahawk),
            179 => Some(EntityType::Torped45),
            180 => Some(EntityType::Type53),
            181 => Some(EntityType::V611),
            182 => Some(EntityType::Vt1),
            183 => Some(EntityType::Hq10SAM),
            184 => Some(EntityType::Ls6),
            185 => Some(EntityType::Wz0839),
            186 => Some(EntityType::Type96Bomb),
            187 => Some(EntityType::Mk82),
            188 => Some(EntityType::Yj18),
            _ => None,
        }
    }

    /// Decodes a type from its ordinal.
    pub fn from_u8(n: u8) -> (r: Option<EntityType>)
        ensures
            r == EntityType::spec_from_u8(n),
    {
        match n {
            0 => Some(EntityType::Abrams),
            1 => Some(EntityType::Avenger),
            2 => Some(EntityType::J15),
            3 => Some(EntityType::E4N),
            4 => Some(EntityType::TieFighter),
            5 => Some(EntityType::Harbin),
            6 => Some(EntityType::Ka25),
            7 => Some(EntityType::Kingfisher),
            8 => Some(EntityType::Seahawk),
            9 => Some(EntityType::Type96),
            10 => Some(EntityType::SuperEtendard),
            11 => Some(EntityType::SuperFrelon),
            12 => Some(EntityType::Z18),
            13 => Some(EntityType::Akula),
            14 => Some(EntityType::Apache),
            15 => Some(EntityType::ArleighBurke),
            16 => Some(EntityType::Bismarck),
            17 => Some(EntityType::Buyan),
            18 => Some(EntityType::B2),
            19 => Some(EntityType::Clemenceau),
            20 => Some(EntityType::Kaga),
            21 => Some(EntityType::Liaoning),
            22 => Some(EntityType::Chinook),
            23 => Some(EntityType::Catalina),
            24 => Some(EntityType::Spitfire),
            25 => Some(EntityType::J20),
            26 => Some(EntityType::F35),
            27 => Some(EntityType::Dreadnought),
            28 => Some(EntityType::Dredger),
            29 => Some(EntityType::Drone),
            30 => Some(EntityType::Espana),
            31 => Some(EntityType::Ekranoplan),
            32 => Some(EntityType::Essex),
            33 => Some(EntityType::FairmileD),
            34 => Some(EntityType::Fletcher),
            35 => Some(EntityType::Freccia),
            36 => Some(EntityType::Freedom),
            37 => Some(EntityType::G5),
            38 => Some(EntityType::Golf),
            39 => Some(EntityType::Indiaman),
            40 => Some(EntityType::Iowa),
            41 => Some(EntityType::Kirov),
            42 => Some(EntityType::Kolkata),
            43 => Some(EntityType::Komar),
            44 => Some(EntityType::Leander),
            45 => Some(EntityType::Lublin),
            46 => Some(EntityType::Momi),
            47 => Some(EntityType::Montana),
            48 => Some(EntityType::Moskva),
            49 => Some(EntityType::Oberon),
            50 => Some(EntityType::Ohio),
            51 => Some(EntityType::Olympias),
            52 => Some(EntityType::Osa),
            53 => Some(EntityType::Pt34),
            54 => Some(EntityType::Seawolf),
            55 => Some(EntityType::Skipjack),
            56 => Some(EntityType::Skjold),
            57 => Some(EntityType::Sherman),
            58 => Some(EntityType::StarDestroyer),
            59 => Some(EntityType::Tanker),
            60 => Some(EntityType::TerryFox),
            61 => Some(EntityType::Town),
            62 => Some(EntityType::Type055),
            63 => Some(EntityType::TypeViic),
            64 => Some(EntityType::Ticonderoga),
            65 => Some(EntityType::Titanic),
            66 => Some(EntityType::Uap),
            67 => Some(EntityType::Vindicator),
            68 => Some(EntityType::Visby),
            69 => Some(EntityType::Virginia),
            70 => Some(EntityType::Xwing),
            71 => Some(EntityType::Yamato),
            72 => Some(EntityType::Yasen),
            73 => Some(EntityType::Zubr),
            74 => Some(EntityType::Lst),
            75 => Some(EntityType::Zudredger),
            76 => Some(EntityType::Zumwalt),
            77 => Some(EntityType::Barrel),
            78 => Some(EntityType::Coin),
            79 => Some(EntityType::Crate),
            80 => Some(EntityType::Scrap),
            81 => Some(EntityType::Brosok),
            82 => Some(EntityType::Mk70),
            83 => Some(EntityType::Mk3),
            84 => Some(EntityType::Moskit),
            85 => Some(EntityType::Jagm),
            86 => Some(EntityType::Acacia),
            87 => Some(EntityType::AverageTree),
            88 => Some(EntityType::Palm),
            89 => Some(EntityType::Hq),
            90 => Some(EntityType::OilPlatform),
            91 => Some(EntityType::SuperOilPlatform),
            92 => Some(EntityType::M230),
            93 => Some(EntityType::Type730),
            94 => Some(EntityType::Turbolaser),
            95 => Some(EntityType::ShermanTurret),
            96 => Some(EntityType::AbramsTurret),
            97 => Some(EntityType::_100Mm),
            98 => Some(EntityType::_200Mm),
            99 => Some(EntityType::_2M3M),
            100 => Some(EntityType::_38CmSkc34),
            101 => Some(EntityType::_45Type94),
            102 => Some(EntityType::_6Pounder),
            103 => Some(EntityType::_88CmSkc35),
            104 => Some(EntityType::_M1919),
            105 => Some(EntityType::A190),
            106 => Some(EntityType::Ak130),
            107 => Some(EntityType::Ansaldo),
            108 => Some(EntityType::Bl6MkXxiii),
            109 => Some(EntityType::Bl6MkXxiiiX3),
            110 => Some(EntityType::Bofors57MmMk3),
            111 => Some(EntityType::Crotale),
            112 => Some(EntityType::Hq10),
            113 => Some(EntityType::Hpj38),
            114 => Some(EntityType::Mark12),
            115 => Some(EntityType::Mark12X2),
            116 => Some(EntityType::Mark49),
            117 => Some(EntityType::Mark51),
            118 => Some(EntityType::Mark7),
            119 => Some(EntityType::MarkBViii),
            120 => Some(EntityType::Ogon),
            121 => Some(EntityType::OtoMelara76Mm),
            122 => Some(EntityType::RatepKomar),
            123 => Some(EntityType::Shtorm),
            124 => Some(EntityType::VickersMkH12In),
            125 => Some(EntityType::Blaster),
            126 => Some(EntityType::GreenBlaster),
            127 => Some(EntityType::VBlaster),
            128 => Some(EntityType::VProjector),
            129 => Some(EntityType::VMissiles),
            130 => Some(EntityType::_30X130MmR),
            131 => Some(EntityType::_30X165MmR),
            132 => Some(EntityType::_762X54MmR),
            133 => Some(EntityType::_200X1070MmR),
            134 => Some(EntityType::_127X680MmR),
            135 => Some(EntityType::_130X720MmR),
            136 => Some(EntityType::_75X667MmR),
            137 => Some(EntityType::_120X570MmR),
            138 => Some(EntityType::_25X129MmR),
            139 => Some(EntityType::_300X1400MmR),
            140 => Some(EntityType::_380X1700MmR),
            141 => Some(EntityType::_458X1980MmR),
            142 => Some(EntityType::_57X441MmR),
            143 => Some(EntityType::_76X636MmR),
            144 => Some(EntityType::_82R),
            145 => Some(EntityType::Asroc),
            146 => Some(EntityType::Barak8),
            147 => Some(EntityType::Pl12),
            148 => Some(EntityType::BrahMos),
            149 => Some(EntityType::Hellfire),
            150 => Some(EntityType::CannonBall),
            151 => Some(EntityType::Depositor),
            152 => Some(EntityType::Shovel),
            153 => Some(EntityType::Essm),
            154 => Some(EntityType::Exocet),
            155 => Some(EntityType::Harpoon),
            156 => Some(EntityType::Hq9),
            157 => Some(EntityType::Igla),
            158 => Some(EntityType::Kalibr),
            159 => Some(EntityType::Lrlap),
            160 => Some(EntityType::Magic),
            161 => Some(EntityType::Mark18),
            162 => Some(EntityType::Mark48),
            163 => Some(EntityType::Mark54),
            164 => Some(EntityType::Yu7),
            165 => Some(EntityType::Mark8),
            166 => Some(EntityType::Mark9),
            167 => Some(EntityType::Mistral),
            168 => Some(EntityType::Nsm),
            169 => Some(EntityType::Of45),
            170 => Some(EntityType::RP3),
            171 => Some(EntityType::P15),
            172 => Some(EntityType::P700),
            173 => Some(EntityType::Rbs15),
            174 => Some(EntityType::Rim116),
            175 => Some(EntityType::Rpk6),
            176 => Some(EntityType::S300),
            177 => Some(EntityType::Set65),
            178 => Some(EntityType::Tomahawk),
            179 => Some(EntityType::Torped45),
            180 => Some(EntityType::Type53),
            181 => Some(EntityType::V611),
            182 => Some(EntityType::Vt1),
            183 => Some(EntityType::Hq10SAM),
            184 => Some(EntityType::Ls6),
            185 => Some(EntityType::Wz0839),
            186 => Some(EntityType::Type96Bomb),
            187 => Some(EntityType::Mk82),
            188 => Some(EntityType::Yj18),
            _ => None,
        }
    }

    /// The stable short name of this type; it is the textual wire form.
    pub open spec fn name(self) -> Seq<char> {
        match self {
            EntityType::Abrams => "Abrams"@,
            EntityType::Avenger => "Avenger"@,
            EntityType::J15 => "J15"@,
            EntityType::E4N => "E4N"@,
            EntityType::TieFighter => "TieFighter"@,
            EntityType::Harbin => "Harbin"@,
            EntityType::Ka25 => "Ka25"@,
            EntityType::Kingfisher => "Kingfisher"@,
            EntityType::Seahawk => "Seahawk"@,
            EntityType::Type96 => "Type96"@,
            EntityType::SuperEtendard => "SuperEtendard"@,
            EntityType::SuperFrelon => "SuperFrelon"@,
            EntityType::Z18 => "Z18"@,
            EntityType::Akula => "Akula"@,
            EntityType::Apache => "Apache"@,
            EntityType::ArleighBurke => "ArleighBurke"@,
            EntityType::Bismarck => "Bismarck"@,
            EntityType::Buyan => "Buyan"@,
            EntityType::B2 => "B2"@,
            EntityType::Clemenceau => "Clemenceau"@,
            EntityType::Kaga => "Kaga"@,
            EntityType::Liaoning => "Liaoning"@,
            EntityType::Chinook => "Chinook"@,
            EntityType::Catalina => "Catalina"@,
            EntityType::Spitfire => "Spitfire"@,
            EntityType::J20 => "J20"@,
            EntityType::F35 => "F35"@,
            EntityType::Dreadnought => "Dreadnought"@,
            EntityType::Dredger => "Dredger"@,
            EntityType::Drone => "Drone"@,
            EntityType::Espana => "Espana"@,
            EntityType::Ekranoplan => "Ekranoplan"@,
            EntityType::Essex => "Essex"@,
            EntityType::FairmileD => "FairmileD"@,
            EntityType::Fletcher => "Fletcher"@,
            EntityType::Freccia => "Freccia"@,
            EntityType::Freedom => "Freedom"@,
            EntityType::G5 => "G5"@,
            EntityType::Golf => "Golf"@,
            EntityType::Indiaman => "Indiaman"@,
            EntityType::Iowa => "Iowa"@,
            EntityType::Kirov => "Kirov"@,
            EntityType::Kolkata => "Kolkata"@,
            EntityType::Komar => "Komar"@,
            EntityType::Leander => "Leander"@,
            EntityType::Lublin => "Lublin"@,
            EntityType::Momi => "Momi"@,
            EntityType::Montana => "Montana"@,
            EntityType::Moskva => "Moskva"@,
            EntityType::Oberon => "Oberon"@,
            EntityType::Ohio => "Ohio"@,
            EntityType::Olympias => "Olympias"@,
            EntityType::Osa => "Osa"@,
            EntityType::Pt34 => "Pt34"@,
            EntityType::Seawolf => "Seawolf"@,
            EntityType::Skipjack => "Skipjack"@,
            EntityType::Skjold => "Skjold"@,
            EntityType::Sherman => "Sherman"@,
            EntityType::StarDestroyer => "StarDestroyer"@,
            EntityType::Tanker => "Tanker"@,
            EntityType::TerryFox => "TerryFox"@,
            EntityType::Town => "Town"@,
            EntityType::Type055 => "Type055"@,
            EntityType::TypeViic => "TypeViic"@,
            EntityType::Ticonderoga => "Ticonderoga"@,
            EntityType::Titanic => "Titanic"@,
            EntityType::Uap => "Uap"@,
            EntityType::Vindicator => "Vindicator"@,
            EntityType::Visby => "Visby"@,
            EntityType::Virginia => "Virginia"@,
            EntityType::Xwing => "Xwing"@,
            EntityType::Yamato => "Yamato"@,
            EntityType::Yasen => "Yasen"@,
            EntityType::Zubr => "Zubr"@,
            EntityType::Lst => "Lst"@,
            EntityType::Zudredger => "Zudredger"@,
            EntityType::Zumwalt => "Zumwalt"@,
            EntityType::Barrel => "Barrel"@,
            EntityType::Coin => "Coin"@,
            EntityType::Crate => "Crate"@,
            EntityType::Scrap => "Scrap"@,
            EntityType::Brosok => "Brosok"@,
            EntityType::Mk70 => "Mk70"@,
            EntityType::Mk3 => "Mk3"@,
            EntityType::Moskit => "Moskit"@,
            EntityType::Jagm => "Jagm"@,
            EntityType::Acacia => "Acacia"@,
            EntityType::AverageTree => "AverageTree"@,
            EntityType::Palm => "Palm"@,
            EntityType::Hq => "Hq"@,
            EntityType::OilPlatform => "OilPlatform"@,
            EntityType::SuperOilPlatform => "SuperOilPlatform"@,
            EntityType::M230 => "M230"@,
            EntityType::Type730 => "Type730"@,
            EntityType::Turbolaser => "Turbolaser"@,
            EntityType::ShermanTurret => "ShermanTurret"@,
            EntityType::AbramsTurret => "AbramsTurret"@,
            EntityType::_100Mm => "OneZeroZeroMm"@,
            EntityType::_200Mm => "TwoZeroZeroMm"@,
            EntityType::_2M3M => "TwoM3M"@,
            EntityType::_38CmSkc34 => "ThreeEightCmSkc34"@,
            EntityType::_45Type94 => "FourFiveType94"@,
            EntityType::_6Pounder => "SixPounder"@,
            EntityType::_88CmSkc35 => "EightEightCmSkc35"@,
            EntityType::_M1919 => "M1919"@,
            EntityType::A190 => "A190"@,
            EntityType::Ak130 => "Ak130"@,
            EntityType::Ansaldo => "Ansaldo"@,
            EntityType::Bl6MkXxiii => "Bl6MkXxiii"@,
            EntityType::Bl6MkXxiiiX3 => "Bl6MkXxiiiX3"@,
            EntityType::Bofors57MmMk3 => "Bofors57MmMk3"@,
            EntityType::Crotale => "Crotale"@,
            EntityType::Hq10 => "Hq10"@,
            EntityType::Hpj38 => "Hpj38"@,
            EntityType::Mark12 => "Mark12"@,
            EntityType::Mark12X2 => "Mark12X2"@,
            EntityType::Mark49 => "Mark49"@,
            EntityType::Mark51 => "Mark51"@,
            EntityType::Mark7 => "Mark7"@,
            EntityType::MarkBViii => "MarkBViii"@,
            EntityType::Ogon => "Ogon"@,
            EntityType::OtoMelara76Mm => "OtoMelara76Mm"@,
            EntityType::RatepKomar => "RatepKomar"@,
            EntityType::Shtorm => "Shtorm"@,
            EntityType::VickersMkH12In => "VickersMkH12In"@,
            EntityType::Blaster => "Blaster"@,
            EntityType::GreenBlaster => "GreenBlaster"@,
            EntityType::VBlaster => "VBlaster"@,
            EntityType::VProjector => "VProjector"@,
            EntityType::VMissiles => "VMissiles"@,
            EntityType::_30X130MmR => "ThreeZeroX130MmR"@,
            EntityType::_30X165MmR => "ThreeZeroX165MmR"@,
            EntityType::_762X54MmR => "SevenSixTwoX54MmR"@,
            EntityType::_200X1070MmR => "TwoZeroZeroX1070MmR"@,
            EntityType::_127X680MmR => "OneTwoSevenX680MmR"@,
            EntityType::_130X720MmR => "OneThreeZeroX720MmR"@,
            EntityType::_75X667MmR => "SevenFiveX667MmR"@,
            EntityType::_120X570MmR => "OneTwoZeroX570MmR"@,
            EntityType::_25X129MmR => "TwoFiveX129MmR"@,
            EntityType::_300X1400MmR => "ThreeZeroZeroX1400MmR"@,
            EntityType::_380X1700MmR => "ThreeEightZeroX1700MmR"@,
            EntityType::_458X1980MmR => "FourFiveEightX1980MmR"@,
            EntityType::_57X441MmR => "FiveSevenX441MmR"@,
            EntityType::_76X636MmR => "SevenSixX636MmR"@,
            EntityType::_82R => "EightTwoR"@,
            EntityType::Asroc => "Asroc"@,
            EntityType::Barak8 => "Barak8"@,
            EntityType::Pl12 => "Pl12"@,
            EntityType::BrahMos => "BrahMos"@,
            EntityType::Hellfire => "Hellfire"@,
            EntityType::CannonBall => "CannonBall"@,
            EntityType::Depositor => "Depositor"@,
            EntityType::Shovel => "Shovel"@,
            EntityType::Essm => "Essm"@,
            EntityType::Exocet => "Exocet"@,
            EntityType::Harpoon => "Harpoon"@,
            EntityType::Hq9 => "Hq9"@,
            EntityType::Igla => "Igla"@,
            EntityType::Kalibr => "Kalibr"@,
            EntityType::Lrlap => "Lrlap"@,
            EntityType::Magic => "Magic"@,
            EntityType::Mark18 => "Mark18"@,
            EntityType::Mark48 => "Mark48"@,
            EntityType::Mark54 => "Mark54"@,
            EntityType::Yu7 => "Yu7"@,
            EntityType::Mark8 => "Mark8"@,
            EntityType::Mark9 => "Mark9"@,
            EntityType::Mistral => "Mistral"@,
            EntityType::Nsm => "Nsm"@,
            EntityType::Of45 => "Of45"@,
            EntityType::RP3 => "RP3"@,
            EntityType::P15 => "P15"@,
            EntityType::P700 => "P700"@,
            EntityType::Rbs15 => "Rbs15"@,
            EntityType::Rim116 => "Rim116"@,
            EntityType::Rpk6 => "Rpk6"@,
            EntityType::S300 => "S300"@,
            EntityType::Set65 => "Set65"@,
            EntityType::Tomahawk => "Tomahawk"@,
            EntityType::Torped45 => "Torped45"@,
            EntityType::Type53 => "Type53"@,
            EntityType::V611 => "V611"@,
            EntityType::Vt1 => "Vt1"@,
            EntityType::Hq10SAM => "Hq10SAM"@,
            EntityType::Ls6 => "Ls6"@,
            EntityType::Wz0839 => "Wz0839"@,
            EntityType::Type96Bomb => "Type96Bomb"@,
            EntityType::Mk82 => "Mk82"@,
            EntityType::Yj18 => "Yj18"@,
        }
    }

    /// The short name of this type.
    pub fn as_str(self) -> (r: &'static str)
        ensures
            r@ == self.name(),
    {
        match self {
            EntityType::Abrams => "Abrams",
            EntityType::Avenger => "Avenger",
            EntityType::J15 => "J15",
            EntityType::E4N => "E4N",
            EntityType::TieFighter => "TieFighter",
            EntityType::Harbin => "Harbin",
            EntityType::Ka25 => "Ka25",
            EntityType::Kingfisher => "Kingfisher",
            EntityType::Seahawk => "Seahawk",
            EntityType::Type96 => "Type96",
            EntityType::SuperEtendard => "SuperEtendard",
            EntityType::SuperFrelon => "SuperFrelon",
            EntityType::Z18 => "Z18",
            EntityType::Akula => "Akula",
            EntityType::Apache => "Apache",
            EntityType::ArleighBurke => "ArleighBurke",
            EntityType::Bismarck => "Bismarck",
            EntityType::Buyan => "Buyan",
            EntityType::B2 => "B2",
            EntityType::Clemenceau => "Clemenceau",
            EntityType::Kaga => "Kaga",
            EntityType::Liaoning => "Liaoning",
            EntityType::Chinook => "Chinook",
            EntityType::Catalina => "Catalina",
            EntityType::Spitfire => "Spitfire",
            EntityType::J20 => "J20",
            EntityType::F35 => "F35",
            EntityType::Dreadnought => "Dreadnought",
            EntityType::Dredger => "Dredger",
            EntityType::Drone => "Drone",
            EntityType::Espana => "Espana",
            EntityType::Ekranoplan => "Ekranoplan",
            EntityType::Essex => "Essex",
            EntityType::FairmileD => "FairmileD",
            EntityType::Fletcher => "Fletcher",
            EntityType::Freccia => "Freccia",
            EntityType::Freedom => "Freedom",
            EntityType::G5 => "G5",
            EntityType::Golf => "Golf",
            EntityType::Indiaman => "Indiaman",
            EntityType::Iowa => "Iowa",
            EntityType::Kirov => "Kirov",
            EntityType::Kolkata => "Kolkata",
            EntityType::Komar => "Komar",
            EntityType::Leander => "Leander",
            EntityType::Lublin => "Lublin",
            EntityType::Momi => "Momi",
            EntityType::Montana => "Montana",
            EntityType::Moskva => "Moskva",
            EntityType::Oberon => "Oberon",
            EntityType::Ohio => "Ohio",
            EntityType::Olympias => "Olympias",
            EntityType::Osa => "Osa",
            EntityType::Pt34 => "Pt34",
            EntityType::Seawolf => "Seawolf",
            EntityType::Skipjack => "Skipjack",
            EntityType::Skjold => "Skjold",
            EntityType::Sherman => "Sherman",
            EntityType::StarDestroyer => "StarDestroyer",
            EntityType::Tanker => "Tanker",
            EntityType::TerryFox => "TerryFox",
            EntityType::Town => "Town",
            EntityType::Type055 => "Type055",
            EntityType::TypeViic => "TypeViic",
            EntityType::Ticonderoga => "Ticonderoga",
            EntityType::Titanic => "Titanic",
            EntityType::Uap => "Uap",
            EntityType::Vindicator => "Vindicator",
            EntityType::Visby => "Visby",
            EntityType::Virginia => "Virginia",
            EntityType::Xwing => "Xwing",
            EntityType::Yamato => "Yamato",
            EntityType::Yasen => "Yasen",
            EntityType::Zubr => "Zubr",
            EntityType::Lst => "Lst",
            EntityType::Zudredger => "Zudredger",
            EntityType::Zumwalt => "Zumwalt",
            EntityType::Barrel => "Barrel",
            EntityType::Coin => "Coin",
            EntityType::Crate => "Crate",
            EntityType::Scrap => "Scrap",
            EntityType::Brosok => "Brosok",
            EntityType::Mk70 => "Mk70",
            EntityType::Mk3 => "Mk3",
            EntityType::Moskit => "Moskit",
            EntityType::Jagm => "Jagm",
            EntityType::Acacia => "Acacia",
            EntityType::AverageTree => "AverageTree",
            EntityType::Palm => "Palm",
            EntityType::Hq => "Hq",
            EntityType::OilPlatform => "OilPlatform",
            EntityType::SuperOilPlatform => "SuperOilPlatform",
            EntityType::M230 => "M230",
            EntityType::Type730 => "Type730",
            EntityType::Turbolaser => "Turbolaser",
            EntityType::ShermanTurret => "ShermanTurret",
            EntityType::AbramsTurret => "AbramsTurret",
            EntityType::_100Mm => "OneZeroZeroMm",
            EntityType::_200Mm => "TwoZeroZeroMm",
            EntityType::_2M3M => "TwoM3M",
            EntityType::_38CmSkc34 => "ThreeEightCmSkc34",
            EntityType::_45Type94 => "FourFiveType94",
            EntityType::_6Pounder => "SixPounder",
            EntityType::_88CmSkc35 => "EightEightCmSkc35",
            EntityType::_M1919 => "M1919",
            EntityType::A190 => "A190",
            EntityType::Ak130 => "Ak130",
            EntityType::Ansaldo => "Ansaldo",
            EntityType::Bl6MkXxiii => "Bl6MkXxiii",
            EntityType::Bl6MkXxiiiX3 => "Bl6MkXxiiiX3",
            EntityType::Bofors57MmMk3 => "Bofors57MmMk3",
            EntityType::Crotale => "Crotale",
            EntityType::Hq10 => "Hq10",
            EntityType::Hpj38 => "Hpj38",
            EntityType::Mark12 => "Mark12",
            EntityType::Mark12X2 => "Mark12X2",
            EntityType::Mark49 => "Mark49",
            EntityType::Mark51 => "Mark51",
            EntityType::Mark7 => "Mark7",
            EntityType::MarkBViii => "MarkBViii",
            EntityType::Ogon => "Ogon",
            EntityType::OtoMelara76Mm => "OtoMelara76Mm",
            EntityType::RatepKomar => "RatepKomar",
            EntityType::Shtorm => "Shtorm",
            EntityType::VickersMkH12In => "VickersMkH12In",
            EntityType::Blaster => "Blaster",
            EntityType::GreenBlaster => "GreenBlaster",
            EntityType::VBlaster => "VBlaster",
            EntityType::VProjector => "VProjector",
            EntityType::VMissiles => "VMissiles",
            EntityType::_30X130MmR => "ThreeZeroX130MmR",
            EntityType::_30X165MmR => "ThreeZeroX165MmR",
            EntityType::_762X54MmR => "SevenSixTwoX54MmR",
            EntityType::_200X1070MmR => "TwoZeroZeroX1070MmR",
            EntityType::_127X680MmR => "OneTwoSevenX680MmR",
            EntityType::_130X720MmR => "OneThreeZeroX720MmR",
            EntityType::_75X667MmR => "SevenFiveX667MmR",
            EntityType::_120X570MmR => "OneTwoZeroX570MmR",
            EntityType::_25X129MmR => "TwoFiveX129MmR",
            EntityType::_300X1400MmR => "ThreeZeroZeroX1400MmR",
            EntityType::_380X1700MmR => "ThreeEightZeroX1700MmR",
            EntityType::_458X1980MmR => "FourFiveEightX1980MmR",
            EntityType::_57X441MmR => "FiveSevenX441MmR",
            EntityType::_76X636MmR => "SevenSixX636MmR",
            EntityType::_82R => "EightTwoR",
            EntityType::Asroc => "Asroc",
            EntityType::Barak8 => "Barak8",
            EntityType::Pl12 => "Pl12",
            EntityType::BrahMos => "BrahMos",
            EntityType::Hellfire => "Hellfire",
            EntityType::CannonBall => "CannonBall",
            EntityType::Depositor => "Depositor",
            EntityType::Shovel => "Shovel",
            EntityType::Essm => "Essm",
            EntityType::Exocet => "Exocet",
            EntityType::Harpoon => "Harpoon",
            EntityType::Hq9 => "Hq9",
            EntityType::Igla => "Igla",
            EntityType::Kalibr => "Kalibr",
            EntityType::Lrlap => "Lrlap",
            EntityType::Magic => "Magic",
            EntityType::Mark18 => "Mark18",
            EntityType::Mark48 => "Mark48",
            EntityType::Mark54 => "Mark54",
            EntityType::Yu7 => "Yu7",
            EntityType::Mark8 => "Mark8",
            EntityType::Mark9 => "Mark9",
            EntityType::Mistral => "Mistral",
            EntityType::Nsm => "Nsm",
            EntityType::Of45 => "Of45",
            EntityType::RP3 => "RP3",
            EntityType::P15 => "P15",
            EntityType::P700 => "P700",
            EntityType::Rbs15 => "Rbs15",
            EntityType::Rim116 => "Rim116",
            EntityType::Rpk6 => "Rpk6",
            EntityType::S300 => "S300",
            EntityType::Set65 => "Set65",
            EntityType::Tomahawk => "Tomahawk",
            EntityType::Torped45 => "Torped45",
            EntityType::Type53 => "Type53",
            EntityType::V611 => "V611",
            EntityType::Vt1 => "Vt1",
            EntityType::Hq10SAM => "Hq10SAM",
            EntityType::Ls6 => "Ls6",
            EntityType::Wz0839 => "Wz0839",
            EntityType::Type96Bomb => "Type96Bomb",
            EntityType::Mk82 => "Mk82",
            EntityType::Yj18 => "Yj18",
        }
    }

    /// The lookup key of this type's name (see `name_key`).
    pub open spec fn key(self) -> u64 {
        match self {
            EntityType::Abrams => 1748825842,
            EntityType::Avenger => 2017243886,
            EntityType::J15 => 961370240,
            EntityType::E4N => 951294464,
            EntityType::TieFighter => 2862396136,
            EntityType::Harbin => 1763423474,
            EntityType::Ka25 => 1231903051,
            EntityType::Kingfisher => 2843521779,
            EntityType::Seahawk => 2054880232,
            EntityType::Type96 => 1787665648,
            EntityType::SuperEtendard => 3665377636,
            EntityType::SuperFrelon => 3128670181,
            EntityType::Z18 => 994973824,
            EntityType::Akula => 1480095339,
            EntityType::Apache => 1748595809,
            EntityType::ArleighBurke => 3359208949,
            EntityType::Bismarck => 2287661537,
            EntityType::Buyan => 1482404085,
            EntityType::B2 => 676110592,
            EntityType::Clemenceau => 2826793187,
            EntityType::Kaga => 1232630731,
            EntityType::Liaoning => 2308568942,
            EntityType::Chinook => 2021324782,
            EntityType::Catalina => 2289596268,
            EntityType::Spitfire => 2323216742,
            EntityType::J20 => 961288448,
            EntityType::F35 => 952981888,
            EntityType::Dreadnought => 3097310325,
            EntityType::Dredger => 2023535332,
            EntityType::Drone => 1486452594,
            EntityType::Espana => 1756919664,
            EntityType::Ekranoplan => 2830872816,
            EntityType::Essex => 1488859891,
            EntityType::FairmileD => 2563846889,
            EntityType::Fletcher => 2296165091,
            EntityType::Freccia => 2027451619,
            EntityType::Freedom => 2027648997,
            EntityType::G5 => 686646144,
            EntityType::Golf => 1224324679,
            EntityType::Indiaman => 2302390497,
            EntityType::Iowa => 1228438473,
            EntityType::Kirov => 1501411305,
            EntityType::Kolkata => 2037938795,
            EntityType::Komar => 1501343983,
            EntityType::Leander => 2040312558,
            EntityType::Lublin => 1771812066,
            EntityType::Momi => 1236956877,
            EntityType::Montana => 2042132340,
            EntityType::Moskva => 1773697907,
            EntityType::Oberon => 1778104293,
            EntityType::Ohio => 1241248975,
            EntityType::Olympias => 2315055344,
            EntityType::Osa => 972585344,
            EntityType::Pt34 => 1242372560,
            EntityType::Seawolf => 2054796919,
            EntityType::Skipjack => 2323313130,
            EntityType::Skjold => 1786328682,
            EntityType::Sherman => 2054926578,
            EntityType::StarDestroyer => 3665605359,
            EntityType::Tanker => 1788654318,
            EntityType::TerryFox => 2325624825,
            EntityType::Town => 1251720148,
            EntityType::Type055 => 2056084197,
            EntityType::TypeViic => 2325279958,
            EntityType::Ticonderoga => 3130553330,
            EntityType::Titanic => 2056844513,
            EntityType::Uap => 985411712,
            EntityType::Vindicator => 2866591713,
            EntityType::Visby => 1524527465,
            EntityType::Virginia => 2329441513,
            EntityType::Xwing => 1528428407,
            EntityType::Yamato => 1799092845,
            EntityType::Yasen => 1530639073,
            EntityType::Zubr => 1264365914,
            EntityType::Lst => 966605184,
            EntityType::Zudredger => 2606543588,
            EntityType::Zumwalt => 2069706359,
            EntityType::Barrel => 1750807282,
            EntityType::Coin => 1216066755,
            EntityType::Crate => 1484356210,
            EntityType::Scrap => 1518088419,
            EntityType::Brosok => 1750792175,
            EntityType::Mk70 => 1236016077,
            EntityType::Mk3 => 967636352,
            EntityType::Moskit => 1774007539,
            EntityType::Jagm => 1230730186,
            EntityType::Acacia => 1748530401,
            EntityType::AverageTree => 3090772692,
            EntityType::Palm => 1243313744,
            EntityType::Hq => 689726464,
            EntityType::OilPlatform => 3120265574,
            EntityType::SuperOilPlatform => 4470831462,
            EntityType::M230 => 1236015565,
            EntityType::Type730 => 2056002021,
            EntityType::Turbolaser => 2862396129,
            EntityType::ShermanTurret => 3665638130,
            EntityType::AbramsTurret => 3359453938,
            EntityType::_100Mm => 3657131762,
            EntityType::_200Mm => 3667617522,
            EntityType::_2M3M => 1788041711,
            EntityType::_38CmSkc34 => 4740422123,
            EntityType::_45Type94 => 3905756400,
            EntityType::_6Pounder => 2860298990,
            EntityType::_88CmSkc35 => 4708981227,
            EntityType::_M1919 => 1504598193,
            EntityType::A190 => 1210850497,
            EntityType::Ak130 => 1479285227,
            EntityType::Ansaldo => 2017194593,
            EntityType::Bl6MkXxiii => 2824500472,
            EntityType::Bl6MkXxiiiX3 => 3360484457,
            EntityType::Bofors57MmMk3 => 3628922349,
            EntityType::Crotale => 2021226100,
            EntityType::Hq10 => 1225529544,
            EntityType::Hpj38 => 1494096368,
            EntityType::Mark12 => 1772919026,
            EntityType::Mark12X2 => 2309794865,
            EntityType::Mark49 => 1773034098,
            EntityType::Mark51 => 1772903154,
            EntityType::Mark7 => 1504572897,
            EntityType::MarkBViii => 2579133654,
            EntityType::Ogon => 1241233359,
            EntityType::OtoMelara76Mm => 3657131703,
            EntityType::RatepKomar => 2858201327,
            EntityType::Shtorm => 1786476916,
            EntityType::VickersMkH12In => 3940263089,
            EntityType::Blaster => 2019341043,
            EntityType::GreenBlaster => 3372004083,
            EntityType::VBlaster => 2329719539,
            EntityType::VProjector => 2866591715,
            EntityType::VMissiles => 2598171369,
            EntityType::_30X130MmR => 4472485552,
            EntityType::_30X165MmR => 4472485557,
            EntityType::_762X54MmR => 4738823860,
            EntityType::_200X1070MmR => 5277791920,
            EntityType::_127X680MmR => 4998870704,
            EntityType::_130X720MmR => 5267306160,
            EntityType::_75X667MmR => 4470388407,
            EntityType::_120X570MmR => 4730435248,
            EntityType::_25X129MmR => 3935614649,
            EntityType::_300X1400MmR => 5814662832,
            EntityType::_380X1700MmR => 6083098288,
            EntityType::_458X1980MmR => 5785302704,
            EntityType::_57X441MmR => 4443125425,
            EntityType::_76X636MmR => 4201952950,
            EntityType::_82R => 2561980372,
            EntityType::Asroc => 1480128499,
            EntityType::Barak8 => 1749956082,
            EntityType::Pl12 => 1242339536,
            EntityType::BrahMos => 2019358696,
            EntityType::Hellfire => 2300148070,
            EntityType::CannonBall => 2826647106,
            EntityType::Depositor => 2560407529,
            EntityType::Shovel => 1786458863,
            EntityType::Essm => 1220245957,
            EntityType::Exocet => 1757229807,
            EntityType::Harpoon => 2031859696,
            EntityType::Hq9 => 957249664,
            EntityType::Igla => 1228437065,
            EntityType::Kalibr => 1769779564,
            EntityType::Lrlap => 1503408370,
            EntityType::Magic => 1505293537,
            EntityType::Mark18 => 1773017330,
            EntityType::Mark48 => 1773017714,
            EntityType::Mark54 => 1772952306,
            EntityType::Yu7 => 992868992,
            EntityType::Mark8 => 1504589281,
            EntityType::Mark9 => 1504605665,
            EntityType::Mistral => 2042310900,
            EntityType::Nsm => 970684800,
            EntityType::Of45 => 1240291919,
            EntityType::RP3 => 978118656,
            EntityType::P15 => 973953152,
            EntityType::P700 => 1242306640,
            EntityType::Rbs15 => 1515018466,
            EntityType::Rim116 => 1783470317,
            EntityType::Rpk6 => 1246606802,
            EntityType::S300 => 1248598099,
            EntityType::Set65 => 1517116261,
            EntityType::Tomahawk => 2325412840,
            EntityType::Torped45 => 2324519525,
            EntityType::Type53 => 1787615984,
            EntityType::V611 => 1254906070,
            EntityType::Vt1 => 986479104,
            EntityType::Hq10SAM => 2031313072,
            EntityType::Ls6 => 965589376,
            EntityType::Wz0839 => 1794005424,
            EntityType::Type96Bomb => 2862134978,
            EntityType::Mk82 => 1236048973,
            EntityType::Yj18 => 1261312217,
        }
    }

    /// The type whose name has lookup key `k`, if there is one.
    pub open spec fn spec_from_key(k: u64) -> Option<EntityType> {
        match k {
            1748825842 => Some(EntityType::Abrams),
            2017243886 => Some(EntityType::Avenger),
            961370240 => Some(EntityType::J15),
            951294464 => Some(EntityType::E4N),
            2862396136 => Some(EntityType::TieFighter),
            1763423474 => Some(EntityType::Harbin),
            1231903051 => Some(EntityType::Ka25),
            2843521779 => Some(EntityType::Kingfisher),
            2054880232 => Some(EntityType::Seahawk),
            1787665648 => Some(EntityType::Type96),
            3665377636 => Some(EntityType::SuperEtendard),
            3128670181 => Some(EntityType::SuperFrelon),
            994973824 => Some(EntityType::Z18),
            1480095339 => Some(EntityType::Akula),
            1748595809 => Some(EntityType::Apache),
            3359208949 => Some(EntityType::ArleighBurke),
            2287661537 => Some(EntityType::Bismarck),
            1482404085 => Some(EntityType::Buyan),
            676110592 => Some(EntityType::B2),
            2826793187 => Some(EntityType::Clemenceau),
            1232630731 => Some(EntityType::Kaga),
            2308568942 => Some(EntityType::Liaoning),
            2021324782 => Some(EntityType::Chinook),
            2289596268 => Some(EntityType::Catalina),
            2323216742 => Some(EntityType::Spitfire),
            961288448 => Some(EntityType::J20),
            952981888 => Some(EntityType::F35),
            3097310325 => Some(EntityType::Dreadnought),
            2023535332 => Some(EntityType::Dredger),
            1486452594 => Some(EntityType::Drone),
            1756919664 => Some(EntityType::Espana),
            2830872816 => Some(EntityType::Ekranoplan),
            1488859891 => Some(EntityType::Essex),
            2563846889 => Some(EntityType::FairmileD),
            2296165091 => Some(EntityType::Fletcher),
            2027451619 => Some(EntityType::Freccia),
            2027648997 => Some(EntityType::Freedom),
            686646144 => Some(EntityType::G5),
            1224324679 => Some(EntityType::Golf),
            2302390497 => Some(EntityType::Indiaman),
            1228438473 => Some(EntityType::Iowa),
            1501411305 => Some(EntityType::Kirov),
            2037938795 => Some(EntityType::Kolkata),
            1501343983 => Some(EntityType::Komar),
            2040312558 => Some(EntityType::Leander),
            1771812066 => Some(EntityType::Lublin),
            1236956877 => Some(EntityType::Momi),
            2042132340 => Some(EntityType::Montana),
            1773697907 => Some(EntityType::Moskva),
            1778104293 => Some(EntityType::Oberon),
            1241248975 => Some(EntityType::Ohio),
            2315055344 => Some(EntityType::Olympias),
            972585344 => Some(EntityType::Osa),
            1242372560 => Some(EntityType::Pt34),
            2054796919 => Some(EntityType::Seawolf),
            2323313130 => Some(EntityType::Skipjack),
            1786328682 => Some(EntityType::Skjold),
            2054926578 => Some(EntityType::Sherman),
            3665605359 => Some(EntityType::StarDestroyer),
            1788654318 => Some(EntityType::Tanker),
            2325624825 => Some(EntityType::TerryFox),
            1251720148 => Some(EntityType::Town),
            2056084197 => Some(EntityType::Type055),
            2325279958 => Some(EntityType::TypeViic),
            3130553330 => Some(EntityType::Ticonderoga),
            2056844513 => Some(EntityType::Titanic),
            985411712 => Some(EntityType::Uap),
            2866591713 => Some(EntityType::Vindicator),
            1524527465 => Some(EntityType::Visby),
            2329441513 => Some(EntityType::Virginia),
            1528428407 => Some(EntityType::Xwing),
            1799092845 => Some(EntityType::Yamato),
            1530639073 => Some(EntityType::Yasen),
            1264365914 => Some(EntityType::Zubr),
            966605184 => Some(EntityType::Lst),
            2606543588 => Some(EntityType::Zudredger),
            2069706359 => Some(EntityType::Zumwalt),
            1750807282 => Some(EntityType::Barrel),
            1216066755 => Some(EntityType::Coin),
            1484356210 => Some(EntityType::Crate),
            1518088419 => Some(EntityType::Scrap),
            1750792175 => Some(EntityType::Brosok),
            1236016077 => Some(EntityType::Mk70),
            967636352 => Some(EntityType::Mk3),
            1774007539 => Some(EntityType::Moskit),
            1230730186 => Some(EntityType::Jagm),
            1748530401 => Some(EntityType::Acacia),
            3090772692 => Some(EntityType::AverageTree),
            1243313744 => Some(EntityType::Palm),
            689726464 => Some(EntityType::Hq),
            3120265574 => Some(EntityType::OilPlatform),
            4470831462 => Some(EntityType::SuperOilPlatform),
            1236015565 => Some(EntityType::M230),
            2056002021 => Some(EntityType::Type730),
            2862396129 => Some(EntityType::Turbolaser),
            3665638130 => Some(EntityType::ShermanTurret),
            3359453938 => Some(EntityType::AbramsTurret),
            3657131762 => Some(EntityType::_100Mm),
            3667617522 => Some(EntityType::_200Mm),
            1788041711 => Some(EntityType::_2M3M),
            4740422123 => Some(EntityType::_38CmSkc34),
            3905756400 => Some(EntityType::_45Type94),
            2860298990 => Some(EntityType::_6Pounder),
            4708981227 => Some(EntityType::_88CmSkc35),
            1504598193 => Some(EntityType::_M1919),
            1210850497 => Some(EntityType::A190),
            1479285227 => Some(EntityType::Ak130),
            2017194593 => Some(EntityType::Ansaldo),
            2824500472 => Some(EntityType::Bl6MkXxiii),
            3360484457 => Some(EntityType::Bl6MkXxiiiX3),
            3628922349 => Some(EntityType::Bofors57MmMk3),
            2021226100 => Some(EntityType::Crotale),
            1225529544 => Some(EntityType::Hq10),
            1494096368 => Some(EntityType::Hpj38),
            1772919026 => Some(EntityType::Mark12),
            2309794865 => Some(EntityType::Mark12X2),
            1773034098 => Some(EntityType::Mark49),
            1772903154 => Some(EntityType::Mark51),
            1504572897 => Some(EntityType::Mark7),
            2579133654 => Some(EntityType::MarkBViii),
            1241233359 => Some(EntityType::Ogon),
            3657131703 => Some(EntityType::OtoMelara76Mm),
            2858201327 => Some(EntityType::RatepKomar),
            1786476916 => Some(EntityType::Shtorm),
            3940263089 => Some(EntityType::VickersMkH12In),
            2019341043 => Some(EntityType::Blaster),
            3372004083 => Some(EntityType::GreenBlaster),
            2329719539 => Some(EntityType::VBlaster),
            2866591715 => Some(EntityType::VProjector),
            2598171369 => Some(EntityType::VMissiles),
            4472485552 => Some(EntityType::_30X130MmR),
            4472485557 => Some(EntityType::_30X165MmR),
            4738823860 => Some(EntityType::_762X54MmR),
            5277791920 => Some(EntityType::_200X1070MmR),
            4998870704 => Some(EntityType::_127X680MmR),
            5267306160 => Some(EntityType::_130X720MmR),
            4470388407 => Some(EntityType::_75X667MmR),
            4730435248 => Some(EntityType::_120X570MmR),
            3935614649 => Some(EntityType::_25X129MmR),
            5814662832 => Some(EntityType::_300X1400MmR),
            6083098288 => Some(EntityType::_380X1700MmR),
            5785302704 => Some(EntityType::_458X1980MmR),
            4443125425 => Some(EntityType::_57X441MmR),
            4201952950 => Some(EntityType::_76X636MmR),
            2561980372 => Some(EntityType::_82R),
            1480128499 => Some(EntityType::Asroc),
            1749956082 => Some(EntityType::Barak8),
            1242339536 => Some(EntityType::Pl12),
            2019358696 => Some(EntityType::BrahMos),
            2300148070 => Some(EntityType::Hellfire),
            2826647106 => Some(EntityType::CannonBall),
            2560407529 => Some(EntityType::Depositor),
            1786458863 => Some(EntityType::Shovel),
            1220245957 => Some(EntityType::Essm),
            1757229807 => Some(EntityType::Exocet),
            2031859696 => Some(EntityType::Harpoon),
            957249664 => Some(EntityType::Hq9),
            1228437065 => Some(EntityType::Igla),
            1769779564 => Some(EntityType::Kalibr),
            1503408370 => Some(EntityType::Lrlap),
            1505293537 => Some(EntityType::Magic),
            1773017330 => Some(EntityType::Mark18),
            1773017714 => Some(EntityType::Mark48),
            1772952306 => Some(EntityType::Mark54),
            992868992 => Some(EntityType::Yu7),
            1504589281 => Some(EntityType::Mark8),
            1504605665 => Some(EntityType::Mark9),
            2042310900 => Some(EntityType::Mistral),
            970684800 => Some(EntityType::Nsm),
            1240291919 => Some(EntityType::Of45),
            978118656 => Some(EntityType::RP3),
            973953152 => Some(EntityType::P15),
            1242306640 => Some(EntityType::P700),
            1515018466 => Some(EntityType::Rbs15),
            1783470317 => Some(EntityType::Rim116),
            1246606802 => Some(EntityType::Rpk6),
            1248598099 => Some(EntityType::S300),
            1517116261 => Some(EntityType::Set65),
            2325412840 => Some(EntityType::Tomahawk),
            2324519525 => Some(EntityType::Torped45),
            1787615984 => Some(EntityType::Type53),
            1254906070 => Some(EntityType::V611),
            986479104 => Some(EntityType::Vt1),
            2031313072 => Some(EntityType::Hq10SAM),
            965589376 => Some(EntityType::Ls6),
            1794005424 => Some(EntityType::Wz0839),
            2862134978 => Some(EntityType::Type96Bomb),
            1236048973 => Some(EntityType::Mk82),
            1261312217 => Some(EntityType::Yj18),
            _ => None,
        }
    }

    /// Finds the only type whose name could have lookup key `k`.
    pub fn from_key(k: u64) -> (r: Option<EntityType>)
        ensures
            r == EntityType::spec_from_key(k),
    {
        match k {
            1748825842 => Some(EntityType::Abrams),
            2017243886 => Some(EntityType::Avenger),
            961370240 => Some(EntityType::J15),
            951294464 => Some(EntityType::E4N),
            2862396136 => Some(EntityType::TieFighter),
            1763423474 => Some(EntityType::Harbin),
            1231903051 => Some(EntityType::Ka25),
            2843521779 => Some(EntityType::Kingfisher),
            2054880232 => Some(EntityType::Seahawk),
            1787665648 => Some(EntityType::Type96),
            3665377636 => Some(EntityType::SuperEtendard),
            3128670181 => Some(EntityType::SuperFrelon),
            994973824 => Some(EntityType::Z18),
            1480095339 => Some(EntityType::Akula),
            1748595809 => Some(EntityType::Apache),
            3359208949 => Some(EntityType::ArleighBurke),
            2287661537 => Some(EntityType::Bismarck),
            1482404085 => Some(EntityType::Buyan),
            676110592 => Some(EntityType::B2),
            2826793187 => Some(EntityType::Clemenceau),
            1232630731 => Some(EntityType::Kaga),
            2308568942 => Some(EntityType::Liaoning),
            2021324782 => Some(EntityType::Chinook),
            2289596268 => Some(EntityType::Catalina),
            2323216742 => Some(EntityType::Spitfire),
            961288448 => Some(EntityType::J20),
            952981888 => Some(EntityType::F35),
            3097310325 => Some(EntityType::Dreadnought),
            2023535332 => Some(EntityType::Dredger),
            1486452594 => Some(EntityType::Drone),
            1756919664 => Some(EntityType::Espana),
            2830872816 => Some(EntityType::Ekranoplan),
            1488859891 => Some(EntityType::Essex),
            2563846889 => Some(EntityType::FairmileD),
            2296165091 => Some(EntityType::Fletcher),
            2027451619 => Some(EntityType::Freccia),
            2027648997 => Some(EntityType::Freedom),
            686646144 => Some(EntityType::G5),
            1224324679 => Some(EntityType::Golf),
            2302390497 => Some(EntityType::Indiaman),
            1228438473 => Some(EntityType::Iowa),
            1501411305 => Some(EntityType::Kirov),
            2037938795 => Some(EntityType::Kolkata),
            1501343983 => Some(EntityType::Komar),
            2040312558 => Some(EntityType::Leander),
            1771812066 => Some(EntityType::Lublin),
            1236956877 => Some(EntityType::Momi),
            2042132340 => Some(EntityType::Montana),
            1773697907 => Some(EntityType::Moskva),
            1778104293 => Some(EntityType::Oberon),
            1241248975 => Some(EntityType::Ohio),
            2315055344 => Some(EntityType::Olympias),
            972585344 => Some(EntityType::Osa),
            1242372560 => Some(EntityType::Pt34),
            2054796919 => Some(EntityType::Seawolf),
            2323313130 => Some(EntityType::Skipjack),
            1786328682 => Some(EntityType::Skjold),
            2054926578 => Some(EntityType::Sherman),
            3665605359 => Some(EntityType::StarDestroyer),
            1788654318 => Some(EntityType::Tanker),
            2325624825 => Some(EntityType::TerryFox),
            1251720148 => Some(EntityType::Town),
            2056084197 => Some(EntityType::Type055),
            2325279958 => Some(EntityType::TypeViic),
            3130553330 => Some(EntityType::Ticonderoga),
            2056844513 => Some(EntityType::Titanic),
            985411712 => Some(EntityType::Uap),
            2866591713 => Some(EntityType::Vindicator),
            1524527465 => Some(EntityType::Visby),
            2329441513 => Some(EntityType::Virginia),
            1528428407 => Some(EntityType::Xwing),
            1799092845 => Some(EntityType::Yamato),
            1530639073 => Some(EntityType::Yasen),
            1264365914 => Some(EntityType::Zubr),
            966605184 => Some(EntityType::Lst),
            2606543588 => Some(EntityType::Zudredger),
            2069706359 => Some(EntityType::Zumwalt),
            1750807282 => Some(EntityType::Barrel),
            1216066755 => Some(EntityType::Coin),
            1484356210 => Some(EntityType::Crate),
            1518088419 => Some(EntityType::Scrap),
            1750792175 => Some(EntityType::Brosok),
            1236016077 => Some(EntityType::Mk70),
            967636352 => Some(EntityType::Mk3),
            1774007539 => Some(EntityType::Moskit),
            1230730186 => Some(EntityType::Jagm),
            1748530401 => Some(EntityType::Acacia),
            3090772692 => Some(EntityType::AverageTree),
            1243313744 => Some(EntityType::Palm),
            689726464 => Some(EntityType::Hq),
            3120265574 => Some(EntityType::OilPlatform),
            4470831462 => Some(EntityType::SuperOilPlatform),
            1236015565 => Some(EntityType::M230),
            2056002021 => Some(EntityType::Type730),
            2862396129 => Some(EntityType::Turbolaser),
            3665638130 => Some(EntityType::ShermanTurret),
            3359453938 => Some(EntityType::AbramsTurret),
            3657131762 => Some(EntityType::_100Mm),
            3667617522 => Some(EntityType::_200Mm),
            1788041711 => Some(EntityType::_2M3M),
            4740422123 => Some(EntityType::_38CmSkc34),
            3905756400 => Some(EntityType::_45Type94),
            2860298990 => Some(EntityType::_6Pounder),
            4708981227 => Some(EntityType::_88CmSkc35),
            1504598193 => Some(EntityType::_M1919),
            1210850497 => Some(EntityType::A190),
            1479285227 => Some(EntityType::Ak130),
            2017194593 => Some(EntityType::Ansaldo),
            2824500472 => Some(EntityType::Bl6MkXxiii),
            3360484457 => Some(EntityType::Bl6MkXxiiiX3),
            3628922349 => Some(EntityType::Bofors57MmMk3),
            2021226100 => Some(EntityType::Crotale),
            1225529544 => Some(EntityType::Hq10),
            1494096368 => Some(EntityType::Hpj38),
            1772919026 => Some(EntityType::Mark12),
            2309794865 => Some(EntityType::Mark12X2),
            1773034098 => Some(EntityType::Mark49),
            1772903154 => Some(EntityType::Mark51),
            1504572897 => Some(EntityType::Mark7),
            2579133654 => Some(EntityType::MarkBViii),
            1241233359 => Some(EntityType::Ogon),
            3657131703 => Some(EntityType::OtoMelara76Mm),
            2858201327 => Some(EntityType::RatepKomar),
            1786476916 => Some(EntityType::Shtorm),
            3940263089 => Some(EntityType::VickersMkH12In),
            2019341043 => Some(EntityType::Blaster),
            3372004083 => Some(EntityType::GreenBlaster),
            2329719539 => Some(EntityType::VBlaster),
            2866591715 => Some(EntityType::VProjector),
            2598171369 => Some(EntityType::VMissiles),
            4472485552 => Some(EntityType::_30X130MmR),
            4472485557 => Some(EntityType::_30X165MmR),
            4738823860 => Some(EntityType::_762X54MmR),
            5277791920 => Some(EntityType::_200X1070MmR),
            4998870704 => Some(EntityType::_127X680MmR),
            5267306160 => Some(EntityType::_130X720MmR),
            4470388407 => Some(EntityType::_75X667MmR),
            4730435248 => Some(EntityType::_120X570MmR),
            3935614649 => Some(EntityType::_25X129MmR),
            5814662832 => Some(EntityType::_300X1400MmR),
            6083098288 => Some(EntityType::_380X1700MmR),
            5785302704 => Some(EntityType::_458X1980MmR),
            4443125425 => Some(EntityType::_57X441MmR),
            4201952950 => Some(EntityType::_76X636MmR),
            2561980372 => Some(EntityType::_82R),
            1480128499 => Some(EntityType::Asroc),
            1749956082 => Some(EntityType::Barak8),
            1242339536 => Some(EntityType::Pl12),
            2019358696 => Some(EntityType::BrahMos),
            2300148070 => Some(EntityType::Hellfire),
            2826647106 => Some(EntityType::CannonBall),
            2560407529 => Some(EntityType::Depositor),
            1786458863 => Some(EntityType::Shovel),
            1220245957 => Some(EntityType::Essm),
            1757229807 => Some(EntityType::Exocet),
            2031859696 => Some(EntityType::Harpoon),
            957249664 => Some(EntityType::Hq9),
            1228437065 => Some(EntityType::Igla),
            1769779564 => Some(EntityType::Kalibr),
            1503408370 => Some(EntityType::Lrlap),
            1505293537 => Some(EntityType::Magic),
            1773017330 => Some(EntityType::Mark18),
            1773017714 => Some(EntityType::Mark48),
            1772952306 => Some(EntityType::Mark54),
            992868992 => Some(EntityType::Yu7),
            1504589281 => Some(EntityType::Mark8),
            1504605665 => Some(EntityType::Mark9),
            2042310900 => Some(EntityType::Mistral),
            970684800 => Some(EntityType::Nsm),
            1240291919 => Some(EntityType::Of45),
            978118656 => Some(EntityType::RP3),
            973953152 => Some(EntityType::P15),
            1242306640 => Some(EntityType::P700),
            1515018466 => Some(EntityType::Rbs15),
            1783470317 => Some(EntityType::Rim116),
            1246606802 => Some(EntityType::Rpk6),
            1248598099 => Some(EntityType::S300),
            1517116261 => Some(EntityType::Set65),
            2325412840 => Some(EntityType::Tomahawk),
            2324519525 => Some(EntityType::Torped45),
            1787615984 => Some(EntityType::Type53),
            1254906070 => Some(EntityType::V611),
            986479104 => Some(EntityType::Vt1),
            2031313072 => Some(EntityType::Hq10SAM),
            965589376 => Some(EntityType::Ls6),
            1794005424 => Some(EntityType::Wz0839),
            2862134978 => Some(EntityType::Type96Bomb),
            1236048973 => Some(EntityType::Mk82),
            1261312217 => Some(EntityType::Yj18),
            _ => None,
        }
    }
}

/// Each name's lookup key is the one recorded for its type.
pub proof fn lemma_name_key(t: EntityType)
    ensures
        crate::naming::name_key(t.name()) == t.key() as int,
{
    match t {
        EntityType::Abrams => reveal_strlit("Abrams"),
        EntityType::Avenger => reveal_strlit("Avenger"),
        EntityType::J15 => reveal_strlit("J15"),
        EntityType::E4N => reveal_strlit("E4N"),
        EntityType::TieFighter => reveal_strlit("TieFighter"),
        EntityType::Harbin => reveal_strlit("Harbin"),
        EntityType::Ka25 => reveal_strlit("Ka25"),
        EntityType::Kingfisher => reveal_strlit("Kingfisher"),
        EntityType::Seahawk => reveal_strlit("Seahawk"),
        EntityType::Type96 => reveal_strlit("Type96"),
        EntityType::SuperEtendard => reveal_strlit("SuperEtendard"),
        EntityType::SuperFrelon => reveal_strlit("SuperFrelon"),
        EntityType::Z18 => reveal_strlit("Z18"),
        EntityType::Akula => reveal_strlit("Akula"),
        EntityType::Apache => reveal_strlit("Apache"),
        EntityType::ArleighBurke => reveal_strlit("ArleighBurke"),
        EntityType::Bismarck => reveal_strlit("Bismarck"),
        EntityType::Buyan => reveal_strlit("Buyan"),
        EntityType::B2 => reveal_strlit("B2"),
        EntityType::Clemenceau => reveal_strlit("Clemenceau"),
        EntityType::Kaga => reveal_strlit("Kaga"),
        EntityType::Liaoning => reveal_strlit("Liaoning"),
        EntityType::Chinook => reveal_strlit("Chinook"),
        EntityType::Catalina => reveal_strlit("Catalina"),
        EntityType::Spitfire => reveal_strlit("Spitfire"),
        EntityType::J20 => reveal_strlit("J20"),
        EntityType::F35 => reveal_strlit("F35"),
        EntityType::Dreadnought => reveal_strlit("Dreadnought"),
        EntityType::Dredger => reveal_strlit("Dredger"),
        EntityType::Drone => reveal_strlit("Drone"),
        EntityType::Espana => reveal_strlit("Espana"),
        EntityType::Ekranoplan => reveal_strlit("Ekranoplan"),
        EntityType::Essex => reveal_strlit("Essex"),
        EntityType::FairmileD => reveal_strlit("FairmileD"),
        EntityType::Fletcher => reveal_strlit("Fletcher"),
        EntityType::Freccia => reveal_strlit("Freccia"),
        EntityType::Freedom => reveal_strlit("Freedom"),
        EntityType::G5 => reveal_strlit("G5"),
        EntityType::Golf => reveal_strlit("Golf"),
        EntityType::Indiaman => reveal_strlit("Indiaman"),
        EntityType::Iowa => reveal_strlit("Iowa"),
        EntityType::Kirov => reveal_strlit("Kirov"),
        EntityType::Kolkata => reveal_strlit("Kolkata"),
        EntityType::Komar => reveal_strlit("Komar"),
        EntityType::Leander => reveal_strlit("Leander"),
        EntityType::Lublin => reveal_strlit("Lublin"),
        EntityType::Momi => reveal_strlit("Momi"),
        EntityType::Montana => reveal_strlit("Montana"),
        EntityType::Moskva => reveal_strlit("Moskva"),
        EntityType::Oberon => reveal_strlit("Oberon"),
        EntityType::Ohio => reveal_strlit("Ohio"),
        EntityType::Olympias => reveal_strlit("Olympias"),
        EntityType::Osa => reveal_strlit("Osa"),
        EntityType::Pt34 => reveal_strlit("Pt34"),
        EntityType::Seawolf => reveal_strlit("Seawolf"),
        EntityType::Skipjack => reveal_strlit("Skipjack"),
        EntityType::Skjold => reveal_strlit("Skjold"),
        EntityType::Sherman => reveal_strlit("Sherman"),
        EntityType::StarDestroyer => reveal_strlit("StarDestroyer"),
        EntityType::Tanker => reveal_strlit("Tanker"),
        EntityType::TerryFox => reveal_strlit("TerryFox"),
        EntityType::Town => reveal_strlit("Town"),
        EntityType::Type055 => reveal_strlit("Type055"),
        EntityType::TypeViic => reveal_strlit("TypeViic"),
        EntityType::Ticonderoga => reveal_strlit("Ticonderoga"),
        EntityType::Titanic => reveal_strlit("Titanic"),
        EntityType::Uap => reveal_strlit("Uap"),
        EntityType::Vindicator => reveal_strlit("Vindicator"),
        EntityType::Visby => reveal_strlit("Visby"),
        EntityType::Virginia => reveal_strlit("Virginia"),
        EntityType::Xwing => reveal_strlit("Xwing"),
        EntityType::Yamato => reveal_strlit("Yamato"),
        EntityType::Yasen => reveal_strlit("Yasen"),
        EntityType::Zubr => reveal_strlit("Zubr"),
        EntityType::Lst => reveal_strlit("Lst"),
        EntityType::Zudredger => reveal_strlit("Zudredger"),
        EntityType::Zumwalt => reveal_strlit("Zumwalt"),
        EntityType::Barrel => reveal_strlit("Barrel"),
        EntityType::Coin => reveal_strlit("Coin"),
        EntityType::Crate => reveal_strlit("Crate"),
        EntityType::Scrap => reveal_strlit("Scrap"),
        EntityType::Brosok => reveal_strlit("Brosok"),
        EntityType::Mk70 => reveal_strlit("Mk70"),
        EntityType::Mk3 => reveal_strlit("Mk3"),
        EntityType::Moskit => reveal_strlit("Moskit"),
        EntityType::Jagm => reveal_strlit("Jagm"),
        EntityType::Acacia => reveal_strlit("Acacia"),
        EntityType::AverageTree => reveal_strlit("AverageTree"),
        EntityType::Palm => reveal_strlit("Palm"),
        EntityType::Hq => reveal_strlit("Hq"),
        EntityType::OilPlatform => reveal_strlit("OilPlatform"),
        EntityType::SuperOilPlatform => reveal_strlit("SuperOilPlatform"),
        EntityType::M230 => reveal_strlit("M230"),
        EntityType::Type730 => reveal_strlit("Type730"),
        EntityType::Turbolaser => reveal_strlit("Turbolaser"),
        EntityType::ShermanTurret => reveal_strlit("ShermanTurret"),
        EntityType::AbramsTurret => reveal_strlit("AbramsTurret"),
        EntityType::_100Mm => reveal_strlit("OneZeroZeroMm"),
        EntityType::_200Mm => reveal_strlit("TwoZeroZeroMm"),
        EntityType::_2M3M => reveal_strlit("TwoM3M"),
        EntityType::_38CmSkc34 => reveal_strlit("ThreeEightCmSkc34"),
        EntityType::_45Type94 => reveal_strlit("FourFiveType94"),
        EntityType::_6Pounder => reveal_strlit("SixPounder"),
        EntityType::_88CmSkc35 => reveal_strlit("EightEightCmSkc35"),
        EntityType::_M1919 => reveal_strlit("M1919"),
        EntityType::A190 => reveal_strlit("A190"),
        EntityType::Ak130 => reveal_strlit("Ak130"),
        EntityType::Ansaldo => reveal_strlit("Ansaldo"),
        EntityType::Bl6MkXxiii => reveal_strlit("Bl6MkXxiii"),
        EntityType::Bl6MkXxiiiX3 => reveal_strlit("Bl6MkXxiiiX3"),
        EntityType::Bofors57MmMk3 => reveal_strlit("Bofors57MmMk3"),
        EntityType::Crotale => reveal_strlit("Crotale"),
        EntityType::Hq10 => reveal_strlit("Hq10"),
        EntityType::Hpj38 => reveal_strlit("Hpj38"),
        EntityType::Mark12 => reveal_strlit("Mark12"),
        EntityType::Mark12X2 => reveal_strlit("Mark12X2"),
        EntityType::Mark49 => reveal_strlit("Mark49"),
        EntityType::Mark51 => reveal_strlit("Mark51"),
        EntityType::Mark7 => reveal_strlit("Mark7"),
        EntityType::MarkBViii => reveal_strlit("MarkBViii"),
        EntityType::Ogon => reveal_strlit("Ogon"),
        EntityType::OtoMelara76Mm => reveal_strlit("OtoMelara76Mm"),
        EntityType::RatepKomar => reveal_strlit("RatepKomar"),
        EntityType::Shtorm => reveal_strlit("Shtorm"),
        EntityType::VickersMkH12In => reveal_strlit("VickersMkH12In"),
        EntityType::Blaster => reveal_strlit("Blaster"),
        EntityType::GreenBlaster => reveal_strlit("GreenBlaster"),
        EntityType::VBlaster => reveal_strlit("VBlaster"),
        EntityType::VProjector => reveal_strlit("VProjector"),
        EntityType::VMissiles => reveal_strlit("VMissiles"),
        EntityType::_30X130MmR => reveal_strlit("ThreeZeroX130MmR"),
        EntityType::_30X165MmR => reveal_strlit("ThreeZeroX165MmR"),
        EntityType::_762X54MmR => reveal_strlit("SevenSixTwoX54MmR"),
        EntityType::_200X1070MmR => reveal_strlit("TwoZeroZeroX1070MmR"),
        EntityType::_127X680MmR => reveal_strlit("OneTwoSevenX680MmR"),
        EntityType::_130X720MmR => reveal_strlit("OneThreeZeroX720MmR"),
        EntityType::_75X667MmR => reveal_strlit("SevenFiveX667MmR"),
        EntityType::_120X570MmR => reveal_strlit("OneTwoZeroX570MmR"),
        EntityType::_25X129MmR => reveal_strlit("TwoFiveX129MmR"),
        EntityType::_300X1400MmR => reveal_strlit("ThreeZeroZeroX1400MmR"),
        EntityType::_380X1700MmR => reveal_strlit("ThreeEightZeroX1700MmR"),
        EntityType::_458X1980MmR => reveal_strlit("FourFiveEightX1980MmR"),
        EntityType::_57X441MmR => reveal_strlit("FiveSevenX441MmR"),
        EntityType::_76X636MmR => reveal_strlit("SevenSixX636MmR"),
        EntityType::_82R => reveal_strlit("EightTwoR"),
        EntityType::Asroc => reveal_strlit("Asroc"),
        EntityType::Barak8 => reveal_strlit("Barak8"),
        EntityType::Pl12 => reveal_strlit("Pl12"),
        EntityType::BrahMos => reveal_strlit("BrahMos"),
        EntityType::Hellfire => reveal_strlit("Hellfire"),
        EntityType::CannonBall => reveal_strlit("CannonBall"),
        EntityType::Depositor => reveal_strlit("Depositor"),
        EntityType::Shovel => reveal_strlit("Shovel"),
        EntityType::Essm => reveal_strlit("Essm"),
        EntityType::Exocet => reveal_strlit("Exocet"),
        EntityType::Harpoon => reveal_strlit("Harpoon"),
        EntityType::Hq9 => reveal_strlit("Hq9"),
        EntityType::Igla => reveal_strlit("Igla"),
        EntityType::Kalibr => reveal_strlit("Kalibr"),
        EntityType::Lrlap => reveal_strlit("Lrlap"),
        EntityType::Magic => reveal_strlit("Magic"),
        EntityType::Mark18 => reveal_strlit("Mark18"),
        EntityType::Mark48 => reveal_strlit("Mark48"),
        EntityType::Mark54 => reveal_strlit("Mark54"),
        EntityType::Yu7 => reveal_strlit("Yu7"),
        EntityType::Mark8 => reveal_strlit("Mark8"),
        EntityType::Mark9 => reveal_strlit("Mark9"),
        EntityType::Mistral => reveal_strlit("Mistral"),
        EntityType::Nsm => reveal_strlit("Nsm"),
        EntityType::Of45 => reveal_strlit("Of45"),
        EntityType::RP3 => reveal_strlit("RP3"),
        EntityType::P15 => reveal_strlit("P15"),
        EntityType::P700 => reveal_strlit("P700"),
        EntityType::Rbs15 => reveal_strlit("Rbs15"),
        EntityType::Rim116 => reveal_strlit("Rim116"),
        EntityType::Rpk6 => reveal_strlit("Rpk6"),
        EntityType::S300 => reveal_strlit("S300"),
        EntityType::Set65 => reveal_strlit("Set65"),
        EntityType::Tomahawk => reveal_strlit("Tomahawk"),
        EntityType::Torped45 => reveal_strlit("Torped45"),
        EntityType::Type53 => reveal_strlit("Type53"),
        EntityType::V611 => reveal_strlit("V611"),
        EntityType::Vt1 => reveal_strlit("Vt1"),
        EntityType::Hq10SAM => reveal_strlit("Hq10SAM"),
        EntityType::Ls6 => reveal_strlit("Ls6"),
        EntityType::Wz0839 => reveal_strlit("Wz0839"),
        EntityType::Type96Bomb => reveal_strlit("Type96Bomb"),
        EntityType::Mk82 => reveal_strlit("Mk82"),
        EntityType::Yj18 => reveal_strlit("Yj18"),
    }
}

} // verus!
