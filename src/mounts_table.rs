use crate::entity_type::EntityType;
use crate::mount::{decl, spec_decl, MountDecl};
use vstd::prelude::*;

verus! {

impl EntityType {
    /// The turret mounts declared for this type, in order.
    pub open spec fn spec_turret_decls(self) -> Seq<MountDecl> {
        match self {
            EntityType::Abrams => seq![spec_decl(Some(EntityType::AbramsTurret), 0i32, 0i32, 0i32, 1u8, false, false, false, false, None)],
            EntityType::Avenger => seq![],
            EntityType::J15 => seq![],
            EntityType::E4N => seq![],
            EntityType::TieFighter => seq![],
            EntityType::Harbin => seq![],
            EntityType::Ka25 => seq![],
            EntityType::Kingfisher => seq![],
            EntityType::Seahawk => seq![],
            EntityType::Type96 => seq![],
            EntityType::SuperEtendard => seq![],
            EntityType::SuperFrelon => seq![],
            EntityType::Z18 => seq![],
            EntityType::Akula => seq![],
            EntityType::Apache => seq![spec_decl(Some(EntityType::M230), 3000i32, 0i32, 0i32, 1u8, false, false, false, false, None)],
            EntityType::ArleighBurke => seq![spec_decl(None, -15250i32, 9400i32, 0i32, 1u8, false, false, false, false, None), spec_decl(None, -15250i32, -9400i32, 0i32, 1u8, false, false, false, false, None), spec_decl(Some(EntityType::Mark12), 51000i32, 0i32, 0i32, 1u8, false, false, false, false, None)],
            EntityType::Bismarck => seq![spec_decl(Some(EntityType::_38CmSkc34), 67986i32, 0i32, 0i32, 1u8, false, false, false, false, None), spec_decl(Some(EntityType::_38CmSkc34), 50672i32, 0i32, 0i32, 1u8, false, false, false, false, None), spec_decl(Some(EntityType::_38CmSkc34), -55405i32, 0i32, 18000i32, 1u8, false, false, false, false, None), spec_decl(Some(EntityType::_38CmSkc34), -73124i32, 0i32, 18000i32, 1u8, false, false, false, false, None)],
            EntityType::Buyan => seq![spec_decl(Some(EntityType::A190), 20495i32, 0i32, 0i32, 1u8, false, false, false, false, None), spec_decl(Some(EntityType::RatepKomar), 15624i32, 0i32, 0i32, 1u8, false, false, false, false, None), spec_decl(Some(EntityType::RatepKomar), -17895i32, 0i32, 18000i32, 1u8, false, false, false, false, None)],
            EntityType::B2 => seq![],
            EntityType::Clemenceau => seq![spec_decl(Some(EntityType::_100Mm), 71486i32, 16507i32, 0i32, 1u8, false, false, false, false, None), spec_decl(Some(EntityType::_100Mm), 59623i32, 16507i32, 0i32, 1u8, false, false, false, false, None), spec_decl(Some(EntityType::_100Mm), -80893i32, -19700i32, 17500i32, 1u8, false, false, false, false, None), spec_decl(Some(EntityType::_100Mm), -93515i32, -19700i32, 17500i32, 1u8, false, false, false, false, None), spec_decl(Some(EntityType::Crotale), 67967i32, -18774i32, 0i32, 1u8, false, false, false, false, None), spec_decl(Some(EntityType::Crotale), -82558i32, 18046i32, 0i32, 1u8, false, false, false, false, None)],
            EntityType::Kaga => seq![spec_decl(Some(EntityType::_200Mm), -37000i32, -20000i32, 0i32, 1u8, false, false, false, false, None), spec_decl(Some(EntityType::_200Mm), -19500i32, -20000i32, 0i32, 1u8, false, false, false, false, None), spec_decl(Some(EntityType::_200Mm), -37000i32, 19000i32, 0i32, 1u8, false, false, false, false, None), spec_decl(Some(EntityType::_200Mm), -19500i32, 19000i32, 0i32, 1u8, false, false, false, false, None), spec_decl(Some(EntityType::_200Mm), -5000i32, 19000i32, 0i32, 1u8, false, false, false, false, None), spec_decl(Some(EntityType::_200Mm), 69700i32, 16000i32, 0i32, 1u8, false, false, false, false, None), spec_decl(Some(EntityType::_200Mm), 70000i32, -16500i32, 0i32, 1u8, false, false, false, false, None), spec_decl(Some(EntityType::_200Mm), 84600i32, -15000i32, 0i32, 1u8, false, false, false, false, None)],
            EntityType::Liaoning => seq![spec_decl(Some(EntityType::Hq10), 70000i32, 18000i32, 0i32, 1u8, false, false, false, false, None), spec_decl(Some(EntityType::Hq10), 68000i32, -21000i32, 0i32, 1u8, false, false, false, false, None), spec_decl(Some(EntityType::Hq10), -126000i32, -26000i32, 0i32, 1u8, false, false, false, false, None), spec_decl(Some(EntityType::Hq10), -114000i32, 24000i32, 0i32, 1u8, false, false, false, false, None), spec_decl(Some(EntityType::Type730), -135000i32, -23000i32, 0i32, 1u8, false, false, false, false, None), spec_decl(Some(EntityType::Type730), -125000i32, 23000i32, 0i32, 1u8, false, false, false, false, None)],
            EntityType::Chinook => seq![],
            EntityType::Catalina => seq![spec_decl(Some(EntityType::_M1919), 7000i32, 0i32, 0i32, 1u8, true, false, false, false, None), spec_decl(Some(EntityType::_M1919), -8000i32, 0i32, 18000i32, 1u8, false, false, false, false, None), spec_decl(Some(EntityType::_M1919), -3000i32, 0i32, 0i32, 1u8, true, false, false, false, None)],
            EntityType::Spitfire => seq![spec_decl(Some(EntityType::_M1919), 7000i32, 8000i32, 0i32, 1u8, true, false, false, false, None), spec_decl(Some(EntityType::_M1919), 7000i32, 0i32, 0i32, 1u8, false, false, false, false, None)],
            EntityType::J20 => seq![],
            EntityType::F35 => seq![],
            EntityType::Dreadnought => seq![spec_decl(Some(EntityType::MarkBViii), 37548i32, 0i32, 0i32, 1u8, false, false, false, false, None), spec_decl(Some(EntityType::MarkBViii), 11900i32, 8043i32, 0i32, 1u8, true, false, false, false, None), spec_decl(Some(EntityType::MarkBViii), -19231i32, 0i32, 18000i32, 1u8, false, false, false, false, None), spec_decl(Some(EntityType::MarkBViii), -45518i32, 0i32, 18000i32, 1u8, false, false, false, false, None)],
            EntityType::Dredger => seq![spec_decl(None, 43750i32, 0i32, 0i32, 1u8, false, false, false, false, None)],
            EntityType::Drone => seq![],
            EntityType::Espana => seq![spec_decl(Some(EntityType::VickersMkH12In), 34956i32, 0i32, 0i32, 1u8, false, false, false, false, None), spec_decl(Some(EntityType::VickersMkH12In), 13738i32, -6257i32, 0i32, 1u8, false, false, false, false, None), spec_decl(Some(EntityType::VickersMkH12In), -15751i32, 6737i32, 18000i32, 1u8, false, false, false, false, None), spec_decl(Some(EntityType::VickersMkH12In), -39847i32, 0i32, 18000i32, 1u8, false, false, false, false, None)],
            EntityType::Ekranoplan => seq![spec_decl(Some(EntityType::_2M3M), 19000i32, 1000i32, 0i32, 1u8, true, false, false, false, None)],
            EntityType::Essex => seq![spec_decl(Some(EntityType::Mark12X2), 46250i32, -12750i32, 0i32, 1u8, false, false, false, false, None), spec_decl(Some(EntityType::Mark12X2), 38000i32, -12750i32, 0i32, 1u8, false, false, false, false, None), spec_decl(Some(EntityType::Mark12X2), -23500i32, -12750i32, 18000i32, 1u8, false, false, false, false, None), spec_decl(Some(EntityType::Mark12X2), -31500i32, -12750i32, 18000i32, 1u8, false, false, false, false, None)],
            EntityType::FairmileD => seq![spec_decl(Some(EntityType::_6Pounder), 8000i32, 0i32, 0i32, 1u8, false, false, false, false, None), spec_decl(Some(EntityType::_6Pounder), -11500i32, 0i32, 18000i32, 1u8, false, false, false, false, None)],
            EntityType::Fletcher => seq![spec_decl(None, 2750i32, 0i32, 0i32, 1u8, false, false, false, false, None), spec_decl(None, -13000i32, 0i32, 0i32, 1u8, false, false, false, false, None), spec_decl(Some(EntityType::Mark12), 37750i32, 0i32, 0i32, 1u8, false, false, false, false, None), spec_decl(Some(EntityType::Mark12), 30240i32, 0i32, 0i32, 1u8, false, false, false, false, None), spec_decl(Some(EntityType::Mark12), -31070i32, 0i32, 18000i32, 1u8, false, false, false, false, None), spec_decl(Some(EntityType::Mark12), -38610i32, 0i32, 18000i32, 1u8, false, false, false, false, None)],
            EntityType::Freccia => seq![spec_decl(None, -9399i32, 0i32, 0i32, 1u8, false, false, false, false, None), spec_decl(None, -21876i32, 0i32, 0i32, 1u8, false, false, false, false, None), spec_decl(Some(EntityType::Ansaldo), 28882i32, 0i32, 0i32, 1u8, false, false, false, false, None), spec_decl(Some(EntityType::Ansaldo), -31610i32, 0i32, 18000i32, 1u8, false, false, false, false, None)],
            EntityType::Freedom => seq![spec_decl(Some(EntityType::Bofors57MmMk3), 33000i32, 0i32, 0i32, 1u8, false, false, false, false, None), spec_decl(Some(EntityType::Mark49), -22500i32, 0i32, 18000i32, 1u8, false, false, false, false, None)],
            EntityType::G5 => seq![],
            EntityType::Golf => seq![],
            EntityType::Indiaman => seq![],
            EntityType::Iowa => seq![spec_decl(Some(EntityType::Mark7), 59620i32, 0i32, 0i32, 1u8, false, false, false, false, None), spec_decl(Some(EntityType::Mark7), 38250i32, 0i32, 0i32, 1u8, false, false, false, false, None), spec_decl(Some(EntityType::Mark7), -65560i32, 0i32, 18000i32, 1u8, false, false, false, false, None)],
            EntityType::Kirov => seq![spec_decl(Some(EntityType::Ak130), -66610i32, 0i32, 18000i32, 1u8, false, false, false, false, None), spec_decl(Some(EntityType::Ak130), -79111i32, 0i32, 18000i32, 1u8, false, false, false, false, None)],
            EntityType::Kolkata => seq![spec_decl(None, -2500i32, -2500i32, -9000i32, 1u8, false, false, false, false, None), spec_decl(None, -5300i32, 2500i32, 9000i32, 1u8, false, false, false, false, None), spec_decl(Some(EntityType::OtoMelara76Mm), 54000i32, 0i32, 0i32, 1u8, false, false, false, false, None)],
            EntityType::Komar => seq![spec_decl(Some(EntityType::_2M3M), 3400i32, 800i32, 0i32, 1u8, false, false, false, false, None), spec_decl(Some(EntityType::_2M3M), -8500i32, 0i32, 18000i32, 1u8, false, false, false, false, None)],
            EntityType::Leander => seq![spec_decl(None, -3410i32, 6529i32, 18000i32, 1u8, false, false, false, false, None), spec_decl(None, -3410i32, -6529i32, 18000i32, 1u8, false, false, false, false, None), spec_decl(Some(EntityType::Bl6MkXxiii), 52775i32, 0i32, 0i32, 1u8, false, false, false, false, None), spec_decl(Some(EntityType::Bl6MkXxiii), 43243i32, 0i32, 0i32, 1u8, false, false, false, false, None), spec_decl(Some(EntityType::Bl6MkXxiii), -45325i32, 0i32, 18000i32, 1u8, false, false, false, false, None), spec_decl(Some(EntityType::Bl6MkXxiii), -56328i32, 0i32, 18000i32, 1u8, false, false, false, false, None)],
            EntityType::Lublin => seq![],
            EntityType::Momi => seq![spec_decl(None, 22150i32, 0i32, 0i32, 1u8, false, false, false, false, None), spec_decl(None, -13850i32, 0i32, 0i32, 1u8, false, false, false, false, None), spec_decl(Some(EntityType::Mark12), 30000i32, 0i32, 0i32, 1u8, false, false, false, false, None), spec_decl(Some(EntityType::Mark12), 1500i32, 0i32, 18000i32, 1u8, false, false, false, false, None), spec_decl(Some(EntityType::Mark12), -22500i32, 0i32, 18000i32, 1u8, false, false, false, false, None)],
            EntityType::Montana => seq![spec_decl(Some(EntityType::Mark7), 74620i32, 0i32, 0i32, 1u8, false, false, false, false, None), spec_decl(Some(EntityType::Mark7), 52500i32, 0i32, 0i32, 1u8, false, false, false, false, None), spec_decl(Some(EntityType::Mark7), -47900i32, 0i32, 18000i32, 1u8, false, false, false, false, None), spec_decl(Some(EntityType::Mark7), -69490i32, 0i32, 18000i32, 1u8, false, false, false, false, None)],
            EntityType::Moskva => seq![spec_decl(Some(EntityType::Shtorm), 50304i32, 0i32, 0i32, 1u8, false, false, false, false, None), spec_decl(Some(EntityType::Shtorm), 28689i32, 0i32, 0i32, 1u8, false, false, false, false, None)],
            EntityType::Oberon => seq![],
            EntityType::Ohio => seq![],
            EntityType::Olympias => seq![],
            EntityType::Osa => seq![spec_decl(Some(EntityType::_2M3M), 10000i32, 0i32, 0i32, 1u8, false, false, false, false, None), spec_decl(Some(EntityType::_2M3M), -16500i32, 0i32, 18000i32, 1u8, false, false, false, false, None)],
            EntityType::Pt34 => seq![],
            EntityType::Seawolf => seq![],
            EntityType::Skipjack => seq![],
            EntityType::Skjold => seq![spec_decl(Some(EntityType::OtoMelara76Mm), 6027i32, 0i32, 0i32, 1u8, false, false, false, false, None)],
            EntityType::Sherman => seq![spec_decl(Some(EntityType::ShermanTurret), -29i32, 0i32, 0i32, 1u8, false, false, false, false, None)],
            EntityType::StarDestroyer => seq![spec_decl(Some(EntityType::Turbolaser), 130809i32, -215036i32, 0i32, 1u8, true, false, false, false, None), spec_decl(Some(EntityType::Turbolaser), 72764i32, -232697i32, 0i32, 1u8, true, false, false, false, None), spec_decl(Some(EntityType::Turbolaser), 19768i32, -249517i32, 0i32, 1u8, true, false, false, false, None), spec_decl(Some(EntityType::Turbolaser), -259517i32, -335299i32, 0i32, 1u8, true, false, false, false, None)],
            EntityType::Tanker => seq![],
            EntityType::TerryFox => seq![],
            EntityType::Town => seq![spec_decl(None, -20218i32, 8414i32, 0i32, 1u8, false, false, false, false, None), spec_decl(None, -20218i32, -8414i32, 0i32, 1u8, false, false, false, false, None), spec_decl(Some(EntityType::Bl6MkXxiiiX3), 59442i32, 0i32, 0i32, 1u8, false, false, false, false, None), spec_decl(Some(EntityType::Bl6MkXxiiiX3), 48659i32, 0i32, 0i32, 1u8, false, false, false, false, None), spec_decl(Some(EntityType::Bl6MkXxiiiX3), -47943i32, 0i32, 18000i32, 1u8, false, false, false, false, None), spec_decl(Some(EntityType::Bl6MkXxiiiX3), -59108i32, 0i32, 18000i32, 1u8, false, false, false, false, None)],
            EntityType::Type055 => seq![spec_decl(Some(EntityType::Hpj38), 58993i32, 0i32, 0i32, 1u8, false, false, false, false, None)],
            EntityType::TypeViic => seq![spec_decl(Some(EntityType::_88CmSkc35), -4350i32, 0i32, 18000i32, 1u8, false, false, false, false, None)],
            EntityType::Ticonderoga => seq![],
            EntityType::Titanic => seq![],
            EntityType::Uap => seq![],
            EntityType::Vindicator => seq![],
            EntityType::Visby => seq![spec_decl(None, -22000i32, 4500i32, 0i32, 1u8, false, false, false, false, None), spec_decl(None, -22000i32, -4500i32, 0i32, 1u8, false, false, false, false, None), spec_decl(Some(EntityType::Bofors57MmMk3), 20000i32, 0i32, 0i32, 1u8, false, false, false, false, None)],
            EntityType::Virginia => seq![],
            EntityType::Xwing => seq![],
            EntityType::Yamato => seq![spec_decl(Some(EntityType::_45Type94), 51655i32, 0i32, 0i32, 1u8, false, false, false, false, None), spec_decl(Some(EntityType::_45Type94), 29265i32, 0i32, 0i32, 1u8, false, false, false, false, None), spec_decl(Some(EntityType::_45Type94), -64996i32, 0i32, 18000i32, 1u8, false, false, false, false, None)],
            EntityType::Yasen => seq![],
            EntityType::Zubr => seq![spec_decl(Some(EntityType::Ogon), 15200i32, 0i32, 0i32, 1u8, false, false, false, false, None), spec_decl(Some(EntityType::_2M3M), 10000i32, 6250i32, 0i32, 1u8, true, false, false, false, None)],
            EntityType::Lst => seq![spec_decl(Some(EntityType::_2M3M), 10000i32, 0i32, 0i32, 1u8, false, false, false, false, None)],
            EntityType::Zudredger => seq![spec_decl(None, 15000i32, 3000i32, 0i32, 1u8, false, false, false, false, None), spec_decl(None, 15000i32, -3000i32, 0i32, 1u8, false, false, false, false, None)],
            EntityType::Zumwalt => seq![spec_decl(Some(EntityType::Mark51), 49596i32, 0i32, 0i32, 1u8, false, false, false, false, None), spec_decl(Some(EntityType::Mark51), 25288i32, 0i32, 0i32, 1u8, false, false, false, false, None)],
            EntityType::Barrel => seq![],
            EntityType::Coin => seq![],
            EntityType::Crate => seq![],
            EntityType::Scrap => seq![],
            EntityType::Brosok => seq![],
            EntityType::Mk70 => seq![],
            EntityType::Mk3 => seq![],
            EntityType::Moskit => seq![],
            EntityType::Jagm => seq![],
            EntityType::Acacia => seq![],
            EntityType::AverageTree => seq![],
            EntityType::Palm => seq![],
            EntityType::Hq => seq![],
            EntityType::OilPlatform => seq![],
            EntityType::SuperOilPlatform => seq![],
            EntityType::M230 => seq![],
            EntityType::Type730 => seq![],
            EntityType::Turbolaser => seq![],
            EntityType::ShermanTurret => seq![],
            EntityType::AbramsTurret => seq![],
            EntityType::_100Mm => seq![],
            EntityType::_200Mm => seq![],
            EntityType::_2M3M => seq![],
            EntityType::_38CmSkc34 => seq![],
            EntityType::_45Type94 => seq![],
            EntityType::_6Pounder => seq![],
            EntityType::_88CmSkc35 => seq![],
            EntityType::_M1919 => seq![],
            EntityType::A190 => seq![],
            EntityType::Ak130 => seq![],
            EntityType::Ansaldo => seq![],
            EntityType::Bl6MkXxiii => seq![],
            EntityType::Bl6MkXxiiiX3 => seq![],
            EntityType::Bofors57MmMk3 => seq![],
            EntityType::Crotale => seq![],
            EntityType::Hq10 => seq![],
            EntityType::Hpj38 => seq![],
            EntityType::Mark12 => seq![],
            EntityType::Mark12X2 => seq![],
            EntityType::Mark49 => seq![],
            EntityType::Mark51 => seq![],
            EntityType::Mark7 => seq![],
            EntityType::MarkBViii => seq![],
            EntityType::Ogon => seq![],
            EntityType::OtoMelara76Mm => seq![],
            EntityType::RatepKomar => seq![],
            EntityType::Shtorm => seq![],
            EntityType::VickersMkH12In => seq![],
            EntityType::Blaster => seq![],
            EntityType::GreenBlaster => seq![],
            EntityType::VBlaster => seq![],
            EntityType::VProjector => seq![],
            EntityType::VMissiles => seq![],
            EntityType::_30X130MmR => seq![],
            EntityType::_30X165MmR => seq![],
            EntityType::_762X54MmR => seq![],
            EntityType::_200X1070MmR => seq![],
            EntityType::_127X680MmR => seq![],
            EntityType::_130X720MmR => seq![],
            EntityType::_75X667MmR => seq![],
            EntityType::_120X570MmR => seq![],
            EntityType::_25X129MmR => seq![],
            EntityType::_300X1400MmR => seq![],
            EntityType::_380X1700MmR => seq![],
            EntityType::_458X1980MmR => seq![],
            EntityType::_57X441MmR => seq![],
            EntityType::_76X636MmR => seq![],
            EntityType::_82R => seq![],
            EntityType::Asroc => seq![],
            EntityType::Barak8 => seq![],
            EntityType::Pl12 => seq![],
            EntityType::BrahMos => seq![],
            EntityType::Hellfire => seq![],
            EntityType::CannonBall => seq![],
            EntityType::Depositor => seq![],
            EntityType::Shovel => seq![],
            EntityType::Essm => seq![],
            EntityType::Exocet => seq![],
            EntityType::Harpoon => seq![],
            EntityType::Hq9 => seq![],
            EntityType::Igla => seq![],
            EntityType::Kalibr => seq![],
            EntityType::Lrlap => seq![],
            EntityType::Magic => seq![],
            EntityType::Mark18 => seq![],
            EntityType::Mark48 => seq![],
            EntityType::Mark54 => seq![],
            EntityType::Yu7 => seq![],
            EntityType::Mark8 => seq![],
            EntityType::Mark9 => seq![],
            EntityType::Mistral => seq![],
            EntityType::Nsm => seq![],
            EntityType::Of45 => seq![],
            EntityType::RP3 => seq![],
            EntityType::P15 => seq![],
            EntityType::P700 => seq![],
            EntityType::Rbs15 => seq![],
            EntityType::Rim116 => seq![],
            EntityType::Rpk6 => seq![],
            EntityType::S300 => seq![],
            EntityType::Set65 => seq![],
            EntityType::Tomahawk => seq![],
            EntityType::Torped45 => seq![],
            EntityType::Type53 => seq![],
            EntityType::V611 => seq![],
            EntityType::Vt1 => seq![],
            EntityType::Hq10SAM => seq![],
            EntityType::Ls6 => seq![],
            EntityType::Wz0839 => seq![],
            EntityType::Type96Bomb => seq![],
            EntityType::Mk82 => seq![],
            EntityType::Yj18 => seq![],
        }
    }

    /// The turret mounts declared for this type, in order.
    pub fn turret_decls(self) -> (r: Vec<MountDecl>)
        ensures
            r@ == self.spec_turret_decls(),
    {
        match self {
            EntityType::Abrams => vec![decl(Some(EntityType::AbramsTurret), 0i32, 0i32, 0i32, 1u8, false, false, false, false, None)],
            EntityType::Avenger => vec![],
            EntityType::J15 => vec![],
            EntityType::E4N => vec![],
            EntityType::TieFighter => vec![],
            EntityType::Harbin => vec![],
            EntityType::Ka25 => vec![],
            EntityType::Kingfisher => vec![],
            EntityType::Seahawk => vec![],
            EntityType::Type96 => vec![],
            EntityType::SuperEtendard => vec![],
            EntityType::SuperFrelon => vec![],
            EntityType::Z18 => vec![],
            EntityType::Akula => vec![],
            EntityType::Apache => vec![decl(Some(EntityType::M230), 3000i32, 0i32, 0i32, 1u8, false, false, false, false, None)],
            EntityType::ArleighBurke => vec![decl(None, -15250i32, 9400i32, 0i32, 1u8, false, false, false, false, None), decl(None, -15250i32, -9400i32, 0i32, 1u8, false, false, false, false, None), decl(Some(EntityType::Mark12), 51000i32, 0i32, 0i32, 1u8, false, false, false, false, None)],
            EntityType::Bismarck => vec![decl(Some(EntityType::_38CmSkc34), 67986i32, 0i32, 0i32, 1u8, false, false, false, false, None), decl(Some(EntityType::_38CmSkc34), 50672i32, 0i32, 0i32, 1u8, false, false, false, false, None), decl(Some(EntityType::_38CmSkc34), -55405i32, 0i32, 18000i32, 1u8, false, false, false, false, None), decl(Some(EntityType::_38CmSkc34), -73124i32, 0i32, 18000i32, 1u8, false, false, false, false, None)],
            EntityType::Buyan => vec![decl(Some(EntityType::A190), 20495i32, 0i32, 0i32, 1u8, false, false, false, false, None), decl(Some(EntityType::RatepKomar), 15624i32, 0i32, 0i32, 1u8, false, false, false, false, None), decl(Some(EntityType::RatepKomar), -17895i32, 0i32, 18000i32, 1u8, false, false, false, false, None)],
            EntityType::B2 => vec![],
            EntityType::Clemenceau => vec![decl(Some(EntityType::_100Mm), 71486i32, 16507i32, 0i32, 1u8, false, false, false, false, None), decl(Some(EntityType::_100Mm), 59623i32, 16507i32, 0i32, 1u8, false, false, false, false, None), decl(Some(EntityType::_100Mm), -80893i32, -19700i32, 17500i32, 1u8, false, false, false, false, None), decl(Some(EntityType::_100Mm), -93515i32, -19700i32, 17500i32, 1u8, false, false, false, false, None), decl(Some(EntityType::Crotale), 67967i32, -18774i32, 0i32, 1u8, false, false, false, false, None), decl(Some(EntityType::Crotale), -82558i32, 18046i32, 0i32, 1u8, false, false, false, false, None)],
            EntityType::Kaga => vec![decl(Some(EntityType::_200Mm), -37000i32, -20000i32, 0i32, 1u8, false, false, false, false, None), decl(Some(EntityType::_200Mm), -19500i32, -20000i32, 0i32, 1u8, false, false, false, false, None), decl(Some(EntityType::_200Mm), -37000i32, 19000i32, 0i32, 1u8, false, false, false, false, None), decl(Some(EntityType::_200Mm), -19500i32, 19000i32, 0i32, 1u8, false, false, false, false, None), decl(Some(EntityType::_200Mm), -5000i32, 19000i32, 0i32, 1u8, false, false, false, false, None), decl(Some(EntityType::_200Mm), 69700i32, 16000i32, 0i32, 1u8, false, false, false, false, None), decl(Some(EntityType::_200Mm), 70000i32, -16500i32, 0i32, 1u8, false, false, false, false, None), decl(Some(EntityType::_200Mm), 84600i32, -15000i32, 0i32, 1u8, false, false, false, false, None)],
            EntityType::Liaoning => vec![decl(Some(EntityType::Hq10), 70000i32, 18000i32, 0i32, 1u8, false, false, false, false, None), decl(Some(EntityType::Hq10), 68000i32, -21000i32, 0i32, 1u8, false, false, false, false, None), decl(Some(EntityType::Hq10), -126000i32, -26000i32, 0i32, 1u8, false, false, false, false, None), decl(Some(EntityType::Hq10), -114000i32, 24000i32, 0i32, 1u8, false, false, false, false, None), decl(Some(EntityType::Type730), -135000i32, -23000i32, 0i32, 1u8, false, false, false, false, None), decl(Some(EntityType::Type730), -125000i32, 23000i32, 0i32, 1u8, false, false, false, false, None)],
            EntityType::Chinook => vec![],
            EntityType::Catalina => vec![decl(Some(EntityType::_M1919), 7000i32, 0i32, 0i32, 1u8, true, false, false, false, None), decl(Some(EntityType::_M1919), -8000i32, 0i32, 18000i32, 1u8, false, false, false, false, None), decl(Some(EntityType::_M1919), -3000i32, 0i32, 0i32, 1u8, true, false, false, false, None)],
            EntityType::Spitfire => vec![decl(Some(EntityType::_M1919), 7000i32, 8000i32, 0i32, 1u8, true, false, false, false, None), decl(Some(EntityType::_M1919), 7000i32, 0i32, 0i32, 1u8, false, false, false, false, None)],
            EntityType::J20 => vec![],
            EntityType::F35 => vec![],
            EntityType::Dreadnought => vec![decl(Some(EntityType::MarkBViii), 37548i32, 0i32, 0i32, 1u8, false, false, false, false, None), decl(Some(EntityType::MarkBViii), 11900i32, 8043i32, 0i32, 1u8, true, false, false, false, None), decl(Some(EntityType::MarkBViii), -19231i32, 0i32, 18000i32, 1u8, false, false, false, false, None), decl(Some(EntityType::MarkBViii), -45518i32, 0i32, 18000i32, 1u8, false, false, false, false, None)],
            EntityType::Dredger => vec![decl(None, 43750i32, 0i32, 0i32, 1u8, false, false, false, false, None)],
            EntityType::Drone => vec![],
            EntityType::Espana => vec![decl(Some(EntityType::VickersMkH12In), 34956i32, 0i32, 0i32, 1u8, false, false, false, false, None), decl(Some(EntityType::VickersMkH12In), 13738i32, -6257i32, 0i32, 1u8, false, false, false, false, None), decl(Some(EntityType::VickersMkH12In), -15751i32, 6737i32, 18000i32, 1u8, false, false, false, false, None), decl(Some(EntityType::VickersMkH12In), -39847i32, 0i32, 18000i32, 1u8, false, false, false, false, None)],
            EntityType::Ekranoplan => vec![decl(Some(EntityType::_2M3M), 19000i32, 1000i32, 0i32, 1u8, true, false, false, false, None)],
            EntityType::Essex => vec![decl(Some(EntityType::Mark12X2), 46250i32, -12750i32, 0i32, 1u8, false, false, false, false, None), decl(Some(EntityType::Mark12X2), 38000i32, -12750i32, 0i32, 1u8, false, false, false, false, None), decl(Some(EntityType::Mark12X2), -23500i32, -12750i32, 18000i32, 1u8, false, false, false, false, None), decl(Some(EntityType::Mark12X2), -31500i32, -12750i32, 18000i32, 1u8, false, false, false, false, None)],
            EntityType::FairmileD => vec![decl(Some(EntityType::_6Pounder), 8000i32, 0i32, 0i32, 1u8, false, false, false, false, None), decl(Some(EntityType::_6Pounder), -11500i32, 0i32, 18000i32, 1u8, false, false, false, false, None)],
            EntityType::Fletcher => vec![decl(None, 2750i32, 0i32, 0i32, 1u8, false, false, false, false, None), decl(None, -13000i32, 0i32, 0i32, 1u8, false, false, false, false, None), decl(Some(EntityType::Mark12), 37750i32, 0i32, 0i32, 1u8, false, false, false, false, None), decl(Some(EntityType::Mark12), 30240i32, 0i32, 0i32, 1u8, false, false, false, false, None), decl(Some(EntityType::Mark12), -31070i32, 0i32, 18000i32, 1u8, false, false, false, false, None), decl(Some(EntityType::Mark12), -38610i32, 0i32, 18000i32, 1u8, false, false, false, false, None)],
            EntityType::Freccia => vec![decl(None, -9399i32, 0i32, 0i32, 1u8, false, false, false, false, None), decl(None, -21876i32, 0i32, 0i32, 1u8, false, false, false, false, None), decl(Some(EntityType::Ansaldo), 28882i32, 0i32, 0i32, 1u8, false, false, false, false, None), decl(Some(EntityType::Ansaldo), -31610i32, 0i32, 18000i32, 1u8, false, false, false, false, None)],
            EntityType::Freedom => vec![decl(Some(EntityType::Bofors57MmMk3), 33000i32, 0i32, 0i32, 1u8, false, false, false, false, None), decl(Some(EntityType::Mark49), -22500i32, 0i32, 18000i32, 1u8, false, false, false, false, None)],
            EntityType::G5 => vec![],
            EntityType::Golf => vec![],
            EntityType::Indiaman => vec![],
            EntityType::Iowa => vec![decl(Some(EntityType::Mark7), 59620i32, 0i32, 0i32, 1u8, false, false, false, false, None), decl(Some(EntityType::Mark7), 38250i32, 0i32, 0i32, 1u8, false, false, false, false, None), decl(Some(EntityType::Mark7), -65560i32, 0i32, 18000i32, 1u8, false, false, false, false, None)],
            EntityType::Kirov => vec![decl(Some(EntityType::Ak130), -66610i32, 0i32, 18000i32, 1u8, false, false, false, false, None), decl(Some(EntityType::Ak130), -79111i32, 0i32, 18000i32, 1u8, false, false, false, false, None)],
            EntityType::Kolkata => vec![decl(None, -2500i32, -2500i32, -9000i32, 1u8, false, false, false, false, None), decl(None, -5300i32, 2500i32, 9000i32, 1u8, false, false, false, false, None), decl(Some(EntityType::OtoMelara76Mm), 54000i32, 0i32, 0i32, 1u8, false, false, false, false, None)],
            EntityType::Komar => vec![decl(Some(EntityType::_2M3M), 3400i32, 800i32, 0i32, 1u8, false, false, false, false, None), decl(Some(EntityType::_2M3M), -8500i32, 0i32, 18000i32, 1u8, false, false, false, false, None)],
            EntityType::Leander => vec![decl(None, -3410i32, 6529i32, 18000i32, 1u8, false, false, false, false, None), decl(None, -3410i32, -6529i32, 18000i32, 1u8, false, false, false, false, None), decl(Some(EntityType::Bl6MkXxiii), 52775i32, 0i32, 0i32, 1u8, false, false, false, false, None), decl(Some(EntityType::Bl6MkXxiii), 43243i32, 0i32, 0i32, 1u8, false, false, false, false, None), decl(Some(EntityType::Bl6MkXxiii), -45325i32, 0i32, 18000i32, 1u8, false, false, false, false, None), decl(Some(EntityType::Bl6MkXxiii), -56328i32, 0i32, 18000i32, 1u8, false, false, false, false, None)],
            EntityType::Lublin => vec![],
            EntityType::Momi => vec![decl(None, 22150i32, 0i32, 0i32, 1u8, false, false, false, false, None), decl(None, -13850i32, 0i32, 0i32, 1u8, false, false, false, false, None), decl(Some(EntityType::Mark12), 30000i32, 0i32, 0i32, 1u8, false, false, false, false, None), decl(Some(EntityType::Mark12), 1500i32, 0i32, 18000i32, 1u8, false, false, false, false, None), decl(Some(EntityType::Mark12), -22500i32, 0i32, 18000i32, 1u8, false, false, false, false, None)],
            EntityType::Montana => vec![decl(Some(EntityType::Mark7), 74620i32, 0i32, 0i32, 1u8, false, false, false, false, None), decl(Some(EntityType::Mark7), 52500i32, 0i32, 0i32, 1u8, false, false, false, false, None), decl(Some(EntityType::Mark7), -47900i32, 0i32, 18000i32, 1u8, false, false, false, false, None), decl(Some(EntityType::Mark7), -69490i32, 0i32, 18000i32, 1u8, false, false, false, false, None)],
            EntityType::Moskva => vec![decl(Some(EntityType::Shtorm), 50304i32, 0i32, 0i32, 1u8, false, false, false, false, None), decl(Some(EntityType::Shtorm), 28689i32, 0i32, 0i32, 1u8, false, false, false, false, None)],
            EntityType::Oberon => vec![],
            EntityType::Ohio => vec![],
            EntityType::Olympias => vec![],
            EntityType::Osa => vec![decl(Some(EntityType::_2M3M), 10000i32, 0i32, 0i32, 1u8, false, false, false, false, None), decl(Some(EntityType::_2M3M), -16500i32, 0i32, 18000i32, 1u8, false, false, false, false, None)],
            EntityType::Pt34 => vec![],
            EntityType::Seawolf => vec![],
            EntityType::Skipjack => vec![],
            EntityType::Skjold => vec![decl(Some(EntityType::OtoMelara76Mm), 6027i32, 0i32, 0i32, 1u8, false, false, false, false, None)],
            EntityType::Sherman => vec![decl(Some(EntityType::ShermanTurret), -29i32, 0i32, 0i32, 1u8, false, false, false, false, None)],
            EntityType::StarDestroyer => vec![decl(Some(EntityType::Turbolaser), 130809i32, -215036i32, 0i32, 1u8, true, false, false, false, None), decl(Some(EntityType::Turbolaser), 72764i32, -232697i32, 0i32, 1u8, true, false, false, false, None), decl(Some(EntityType::Turbolaser), 19768i32, -249517i32, 0i32, 1u8, true, false, false, false, None), decl(Some(EntityType::Turbolaser), -259517i32, -335299i32, 0i32, 1u8, true, false, false, false, None)],
            EntityType::Tanker => vec![],
            EntityType::TerryFox => vec![],
            EntityType::Town => vec![decl(None, -20218i32, 8414i32, 0i32, 1u8, false, false, false, false, None), decl(None, -20218i32, -8414i32, 0i32, 1u8, false, false, false, false, None), decl(Some(EntityType::Bl6MkXxiiiX3), 59442i32, 0i32, 0i32, 1u8, false, false, false, false, None), decl(Some(EntityType::Bl6MkXxiiiX3), 48659i32, 0i32, 0i32, 1u8, false, false, false, false, None), decl(Some(EntityType::Bl6MkXxiiiX3), -47943i32, 0i32, 18000i32, 1u8, false, false, false, false, None), decl(Some(EntityType::Bl6MkXxiiiX3), -59108i32, 0i32, 18000i32, 1u8, false, false, false, false, None)],
            EntityType::Type055 => vec![decl(Some(EntityType::Hpj38), 58993i32, 0i32, 0i32, 1u8, false, false, false, false, None)],
            EntityType::TypeViic => vec![decl(Some(EntityType::_88CmSkc35), -4350i32, 0i32, 18000i32, 1u8, false, false, false, false, None)],
            EntityType::Ticonderoga => vec![],
            EntityType::Titanic => vec![],
            EntityType::Uap => vec![],
            EntityType::Vindicator => vec![],
            EntityType::Visby => vec![decl(None, -22000i32, 4500i32, 0i32, 1u8, false, false, false, false, None), decl(None, -22000i32, -4500i32, 0i32, 1u8, false, false, false, false, None), decl(Some(EntityType::Bofors57MmMk3), 20000i32, 0i32, 0i32, 1u8, false, false, false, false, None)],
            EntityType::Virginia => vec![],
            EntityType::Xwing => vec![],
            EntityType::Yamato => vec![decl(Some(EntityType::_45Type94), 51655i32, 0i32, 0i32, 1u8, false, false, false, false, None), decl(Some(EntityType::_45Type94), 29265i32, 0i32, 0i32, 1u8, false, false, false, false, None), decl(Some(EntityType::_45Type94), -64996i32, 0i32, 18000i32, 1u8, false, false, false, false, None)],
            EntityType::Yasen => vec![],
            EntityType::Zubr => vec![decl(Some(EntityType::Ogon), 15200i32, 0i32, 0i32, 1u8, false, false, false, false, None), decl(Some(EntityType::_2M3M), 10000i32, 6250i32, 0i32, 1u8, true, false, false, false, None)],
            EntityType::Lst => vec![decl(Some(EntityType::_2M3M), 10000i32, 0i32, 0i32, 1u8, false, false, false, false, None)],
            EntityType::Zudredger => vec![decl(None, 15000i32, 3000i32, 0i32, 1u8, false, false, false, false, None), decl(None, 15000i32, -3000i32, 0i32, 1u8, false, false, false, false, None)],
            EntityType::Zumwalt => vec![decl(Some(EntityType::Mark51), 49596i32, 0i32, 0i32, 1u8, false, false, false, false, None), decl(Some(EntityType::Mark51), 25288i32, 0i32, 0i32, 1u8, false, false, false, false, None)],
            EntityType::Barrel => vec![],
            EntityType::Coin => vec![],
            EntityType::Crate => vec![],
            EntityType::Scrap => vec![],
            EntityType::Brosok => vec![],
            EntityType::Mk70 => vec![],
            EntityType::Mk3 => vec![],
            EntityType::Moskit => vec![],
            EntityType::Jagm => vec![],
            EntityType::Acacia => vec![],
            EntityType::AverageTree => vec![],
            EntityType::Palm => vec![],
            EntityType::Hq => vec![],
            EntityType::OilPlatform => vec![],
            EntityType::SuperOilPlatform => vec![],
            EntityType::M230 => vec![],
            EntityType::Type730 => vec![],
            EntityType::Turbolaser => vec![],
            EntityType::ShermanTurret => vec![],
            EntityType::AbramsTurret => vec![],
            EntityType::_100Mm => vec![],
            EntityType::_200Mm => vec![],
            EntityType::_2M3M => vec![],
            EntityType::_38CmSkc34 => vec![],
            EntityType::_45Type94 => vec![],
            EntityType::_6Pounder => vec![],
            EntityType::_88CmSkc35 => vec![],
            EntityType::_M1919 => vec![],
            EntityType::A190 => vec![],
            EntityType::Ak130 => vec![],
            EntityType::Ansaldo => vec![],
            EntityType::Bl6MkXxiii => vec![],
            EntityType::Bl6MkXxiiiX3 => vec![],
            EntityType::Bofors57MmMk3 => vec![],
            EntityType::Crotale => vec![],
            EntityType::Hq10 => vec![],
            EntityType::Hpj38 => vec![],
            EntityType::Mark12 => vec![],
            EntityType::Mark12X2 => vec![],
            EntityType::Mark49 => vec![],
            EntityType::Mark51 => vec![],
            EntityType::Mark7 => vec![],
            EntityType::MarkBViii => vec![],
            EntityType::Ogon => vec![],
            EntityType::OtoMelara76Mm => vec![],
            EntityType::RatepKomar => vec![],
            EntityType::Shtorm => vec![],
            EntityType::VickersMkH12In => vec![],
            EntityType::Blaster => vec![],
            EntityType::GreenBlaster => vec![],
            EntityType::VBlaster => vec![],
            EntityType::VProjector => vec![],
            EntityType::VMissiles => vec![],
            EntityType::_30X130MmR => vec![],
            EntityType::_30X165MmR => vec![],
            EntityType::_762X54MmR => vec![],
            EntityType::_200X1070MmR => vec![],
            EntityType::_127X680MmR => vec![],
            EntityType::_130X720MmR => vec![],
            EntityType::_75X667MmR => vec![],
            EntityType::_120X570MmR => vec![],
            EntityType::_25X129MmR => vec![],
            EntityType::_300X1400MmR => vec![],
            EntityType::_380X1700MmR => vec![],
            EntityType::_458X1980MmR => vec![],
            EntityType::_57X441MmR => vec![],
            EntityType::_76X636MmR => vec![],
            EntityType::_82R => vec![],
            EntityType::Asroc => vec![],
            EntityType::Barak8 => vec![],
            EntityType::Pl12 => vec![],
            EntityType::BrahMos => vec![],
            EntityType::Hellfire => vec![],
            EntityType::CannonBall => vec![],
            EntityType::Depositor => vec![],
            EntityType::Shovel => vec![],
            EntityType::Essm => vec![],
            EntityType::Exocet => vec![],
            EntityType::Harpoon => vec![],
            EntityType::Hq9 => vec![],
            EntityType::Igla => vec![],
            EntityType::Kalibr => vec![],
            EntityType::Lrlap => vec![],
            EntityType::Magic => vec![],
            EntityType::Mark18 => vec![],
            EntityType::Mark48 => vec![],
            EntityType::Mark54 => vec![],
            EntityType::Yu7 => vec![],
            EntityType::Mark8 => vec![],
            EntityType::Mark9 => vec![],
            EntityType::Mistral => vec![],
            EntityType::Nsm => vec![],
            EntityType::Of45 => vec![],
            EntityType::RP3 => vec![],
            EntityType::P15 => vec![],
            EntityType::P700 => vec![],
            EntityType::Rbs15 => vec![],
            EntityType::Rim116 => vec![],
            EntityType::Rpk6 => vec![],
            EntityType::S300 => vec![],
            EntityType::Set65 => vec![],
            EntityType::Tomahawk => vec![],
            EntityType::Torped45 => vec![],
            EntityType::Type53 => vec![],
            EntityType::V611 => vec![],
            EntityType::Vt1 => vec![],
            EntityType::Hq10SAM => vec![],
            EntityType::Ls6 => vec![],
            EntityType::Wz0839 => vec![],
            EntityType::Type96Bomb => vec![],
            EntityType::Mk82 => vec![],
            EntityType::Yj18 => vec![],
        }
    }

    /// The armament mounts declared for this type, in order.
    pub open spec fn spec_armament_decls(self) -> Seq<MountDecl> {
        match self {
            EntityType::Abrams => seq![],
            EntityType::Avenger => seq![spec_decl(Some(EntityType::Mark18), 0i32, 0i32, 0i32, 1u8, false, false, false, false, None)],
            EntityType::J15 => seq![spec_decl(Some(EntityType::Yj18), 0i32, 0i32, 0i32, 1u8, false, false, false, false, None)],
            EntityType::E4N => seq![spec_decl(Some(EntityType::Mark18), 0i32, 0i32, 0i32, 1u8, false, false, false, false, None)],
            EntityType::TieFighter => seq![spec_decl(Some(EntityType::GreenBlaster), 0i32, 0i32, 0i32, 1u8, false, false, false, false, None)],
            EntityType::Harbin => seq![spec_decl(Some(EntityType::_82R), 1000i32, 1000i32, 0i32, 1u8, true, false, false, false, None)],
            EntityType::Ka25 => seq![spec_decl(Some(EntityType::_82R), 0i32, 1000i32, 0i32, 1u8, true, false, false, false, None)],
            EntityType::Kingfisher => seq![spec_decl(Some(EntityType::Mark18), 0i32, 0i32, 0i32, 1u8, false, false, false, false, None)],
            EntityType::Seahawk => seq![spec_decl(Some(EntityType::Mark54), 0i32, 1000i32, 0i32, 1u8, true, false, false, false, None)],
            EntityType::Type96 => seq![spec_decl(Some(EntityType::Type96Bomb), 0i32, 0i32, 0i32, 1u8, false, false, false, false, None)],
            EntityType::SuperEtendard => seq![spec_decl(Some(EntityType::Exocet), 0i32, 0i32, 0i32, 1u8, false, false, false, false, None), spec_decl(Some(EntityType::Magic), -1750i32, 2200i32, 0i32, 1u8, false, false, false, false, None)],
            EntityType::SuperFrelon => seq![spec_decl(Some(EntityType::Mark54), 0i32, 750i32, 0i32, 1u8, true, false, false, false, None)],
            EntityType::Z18 => seq![spec_decl(Some(EntityType::Yu7), 0i32, 0i32, 0i32, 1u8, false, false, false, false, None)],
            EntityType::Akula => seq![spec_decl(Some(EntityType::Set65), 50500i32, 1500i32, 0i32, 2u8, true, false, false, false, None), spec_decl(Some(EntityType::Set65), 51000i32, 600i32, 0i32, 2u8, true, false, false, false, None), spec_decl(Some(EntityType::Igla), 4865i32, 0i32, 0i32, 2u8, false, true, false, false, None), spec_decl(Some(EntityType::Brosok), 52000i32, 500i32, 0i32, 1u8, true, false, false, false, None)],
            EntityType::Apache => seq![spec_decl(Some(EntityType::Hellfire), 5000i32, 3000i32, 0i32, 1u8, true, false, false, true, None), spec_decl(Some(EntityType::Hellfire), 5000i32, 5000i32, 0i32, 1u8, true, false, false, true, None)],
            EntityType::ArleighBurke => seq![spec_decl(Some(EntityType::Mark54), 250i32, 250i32, 0i32, 1u8, true, false, true, false, Some(0u8)), spec_decl(Some(EntityType::Mark54), 250i32, 0i32, 0i32, 1u8, false, false, true, false, Some(0u8)), spec_decl(Some(EntityType::Mark54), 250i32, 250i32, 0i32, 1u8, true, false, true, false, Some(1u8)), spec_decl(Some(EntityType::Mark54), 250i32, 0i32, 0i32, 1u8, false, false, true, false, Some(1u8)), spec_decl(Some(EntityType::Harpoon), -10250i32, 5500i32, 9000i32, 1u8, true, false, true, false, None), spec_decl(Some(EntityType::Harpoon), -11000i32, 5500i32, 9000i32, 1u8, true, false, true, false, None), spec_decl(Some(EntityType::Harpoon), -10250i32, 5500i32, 9000i32, 1u8, true, false, true, false, None), spec_decl(Some(EntityType::Harpoon), -11000i32, 5500i32, 9000i32, 1u8, true, false, true, false, None), spec_decl(Some(EntityType::Essm), 39700i32, 1500i32, 0i32, 2u8, true, true, false, false, None), spec_decl(Some(EntityType::Seahawk), -62000i32, 0i32, 0i32, 1u8, false, false, true, false, None)],
            EntityType::Bismarck => seq![spec_decl(Some(EntityType::Kingfisher), -8750i32, 5000i32, 9000i32, 1u8, true, false, true, false, None)],
            EntityType::Buyan => seq![spec_decl(Some(EntityType::Kalibr), -3000i32, 320i32, 0i32, 1u8, true, true, false, false, None), spec_decl(Some(EntityType::Kalibr), -3800i32, 320i32, 0i32, 1u8, true, true, false, false, None)],
            EntityType::B2 => seq![spec_decl(Some(EntityType::Mk82), 0i32, 0i32, 0i32, 12u8, false, false, false, true, None)],
            EntityType::Clemenceau => seq![spec_decl(Some(EntityType::SuperEtendard), 69531i32, 4495i32, 300i32, 3u8, false, false, true, false, None), spec_decl(Some(EntityType::SuperEtendard), -29966i32, 12545i32, 850i32, 3u8, false, false, true, false, None), spec_decl(Some(EntityType::SuperFrelon), 47670i32, -12750i32, 0i32, 1u8, false, false, true, false, None), spec_decl(Some(EntityType::SuperFrelon), -44000i32, -13000i32, 0i32, 1u8, false, false, true, false, None)],
            EntityType::Kaga => seq![spec_decl(Some(EntityType::Type96), 54000i32, 0i32, 0i32, 1u8, false, false, true, false, None), spec_decl(Some(EntityType::Type96), 36000i32, 0i32, 0i32, 1u8, false, false, true, false, None), spec_decl(Some(EntityType::Type96), 18000i32, 0i32, 0i32, 1u8, false, false, true, false, None), spec_decl(Some(EntityType::Type96), 0i32, 0i32, 0i32, 1u8, false, false, true, false, None), spec_decl(Some(EntityType::Type96), -18000i32, 0i32, 0i32, 1u8, false, false, true, false, None), spec_decl(Some(EntityType::Type96), -36000i32, 0i32, 0i32, 1u8, false, false, true, false, None), spec_decl(Some(EntityType::Type96), -54000i32, 0i32, 0i32, 1u8, false, false, true, false, None), spec_decl(Some(EntityType::Type96), -72000i32, 0i32, 0i32, 1u8, false, false, true, false, None), spec_decl(Some(EntityType::Type96), 45000i32, 10000i32, 0i32, 1u8, true, false, true, false, None), spec_decl(Some(EntityType::Type96), 27000i32, 10000i32, 0i32, 1u8, true, false, true, false, None), spec_decl(Some(EntityType::Type96), 9000i32, 10000i32, 0i32, 1u8, true, false, true, false, None), spec_decl(Some(EntityType::Type96), -9000i32, 10000i32, 0i32, 1u8, true, false, true, false, None), spec_decl(Some(EntityType::Type96), -27000i32, 10000i32, 0i32, 1u8, true, false, true, false, None), spec_decl(Some(EntityType::Type96), -45000i32, 10000i32, 0i32, 1u8, true, false, true, false, None), spec_decl(Some(EntityType::Type96), -63000i32, 10000i32, 0i32, 1u8, true, false, true, false, None), spec_decl(Some(EntityType::Type96), -81000i32, 10000i32, 0i32, 1u8, true, false, true, false, None)],
            EntityType::Liaoning => seq![spec_decl(Some(EntityType::J15), -30000i32, -3000i32, 630i32, 2u8, false, false, true, false, None), spec_decl(Some(EntityType::J15), -10000i32, 15000i32, -1500i32, 2u8, false, false, true, false, None), spec_decl(Some(EntityType::J15), 25000i32, 3000i32, 0i32, 2u8, false, false, true, false, None), spec_decl(Some(EntityType::J15), -65000i32, 3000i32, 0i32, 2u8, false, false, true, false, None), spec_decl(Some(EntityType::J15), -125000i32, 3000i32, 0i32, 2u8, false, false, true, false, None), spec_decl(Some(EntityType::J15), -110000i32, -15000i32, 6000i32, 2u8, false, false, true, false, None), spec_decl(Some(EntityType::Z18), -80000i32, 20000i32, 0i32, 1u8, false, false, true, false, None), spec_decl(Some(EntityType::Z18), 30000i32, 22500i32, 0i32, 1u8, false, false, true, false, None), spec_decl(Some(EntityType::Z18), 40000i32, -18000i32, 0i32, 1u8, false, false, true, false, None)],
            EntityType::Chinook => seq![],
            EntityType::Catalina => seq![spec_decl(Some(EntityType::Wz0839), 2000i32, 0i32, 0i32, 1u8, false, false, false, true, None)],
            EntityType::Spitfire => seq![spec_decl(Some(EntityType::RP3), 8500i32, 8000i32, 0i32, 1u8, true, false, false, false, None)],
            EntityType::J20 => seq![spec_decl(Some(EntityType::Ls6), 2000i32, 0i32, 0i32, 4u8, false, false, false, true, None), spec_decl(Some(EntityType::Pl12), 2000i32, 0i32, 0i32, 8u8, false, false, false, true, None)],
            EntityType::F35 => seq![spec_decl(Some(EntityType::Jagm), -3000i32, 3000i32, 0i32, 1u8, true, false, false, false, None), spec_decl(Some(EntityType::Jagm), -3000i32, 3000i32, 0i32, 1u8, true, false, false, false, None), spec_decl(Some(EntityType::Jagm), -3000i32, 3000i32, 0i32, 1u8, true, false, false, false, None)],
            EntityType::Dreadnought => seq![spec_decl(Some(EntityType::Mark18), 45169i32, 7400i32, 9000i32, 1u8, true, false, false, false, None), spec_decl(Some(EntityType::Mark18), 44569i32, 7500i32, 9000i32, 1u8, true, false, false, false, None)],
            EntityType::Dredger => seq![spec_decl(Some(EntityType::Depositor), 7000i32, 0i32, 0i32, 1u8, false, false, true, false, Some(0u8))],
            EntityType::Drone => seq![],
            EntityType::Espana => seq![],
            EntityType::Ekranoplan => seq![spec_decl(Some(EntityType::Moskit), 6000i32, 1000i32, 0i32, 1u8, true, false, false, true, None), spec_decl(Some(EntityType::Moskit), 17000i32, 1000i32, 0i32, 1u8, true, false, false, true, None), spec_decl(Some(EntityType::Moskit), -5500i32, 1000i32, 0i32, 1u8, true, false, false, true, None)],
            EntityType::Essex => seq![spec_decl(Some(EntityType::Avenger), 16000i32, 0i32, 0i32, 1u8, false, false, true, false, None), spec_decl(Some(EntityType::Avenger), 0i32, 0i32, 0i32, 1u8, false, false, true, false, None), spec_decl(Some(EntityType::Avenger), -16000i32, 0i32, 0i32, 1u8, false, false, true, false, None), spec_decl(Some(EntityType::Avenger), -32000i32, 0i32, 0i32, 1u8, false, false, true, false, None), spec_decl(Some(EntityType::Avenger), -48000i32, 0i32, 0i32, 1u8, false, false, true, false, None), spec_decl(Some(EntityType::Avenger), -64000i32, 0i32, 0i32, 1u8, false, false, true, false, None)],
            EntityType::FairmileD => seq![spec_decl(Some(EntityType::Mark18), -7000i32, 2300i32, 750i32, 1u8, true, false, true, false, None), spec_decl(Some(EntityType::Mark9), 4500i32, 2500i32, 18400i32, 1u8, true, false, true, false, None), spec_decl(Some(EntityType::Mark9), 5000i32, 2550i32, 18400i32, 1u8, true, false, true, false, None)],
            EntityType::Fletcher => seq![spec_decl(Some(EntityType::Mark18), 250i32, 1066i32, 0i32, 1u8, true, false, true, false, Some(0u8)), spec_decl(Some(EntityType::Mark18), 250i32, 533i32, 0i32, 1u8, true, false, true, false, Some(0u8)), spec_decl(Some(EntityType::Mark18), 250i32, 0i32, 0i32, 1u8, false, false, true, false, Some(0u8)), spec_decl(Some(EntityType::Mark18), 250i32, 1066i32, 0i32, 1u8, true, false, true, false, Some(1u8)), spec_decl(Some(EntityType::Mark18), 250i32, 533i32, 0i32, 1u8, true, false, true, false, Some(1u8)), spec_decl(Some(EntityType::Mark18), 250i32, 0i32, 0i32, 1u8, false, false, true, false, Some(1u8)), spec_decl(Some(EntityType::Mark9), -55000i32, 0i32, 18000i32, 1u8, false, false, true, false, None), spec_decl(Some(EntityType::Mark9), -55500i32, 0i32, 18000i32, 1u8, false, false, true, false, None), spec_decl(Some(EntityType::Mark9), -56000i32, 0i32, 18000i32, 1u8, false, false, true, false, None), spec_decl(Some(EntityType::Mark9), -56500i32, 0i32, 18000i32, 1u8, false, false, true, false, None)],
            EntityType::Freccia => seq![spec_decl(Some(EntityType::Mark18), 250i32, 533i32, 0i32, 1u8, true, false, true, false, Some(0u8)), spec_decl(Some(EntityType::Mark18), 250i32, 0i32, 0i32, 1u8, false, false, true, false, Some(0u8)), spec_decl(Some(EntityType::Mark18), 250i32, 533i32, 0i32, 1u8, true, false, true, false, Some(1u8)), spec_decl(Some(EntityType::Mark18), 250i32, 0i32, 0i32, 1u8, false, false, true, false, Some(1u8)), spec_decl(Some(EntityType::Mark9), -45750i32, 1830i32, 18000i32, 1u8, true, false, true, false, None)],
            EntityType::Freedom => seq![spec_decl(Some(EntityType::Nsm), 26544i32, 4776i32, -5377i32, 2u8, true, false, false, false, None), spec_decl(Some(EntityType::Nsm), 27511i32, 5510i32, -5377i32, 2u8, true, false, false, false, None), spec_decl(Some(EntityType::Seahawk), -40000i32, 0i32, 0i32, 1u8, false, false, true, false, None)],
            EntityType::G5 => seq![spec_decl(Some(EntityType::Type53), -7000i32, 333i32, 0i32, 1u8, true, false, true, false, None)],
            EntityType::Golf => seq![spec_decl(Some(EntityType::Set65), 41000i32, 500i32, 0i32, 1u8, true, false, false, false, None), spec_decl(Some(EntityType::Set65), 41000i32, 500i32, 0i32, 1u8, true, false, false, false, None), spec_decl(Some(EntityType::Set65), 41000i32, 500i32, 0i32, 1u8, true, false, false, false, None)],
            EntityType::Indiaman => seq![spec_decl(Some(EntityType::CannonBall), 2724i32, 4483i32, 9000i32, 1u8, true, false, true, false, None), spec_decl(Some(EntityType::CannonBall), 7018i32, 4533i32, 8900i32, 1u8, true, false, true, false, None), spec_decl(Some(EntityType::CannonBall), -1483i32, 4311i32, 9100i32, 1u8, true, false, true, false, None), spec_decl(Some(EntityType::CannonBall), 11081i32, 4330i32, 8800i32, 1u8, true, false, true, false, None), spec_decl(Some(EntityType::CannonBall), -9853i32, 4311i32, 9200i32, 1u8, true, false, true, false, None)],
            EntityType::Iowa => seq![spec_decl(Some(EntityType::Tomahawk), -13450i32, 10748i32, -9000i32, 2u8, true, false, false, true, None), spec_decl(Some(EntityType::Tomahawk), -17080i32, 10748i32, -9000i32, 2u8, true, false, false, true, None), spec_decl(Some(EntityType::Tomahawk), -41020i32, 4450i32, 3000i32, 2u8, true, false, false, true, None), spec_decl(Some(EntityType::Tomahawk), -46985i32, 4451i32, 3000i32, 2u8, true, false, false, true, None), spec_decl(Some(EntityType::Seahawk), -121000i32, 0i32, 0i32, 1u8, false, false, true, false, None), spec_decl(Some(EntityType::Seahawk), -109000i32, -8000i32, -1500i32, 1u8, true, false, true, false, None)],
            EntityType::Kirov => seq![spec_decl(Some(EntityType::Set65), -50547i32, 10000i32, 9000i32, 1u8, true, false, false, false, None), spec_decl(Some(EntityType::Set65), -51047i32, 10000i32, 9000i32, 1u8, true, false, false, false, None), spec_decl(Some(EntityType::Set65), -51547i32, 10000i32, 9000i32, 1u8, true, false, false, false, None), spec_decl(Some(EntityType::Set65), -52047i32, 10000i32, 9000i32, 1u8, true, false, false, false, None), spec_decl(Some(EntityType::P700), 41000i32, 3500i32, 0i32, 4u8, true, false, false, true, None), spec_decl(Some(EntityType::S300), 61200i32, 4700i32, 0i32, 3u8, true, true, false, false, None), spec_decl(Some(EntityType::Ka25), -112400i32, 0i32, 0i32, 1u8, false, false, true, false, None)],
            EntityType::Kolkata => seq![spec_decl(Some(EntityType::Set65), 250i32, 250i32, 0i32, 1u8, true, false, true, false, Some(0u8)), spec_decl(Some(EntityType::Set65), 250i32, 250i32, 0i32, 1u8, true, false, true, false, Some(1u8)), spec_decl(Some(EntityType::BrahMos), 43400i32, 1400i32, 0i32, 3u8, true, true, false, false, None), spec_decl(Some(EntityType::Barak8), 37500i32, 2000i32, 0i32, 1u8, true, true, false, false, None), spec_decl(Some(EntityType::Barak8), -36300i32, 1500i32, 0i32, 1u8, true, true, false, false, None), spec_decl(Some(EntityType::Ka25), -70000i32, 0i32, 0i32, 1u8, false, false, true, false, None)],
            EntityType::Komar => seq![spec_decl(Some(EntityType::Type53), -500i32, 2300i32, 520i32, 1u8, true, false, true, false, None), spec_decl(Some(EntityType::Mark9), -11500i32, 1200i32, 18200i32, 1u8, true, false, true, false, None), spec_decl(Some(EntityType::Mark9), -12000i32, 1200i32, 18200i32, 1u8, true, false, true, false, None)],
            EntityType::Leander => seq![spec_decl(Some(EntityType::Mark18), 250i32, 260i32, 0i32, 1u8, true, false, true, false, Some(0u8)), spec_decl(Some(EntityType::Mark18), 250i32, 780i32, 0i32, 1u8, true, false, true, false, Some(0u8)), spec_decl(Some(EntityType::Mark18), 250i32, 260i32, 0i32, 1u8, true, false, true, false, Some(1u8)), spec_decl(Some(EntityType::Mark18), 250i32, 780i32, 0i32, 1u8, true, false, true, false, Some(1u8))],
            EntityType::Lublin => seq![spec_decl(Some(EntityType::Wz0839), -40000i32, 1750i32, 0i32, 1u8, true, false, true, false, None), spec_decl(Some(EntityType::Wz0839), -41000i32, 1750i32, 0i32, 1u8, true, false, true, false, None), spec_decl(Some(EntityType::Wz0839), -42000i32, 1750i32, 0i32, 1u8, true, false, true, false, None)],
            EntityType::Momi => seq![spec_decl(Some(EntityType::Mark18), 250i32, 300i32, 0i32, 1u8, true, false, true, false, Some(0u8)), spec_decl(Some(EntityType::Mark18), 250i32, 300i32, 0i32, 1u8, true, false, true, false, Some(1u8)), spec_decl(Some(EntityType::Mark9), -42000i32, 1400i32, 18000i32, 1u8, true, false, true, false, None), spec_decl(Some(EntityType::Mark9), -41500i32, 1400i32, 18000i32, 1u8, true, false, true, false, None)],
            EntityType::Montana => seq![spec_decl(Some(EntityType::Kingfisher), -122000i32, 8500i32, 1750i32, 1u8, true, false, true, false, None)],
            EntityType::Moskva => seq![spec_decl(Some(EntityType::Ka25), -23535i32, 7743i32, 0i32, 1u8, false, false, true, false, None), spec_decl(Some(EntityType::Ka25), -38651i32, -8017i32, 0i32, 1u8, false, false, true, false, None), spec_decl(Some(EntityType::Ka25), -64797i32, 7395i32, 0i32, 1u8, false, false, true, false, None), spec_decl(Some(EntityType::Ka25), -84786i32, -2818i32, 0i32, 1u8, false, false, true, false, None), spec_decl(Some(EntityType::Set65), -3022i32, 10358i32, 9000i32, 1u8, true, false, false, false, None), spec_decl(Some(EntityType::Set65), -3622i32, 10358i32, 9000i32, 1u8, true, false, false, false, None), spec_decl(Some(EntityType::Set65), -4222i32, 10358i32, 9000i32, 1u8, true, false, false, false, None), spec_decl(Some(EntityType::Set65), -4822i32, 10358i32, 9000i32, 1u8, true, false, false, false, None), spec_decl(Some(EntityType::Set65), -5422i32, 10358i32, 9000i32, 1u8, true, false, false, false, None)],
            EntityType::Oberon => seq![spec_decl(Some(EntityType::Mark18), 40000i32, 500i32, 200i32, 3u8, true, false, false, false, None), spec_decl(Some(EntityType::Mark18), -41400i32, 300i32, 18000i32, 1u8, true, false, false, false, None)],
            EntityType::Ohio => seq![spec_decl(Some(EntityType::Mark48), 72000i32, 5000i32, 0i32, 1u8, true, false, false, false, None), spec_decl(Some(EntityType::Mark48), 72000i32, 5000i32, 0i32, 1u8, true, false, false, false, None), spec_decl(Some(EntityType::Mk70), 72000i32, 5000i32, 0i32, 1u8, false, false, false, true, None), spec_decl(Some(EntityType::Tomahawk), 30300i32, 2000i32, 0i32, 1u8, true, true, false, false, None), spec_decl(Some(EntityType::Tomahawk), 23700i32, 2000i32, 0i32, 1u8, true, true, false, false, None), spec_decl(Some(EntityType::Tomahawk), 17200i32, 2000i32, 0i32, 1u8, true, true, false, false, None), spec_decl(Some(EntityType::Tomahawk), 10750i32, 2000i32, 0i32, 1u8, true, true, false, false, None), spec_decl(Some(EntityType::Tomahawk), 4250i32, 2000i32, 0i32, 1u8, true, true, false, false, None)],
            EntityType::Olympias => seq![],
            EntityType::Osa => seq![spec_decl(Some(EntityType::P15), -1750i32, 2500i32, 200i32, 1u8, true, false, false, false, None), spec_decl(Some(EntityType::P15), -12000i32, 2500i32, 200i32, 1u8, true, false, false, false, None)],
            EntityType::Pt34 => seq![spec_decl(Some(EntityType::Mark18), 0i32, 2500i32, 450i32, 1u8, true, false, true, false, None), spec_decl(Some(EntityType::Mark18), -8000i32, 1800i32, 450i32, 1u8, true, false, true, false, None)],
            EntityType::Seawolf => seq![spec_decl(Some(EntityType::Mark48), 37785i32, 4734i32, 0i32, 4u8, true, false, false, false, None), spec_decl(Some(EntityType::Mk70), 37785i32, 4734i32, 0i32, 1u8, true, false, false, true, None)],
            EntityType::Skipjack => seq![spec_decl(Some(EntityType::Mark48), 33750i32, 700i32, 0i32, 1u8, true, false, false, false, None), spec_decl(Some(EntityType::Mark48), 33750i32, 700i32, 0i32, 1u8, true, false, false, false, None), spec_decl(Some(EntityType::Mk70), 33750i32, 700i32, 0i32, 1u8, false, false, false, true, None), spec_decl(Some(EntityType::Harpoon), 34000i32, 0i32, 0i32, 1u8, true, false, false, false, None)],
            EntityType::Skjold => seq![spec_decl(Some(EntityType::Nsm), -19029i32, -1960i32, -2376i32, 2u8, true, false, false, false, None), spec_decl(Some(EntityType::Nsm), -19375i32, -2887i32, -2376i32, 2u8, true, false, false, false, None), spec_decl(Some(EntityType::Mistral), -6082i32, -4513i32, 0i32, 3u8, true, true, false, false, None)],
            EntityType::Sherman => seq![],
            EntityType::StarDestroyer => seq![spec_decl(Some(EntityType::TieFighter), 0i32, 0i32, 0i32, 12u8, false, false, false, true, None)],
            EntityType::Tanker => seq![],
            EntityType::TerryFox => seq![],
            EntityType::Town => seq![spec_decl(Some(EntityType::Mark18), 250i32, 0i32, 0i32, 1u8, false, false, true, false, Some(0u8)), spec_decl(Some(EntityType::Mark18), 250i32, 520i32, 0i32, 1u8, true, false, true, false, Some(0u8)), spec_decl(Some(EntityType::Mark18), 250i32, 0i32, 0i32, 1u8, false, false, true, false, Some(1u8)), spec_decl(Some(EntityType::Mark18), 250i32, 520i32, 0i32, 1u8, true, false, true, false, Some(1u8)), spec_decl(Some(EntityType::Kingfisher), 4821i32, 0i32, 0i32, 1u8, false, false, true, false, None)],
            EntityType::Type055 => seq![spec_decl(Some(EntityType::Yj18), 41400i32, 2000i32, 0i32, 4u8, true, true, false, false, None), spec_decl(Some(EntityType::_82R), -39836i32, 8000i32, 9000i32, 1u8, true, false, false, false, None), spec_decl(Some(EntityType::_82R), -40436i32, 8000i32, 9000i32, 1u8, true, false, false, false, None), spec_decl(Some(EntityType::_82R), -41036i32, 8000i32, 9000i32, 1u8, true, false, false, false, None), spec_decl(Some(EntityType::Hq9), 46500i32, 2000i32, 0i32, 1u8, true, true, false, false, None), spec_decl(Some(EntityType::Hq9), -33835i32, 2000i32, 0i32, 2u8, true, true, false, false, None), spec_decl(Some(EntityType::Harbin), -79880i32, 0i32, 0i32, 1u8, false, false, true, false, None)],
            EntityType::TypeViic => seq![spec_decl(Some(EntityType::Mark18), 26000i32, 333i32, 200i32, 1u8, true, false, false, false, None), spec_decl(Some(EntityType::Mark18), 25000i32, 666i32, 200i32, 1u8, true, false, false, false, None), spec_decl(Some(EntityType::Mark18), -30000i32, 0i32, 18000i32, 1u8, false, false, false, false, None)],
            EntityType::Ticonderoga => seq![spec_decl(Some(EntityType::Seahawk), -42000i32, 0i32, 0i32, 2u8, false, false, true, false, None), spec_decl(Some(EntityType::Harpoon), 43000i32, 0i32, 0i32, 4u8, false, true, false, false, None), spec_decl(Some(EntityType::Harpoon), -62000i32, 0i32, 0i32, 4u8, false, true, false, false, None), spec_decl(Some(EntityType::Tomahawk), 43000i32, 0i32, 0i32, 6u8, false, true, false, false, None), spec_decl(Some(EntityType::Tomahawk), -62000i32, 0i32, 0i32, 6u8, false, true, false, false, None), spec_decl(Some(EntityType::Asroc), 43000i32, 0i32, 0i32, 2u8, false, true, false, false, None), spec_decl(Some(EntityType::Mk3), -85000i32, 0i32, -18000i32, 1u8, false, false, false, true, None)],
            EntityType::Titanic => seq![],
            EntityType::Uap => seq![],
            EntityType::Vindicator => seq![spec_decl(Some(EntityType::VBlaster), 5000i32, 0i32, 0i32, 8u8, false, false, false, true, None), spec_decl(Some(EntityType::VMissiles), 5000i32, 0i32, 0i32, 8u8, false, false, false, true, None), spec_decl(Some(EntityType::VProjector), 5000i32, 0i32, 0i32, 1u8, false, false, false, true, None)],
            EntityType::Visby => seq![spec_decl(Some(EntityType::Torped45), 250i32, 150i32, 0i32, 1u8, true, false, true, false, Some(0u8)), spec_decl(Some(EntityType::Torped45), 250i32, 150i32, 0i32, 1u8, true, false, true, false, Some(1u8)), spec_decl(Some(EntityType::Rbs15), -2250i32, 3500i32, 9000i32, 1u8, true, false, true, false, None), spec_decl(Some(EntityType::Rbs15), -3000i32, 3500i32, 9000i32, 1u8, true, false, true, false, None), spec_decl(Some(EntityType::Rbs15), -2250i32, 3500i32, 9000i32, 1u8, true, false, true, false, None), spec_decl(Some(EntityType::Rbs15), -3000i32, 3500i32, 9000i32, 1u8, true, false, true, false, None), spec_decl(Some(EntityType::Seahawk), -23000i32, 0i32, 0i32, 1u8, false, false, true, false, None)],
            EntityType::Virginia => seq![spec_decl(Some(EntityType::Mark48), 37785i32, 4734i32, 0i32, 4u8, true, false, false, false, None), spec_decl(Some(EntityType::Mk3), 37785i32, 4734i32, 0i32, 1u8, true, false, false, true, None), spec_decl(Some(EntityType::Tomahawk), 30300i32, 2000i32, 0i32, 1u8, true, true, false, false, None), spec_decl(Some(EntityType::Tomahawk), 23700i32, 2000i32, 0i32, 1u8, true, true, false, false, None), spec_decl(Some(EntityType::Tomahawk), 17200i32, 2000i32, 0i32, 1u8, true, true, false, false, None)],
            EntityType::Xwing => seq![spec_decl(Some(EntityType::Blaster), 2000i32, 5600i32, 0i32, 4u8, true, false, false, true, None)],
            EntityType::Yamato => seq![spec_decl(Some(EntityType::E4N), -115239i32, 9903i32, 17400i32, 1u8, true, false, true, false, None), spec_decl(Some(EntityType::E4N), -100891i32, 11168i32, 18681i32, 1u8, true, false, true, false, None)],
            EntityType::Yasen => seq![spec_decl(Some(EntityType::Set65), 41000i32, 5750i32, 200i32, 3u8, true, false, false, false, None), spec_decl(Some(EntityType::Rpk6), 41000i32, 5750i32, 200i32, 2u8, true, false, false, false, None), spec_decl(Some(EntityType::BrahMos), -4500i32, 2000i32, 0i32, 1u8, true, true, false, false, None), spec_decl(Some(EntityType::BrahMos), -7000i32, 2000i32, 0i32, 1u8, true, true, false, false, None), spec_decl(Some(EntityType::Igla), 29190i32, 0i32, 0i32, 4u8, false, true, false, false, None), spec_decl(Some(EntityType::Brosok), 43000i32, 3000i32, 0i32, 1u8, true, false, false, false, None), spec_decl(Some(EntityType::Brosok), -16500i32, 1500i32, -18000i32, 1u8, true, false, false, false, None)],
            EntityType::Zubr => seq![],
            EntityType::Lst => seq![],
            EntityType::Zudredger => seq![spec_decl(Some(EntityType::Depositor), 7000i32, 0i32, 0i32, 1u8, false, false, true, false, Some(0u8)), spec_decl(Some(EntityType::Shovel), 7000i32, 0i32, 0i32, 1u8, false, false, true, false, Some(1u8))],
            EntityType::Zumwalt => seq![spec_decl(Some(EntityType::Tomahawk), 16000i32, 9000i32, 0i32, 2u8, true, true, false, false, None), spec_decl(Some(EntityType::Tomahawk), -51500i32, 9000i32, 0i32, 2u8, true, true, false, false, None), spec_decl(Some(EntityType::Asroc), 39500i32, 5500i32, 0i32, 2u8, true, true, false, false, None), spec_decl(Some(EntityType::Essm), 35000i32, 6000i32, 0i32, 2u8, true, true, false, false, None), spec_decl(Some(EntityType::Essm), -56000i32, 9000i32, 0i32, 2u8, true, true, false, false, None), spec_decl(Some(EntityType::Seahawk), -65000i32, 0i32, 0i32, 1u8, false, false, true, false, None)],
            EntityType::Barrel => seq![],
            EntityType::Coin => seq![],
            EntityType::Crate => seq![],
            EntityType::Scrap => seq![],
            EntityType::Brosok => seq![],
            EntityType::Mk70 => seq![],
            EntityType::Mk3 => seq![],
            EntityType::Moskit => seq![],
            EntityType::Jagm => seq![],
            EntityType::Acacia => seq![],
            EntityType::AverageTree => seq![],
            EntityType::Palm => seq![],
            EntityType::Hq => seq![],
            EntityType::OilPlatform => seq![],
            EntityType::SuperOilPlatform => seq![],
            EntityType::M230 => seq![spec_decl(Some(EntityType::_30X130MmR), 0i32, 0i32, 0i32, 12u8, false, false, false, false, None)],
            EntityType::Type730 => seq![spec_decl(Some(EntityType::_30X165MmR), 1100i32, 0i32, 0i32, 4u8, false, false, false, false, None)],
            EntityType::Turbolaser => seq![spec_decl(Some(EntityType::Blaster), 0i32, 0i32, 0i32, 1u8, false, false, false, false, None)],
            EntityType::ShermanTurret => seq![spec_decl(Some(EntityType::_75X667MmR), 0i32, 0i32, 0i32, 1u8, false, false, false, false, None)],
            EntityType::AbramsTurret => seq![spec_decl(Some(EntityType::_120X570MmR), 0i32, 0i32, 0i32, 1u8, false, false, false, false, None)],
            EntityType::_100Mm => seq![spec_decl(Some(EntityType::_127X680MmR), 2000i32, 0i32, 0i32, 1u8, false, false, false, false, None)],
            EntityType::_200Mm => seq![spec_decl(Some(EntityType::_200X1070MmR), 2000i32, 0i32, 0i32, 1u8, false, false, false, false, None)],
            EntityType::_2M3M => seq![spec_decl(Some(EntityType::_25X129MmR), 500i32, 0i32, 0i32, 1u8, false, false, true, false, None)],
            EntityType::_38CmSkc34 => seq![spec_decl(Some(EntityType::_380X1700MmR), 12000i32, 4500i32, 0i32, 1u8, true, false, false, true, None)],
            EntityType::_45Type94 => seq![spec_decl(Some(EntityType::_458X1980MmR), 5700i32, 3100i32, 0i32, 1u8, true, false, false, true, None), spec_decl(Some(EntityType::_458X1980MmR), 5700i32, 0i32, 0i32, 1u8, false, false, false, true, None)],
            EntityType::_6Pounder => seq![spec_decl(Some(EntityType::_57X441MmR), 500i32, 0i32, 0i32, 1u8, false, false, false, true, None)],
            EntityType::_88CmSkc35 => seq![spec_decl(Some(EntityType::_57X441MmR), 500i32, 0i32, 0i32, 1u8, false, false, false, true, None)],
            EntityType::_M1919 => seq![spec_decl(Some(EntityType::_762X54MmR), 265i32, 0i32, 0i32, 1u8, false, false, false, true, None)],
            EntityType::A190 => seq![spec_decl(Some(EntityType::_130X720MmR), 0i32, 0i32, 0i32, 1u8, false, false, false, false, None)],
            EntityType::Ak130 => seq![spec_decl(Some(EntityType::_130X720MmR), 0i32, 0i32, 0i32, 1u8, false, false, false, false, None)],
            EntityType::Ansaldo => seq![spec_decl(Some(EntityType::_127X680MmR), 2000i32, 315i32, 0i32, 1u8, true, false, false, false, None)],
            EntityType::Bl6MkXxiii => seq![spec_decl(Some(EntityType::_127X680MmR), 1000i32, 2000i32, 0i32, 1u8, true, false, true, false, None)],
            EntityType::Bl6MkXxiiiX3 => seq![spec_decl(Some(EntityType::_127X680MmR), 1000i32, 0i32, 0i32, 1u8, false, false, true, false, None), spec_decl(Some(EntityType::_127X680MmR), 1000i32, 3000i32, 0i32, 1u8, true, false, true, false, None)],
            EntityType::Bofors57MmMk3 => seq![spec_decl(Some(EntityType::_57X441MmR), 2000i32, 0i32, 0i32, 1u8, false, false, false, true, None)],
            EntityType::Crotale => seq![spec_decl(Some(EntityType::Vt1), 0i32, 947i32, 0i32, 1u8, true, false, false, false, None)],
            EntityType::Hq10 => seq![spec_decl(Some(EntityType::Hq10SAM), 800i32, 0i32, 0i32, 2u8, false, false, false, false, None)],
            EntityType::Hpj38 => seq![spec_decl(Some(EntityType::_130X720MmR), 2000i32, 0i32, 0i32, 1u8, false, false, false, false, None)],
            EntityType::Mark12 => seq![spec_decl(Some(EntityType::_127X680MmR), 2000i32, 0i32, 0i32, 1u8, false, false, false, false, None)],
            EntityType::Mark12X2 => seq![spec_decl(Some(EntityType::_127X680MmR), 2000i32, 727i32, 0i32, 1u8, true, false, false, false, None)],
            EntityType::Mark49 => seq![spec_decl(Some(EntityType::Rim116), 0i32, 0i32, 0i32, 8u8, false, false, false, true, None)],
            EntityType::Mark51 => seq![spec_decl(Some(EntityType::Lrlap), 0i32, 0i32, 0i32, 1u8, false, false, false, false, None)],
            EntityType::Mark7 => seq![spec_decl(Some(EntityType::Mark8), 12000i32, 3160i32, 0i32, 1u8, true, false, false, true, None), spec_decl(Some(EntityType::Mark8), 12000i32, 0i32, 0i32, 1u8, false, false, false, true, None)],
            EntityType::MarkBViii => seq![spec_decl(Some(EntityType::_300X1400MmR), 3000i32, 1198i32, 0i32, 1u8, true, false, false, false, None)],
            EntityType::Ogon => seq![spec_decl(Some(EntityType::Of45), 0i32, 0i32, 0i32, 1u8, false, false, false, true, None), spec_decl(Some(EntityType::Of45), 0i32, 300i32, 0i32, 1u8, true, false, false, true, None), spec_decl(Some(EntityType::Of45), 0i32, 600i32, 0i32, 1u8, true, false, false, true, None), spec_decl(Some(EntityType::Of45), 0i32, 900i32, 0i32, 1u8, true, false, false, true, None), spec_decl(Some(EntityType::Of45), 0i32, 1200i32, 0i32, 1u8, true, false, false, true, None)],
            EntityType::OtoMelara76Mm => seq![spec_decl(Some(EntityType::_76X636MmR), 2000i32, 0i32, 0i32, 1u8, false, false, false, false, None)],
            EntityType::RatepKomar => seq![spec_decl(Some(EntityType::Igla), 0i32, 750i32, 0i32, 1u8, true, false, false, false, None)],
            EntityType::Shtorm => seq![spec_decl(Some(EntityType::V611), 140i32, 1308i32, 0i32, 1u8, true, false, true, false, None)],
            EntityType::VickersMkH12In => seq![spec_decl(Some(EntityType::_300X1400MmR), 3000i32, 727i32, 0i32, 1u8, true, false, false, false, None)],
            EntityType::Blaster => seq![],
            EntityType::GreenBlaster => seq![],
            EntityType::VBlaster => seq![],
            EntityType::VProjector => seq![],
            EntityType::VMissiles => seq![],
            EntityType::_30X130MmR => seq![],
            EntityType::_30X165MmR => seq![],
            EntityType::_762X54MmR => seq![],
            EntityType::_200X1070MmR => seq![],
            EntityType::_127X680MmR => seq![],
            EntityType::_130X720MmR => seq![],
            EntityType::_75X667MmR => seq![],
            EntityType::_120X570MmR => seq![],
            EntityType::_25X129MmR => seq![],
            EntityType::_300X1400MmR => seq![],
            EntityType::_380X1700MmR => seq![],
            EntityType::_458X1980MmR => seq![],
            EntityType::_57X441MmR => seq![],
            EntityType::_76X636MmR => seq![],
            EntityType::_82R => seq![],
            EntityType::Asroc => seq![spec_decl(Some(EntityType::Mark54), 0i32, 0i32, 0i32, 1u8, false, false, false, false, None)],
            EntityType::Barak8 => seq![],
            EntityType::Pl12 => seq![],
            EntityType::BrahMos => seq![],
            EntityType::Hellfire => seq![],
            EntityType::CannonBall => seq![],
            EntityType::Depositor => seq![],
            EntityType::Shovel => seq![],
            EntityType::Essm => seq![],
            EntityType::Exocet => seq![],
            EntityType::Harpoon => seq![],
            EntityType::Hq9 => seq![],
            EntityType::Igla => seq![],
            EntityType::Kalibr => seq![],
            EntityType::Lrlap => seq![],
            EntityType::Magic => seq![],
            EntityType::Mark18 => seq![],
            EntityType::Mark48 => seq![],
            EntityType::Mark54 => seq![],
            EntityType::Yu7 => seq![],
            EntityType::Mark8 => seq![],
            EntityType::Mark9 => seq![],
            EntityType::Mistral => seq![],
            EntityType::Nsm => seq![],
            EntityType::Of45 => seq![],
            EntityType::RP3 => seq![],
            EntityType::P15 => seq![],
            EntityType::P700 => seq![],
            EntityType::Rbs15 => seq![],
            EntityType::Rim116 => seq![],
            EntityType::Rpk6 => seq![spec_decl(Some(EntityType::_82R), 0i32, 0i32, 0i32, 1u8, false, false, false, false, None)],
            EntityType::S300 => seq![],
            EntityType::Set65 => seq![],
            EntityType::Tomahawk => seq![],
            EntityType::Torped45 => seq![],
            EntityType::Type53 => seq![],
            EntityType::V611 => seq![],
            EntityType::Vt1 => seq![],
            EntityType::Hq10SAM => seq![],
            EntityType::Ls6 => seq![],
            EntityType::Wz0839 => seq![],
            EntityType::Type96Bomb => seq![],
            EntityType::Mk82 => seq![],
            EntityType::Yj18 => seq![],
        }
    }

    /// The armament mounts declared for this type, in order.
    pub fn armament_decls(self) -> (r: Vec<MountDecl>)
        ensures
            r@ == self.spec_armament_decls(),
    {
        match self {
            EntityType::Abrams => vec![],
            EntityType::Avenger => vec![decl(Some(EntityType::Mark18), 0i32, 0i32, 0i32, 1u8, false, false, false, false, None)],
            EntityType::J15 => vec![decl(Some(EntityType::Yj18), 0i32, 0i32, 0i32, 1u8, false, false, false, false, None)],
            EntityType::E4N => vec![decl(Some(EntityType::Mark18), 0i32, 0i32, 0i32, 1u8, false, false, false, false, None)],
            EntityType::TieFighter => vec![decl(Some(EntityType::GreenBlaster), 0i32, 0i32, 0i32, 1u8, false, false, false, false, None)],
            EntityType::Harbin => vec![decl(Some(EntityType::_82R), 1000i32, 1000i32, 0i32, 1u8, true, false, false, false, None)],
            EntityType::Ka25 => vec![decl(Some(EntityType::_82R), 0i32, 1000i32, 0i32, 1u8, true, false, false, false, None)],
            EntityType::Kingfisher => vec![decl(Some(EntityType::Mark18), 0i32, 0i32, 0i32, 1u8, false, false, false, false, None)],
            EntityType::Seahawk => vec![decl(Some(EntityType::Mark54), 0i32, 1000i32, 0i32, 1u8, true, false, false, false, None)],
            EntityType::Type96 => vec![decl(Some(EntityType::Type96Bomb), 0i32, 0i32, 0i32, 1u8, false, false, false, false, None)],
            EntityType::SuperEtendard => vec![decl(Some(EntityType::Exocet), 0i32, 0i32, 0i32, 1u8, false, false, false, false, None), decl(Some(EntityType::Magic), -1750i32, 2200i32, 0i32, 1u8, false, false, false, false, None)],
            EntityType::SuperFrelon => vec![decl(Some(EntityType::Mark54), 0i32, 750i32, 0i32, 1u8, true, false, false, false, None)],
            EntityType::Z18 => vec![decl(Some(EntityType::Yu7), 0i32, 0i32, 0i32, 1u8, false, false, false, false, None)],
            EntityType::Akula => vec![decl(Some(EntityType::Set65), 50500i32, 1500i32, 0i32, 2u8, true, false, false, false, None), decl(Some(EntityType::Set65), 51000i32, 600i32, 0i32, 2u8, true, false, false, false, None), decl(Some(EntityType::Igla), 4865i32, 0i32, 0i32, 2u8, false, true, false, false, None), decl(Some(EntityType::Brosok), 52000i32, 500i32, 0i32, 1u8, true, false, false, false, None)],
            EntityType::Apache => vec![decl(Some(EntityType::Hellfire), 5000i32, 3000i32, 0i32, 1u8, true, false, false, true, None), decl(Some(EntityType::Hellfire), 5000i32, 5000i32, 0i32, 1u8, true, false, false, true, None)],
            EntityType::ArleighBurke => vec![decl(Some(EntityType::Mark54), 250i32, 250i32, 0i32, 1u8, true, false, true, false, Some(0u8)), decl(Some(EntityType::Mark54), 250i32, 0i32, 0i32, 1u8, false, false, true, false, Some(0u8)), decl(Some(EntityType::Mark54), 250i32, 250i32, 0i32, 1u8, true, false, true, false, Some(1u8)), decl(Some(EntityType::Mark54), 250i32, 0i32, 0i32, 1u8, false, false, true, false, Some(1u8)), decl(Some(EntityType::Harpoon), -10250i32, 5500i32, 9000i32, 1u8, true, false, true, false, None), decl(Some(EntityType::Harpoon), -11000i32, 5500i32, 9000i32, 1u8, true, false, true, false, None), decl(Some(EntityType::Harpoon), -10250i32, 5500i32, 9000i32, 1u8, true, false, true, false, None), decl(Some(EntityType::Harpoon), -11000i32, 5500i32, 9000i32, 1u8, true, false, true, false, None), decl(Some(EntityType::Essm), 39700i32, 1500i32, 0i32, 2u8, true, true, false, false, None), decl(Some(EntityType::Seahawk), -62000i32, 0i32, 0i32, 1u8, false, false, true, false, None)],
            EntityType::Bismarck => vec![decl(Some(EntityType::Kingfisher), -8750i32, 5000i32, 9000i32, 1u8, true, false, true, false, None)],
            EntityType::Buyan => vec![decl(Some(EntityType::Kalibr), -3000i32, 320i32, 0i32, 1u8, true, true, false, false, None), decl(Some(EntityType::Kalibr), -3800i32, 320i32, 0i32, 1u8, true, true, false, false, None)],
            EntityType::B2 => vec![decl(Some(EntityType::Mk82), 0i32, 0i32, 0i32, 12u8, false, false, false, true, None)],
            EntityType::Clemenceau => vec![decl(Some(EntityType::SuperEtendard), 69531i32, 4495i32, 300i32, 3u8, false, false, true, false, None), decl(Some(EntityType::SuperEtendard), -29966i32, 12545i32, 850i32, 3u8, false, false, true, false, None), decl(Some(EntityType::SuperFrelon), 47670i32, -12750i32, 0i32, 1u8, false, false, true, false, None), decl(Some(EntityType::SuperFrelon), -44000i32, -13000i32, 0i32, 1u8, false, false, true, false, None)],
            EntityType::Kaga => vec![decl(Some(EntityType::Type96), 54000i32, 0i32, 0i32, 1u8, false, false, true, false, None), decl(Some(EntityType::Type96), 36000i32, 0i32, 0i32, 1u8, false, false, true, false, None), decl(Some(EntityType::Type96), 18000i32, 0i32, 0i32, 1u8, false, false, true, false, None), decl(Some(EntityType::Type96), 0i32, 0i32, 0i32, 1u8, false, false, true, false, None), decl(Some(EntityType::Type96), -18000i32, 0i32, 0i32, 1u8, false, false, true, false, None), decl(Some(EntityType::Type96), -36000i32, 0i32, 0i32, 1u8, false, false, true, false, None), decl(Some(EntityType::Type96), -54000i32, 0i32, 0i32, 1u8, false, false, true, false, None), decl(Some(EntityType::Type96), -72000i32, 0i32, 0i32, 1u8, false, false, true, false, None), decl(Some(EntityType::Type96), 45000i32, 10000i32, 0i32, 1u8, true, false, true, false, None), decl(Some(EntityType::Type96), 27000i32, 10000i32, 0i32, 1u8, true, false, true, false, None), decl(Some(EntityType::Type96), 9000i32, 10000i32, 0i32, 1u8, true, false, true, false, None), decl(Some(EntityType::Type96), -9000i32, 10000i32, 0i32, 1u8, true, false, true, false, None), decl(Some(EntityType::Type96), -27000i32, 10000i32, 0i32, 1u8, true, false, true, false, None), decl(Some(EntityType::Type96), -45000i32, 10000i32, 0i32, 1u8, true, false, true, false, None), decl(Some(EntityType::Type96), -63000i32, 10000i32, 0i32, 1u8, true, false, true, false, None), decl(Some(EntityType::Type96), -81000i32, 10000i32, 0i32, 1u8, true, false, true, false, None)],
            EntityType::Liaoning => vec![decl(Some(EntityType::J15), -30000i32, -3000i32, 630i32, 2u8, false, false, true, false, None), decl(Some(EntityType::J15), -10000i32, 15000i32, -1500i32, 2u8, false, false, true, false, None), decl(Some(EntityType::J15), 25000i32, 3000i32, 0i32, 2u8, false, false, true, false, None), decl(Some(EntityType::J15), -65000i32, 3000i32, 0i32, 2u8, false, false, true, false, None), decl(Some(EntityType::J15), -125000i32, 3000i32, 0i32, 2u8, false, false, true, false, None), decl(Some(EntityType::J15), -110000i32, -15000i32, 6000i32, 2u8, false, false, true, false, None), decl(Some(EntityType::Z18), -80000i32, 20000i32, 0i32, 1u8, false, false, true, false, None), decl(Some(EntityType::Z18), 30000i32, 22500i32, 0i32, 1u8, false, false, true, false, None), decl(Some(EntityType::Z18), 40000i32, -18000i32, 0i32, 1u8, false, false, true, false, None)],
            EntityType::Chinook => vec![],
            EntityType::Catalina => vec![decl(Some(EntityType::Wz0839), 2000i32, 0i32, 0i32, 1u8, false, false, false, true, None)],
            EntityType::Spitfire => vec![decl(Some(EntityType::RP3), 8500i32, 8000i32, 0i32, 1u8, true, false, false, false, None)],
            EntityType::J20 => vec![decl(Some(EntityType::Ls6), 2000i32, 0i32, 0i32, 4u8, false, false, false, true, None), decl(Some(EntityType::Pl12), 2000i32, 0i32, 0i32, 8u8, false, false, false, true, None)],
            EntityType::F35 => vec![decl(Some(EntityType::Jagm), -3000i32, 3000i32, 0i32, 1u8, true, false, false, false, None), decl(Some(EntityType::Jagm), -3000i32, 3000i32, 0i32, 1u8, true, false, false, false, None), decl(Some(EntityType::Jagm), -3000i32, 3000i32, 0i32, 1u8, true, false, false, false, None)],
            EntityType::Dreadnought => vec![decl(Some(EntityType::Mark18), 45169i32, 7400i32, 9000i32, 1u8, true, false, false, false, None), decl(Some(EntityType::Mark18), 44569i32, 7500i32, 9000i32, 1u8, true, false, false, false, None)],
            EntityType::Dredger => vec![decl(Some(EntityType::Depositor), 7000i32, 0i32, 0i32, 1u8, false, false, true, false, Some(0u8))],
            EntityType::Drone => vec![],
            EntityType::Espana => vec![],
            EntityType::Ekranoplan => vec![decl(Some(EntityType::Moskit), 6000i32, 1000i32, 0i32, 1u8, true, false, false, true, None), decl(Some(EntityType::Moskit), 17000i32, 1000i32, 0i32, 1u8, true, false, false, true, None), decl(Some(EntityType::Moskit), -5500i32, 1000i32, 0i32, 1u8, true, false, false, true, None)],
            EntityType::Essex => vec![decl(Some(EntityType::Avenger), 16000i32, 0i32, 0i32, 1u8, false, false, true, false, None), decl(Some(EntityType::Avenger), 0i32, 0i32, 0i32, 1u8, false, false, true, false, None), decl(Some(EntityType::Avenger), -16000i32, 0i32, 0i32, 1u8, false, false, true, false, None), decl(Some(EntityType::Avenger), -32000i32, 0i32, 0i32, 1u8, false, false, true, false, None), decl(Some(EntityType::Avenger), -48000i32, 0i32, 0i32, 1u8, false, false, true, false, None), decl(Some(EntityType::Avenger), -64000i32, 0i32, 0i32, 1u8, false, false, true, false, None)],
            EntityType::FairmileD => vec![decl(Some(EntityType::Mark18), -7000i32, 2300i32, 750i32, 1u8, true, false, true, false, None), decl(Some(EntityType::Mark9), 4500i32, 2500i32, 18400i32, 1u8, true, false, true, false, None), decl(Some(EntityType::Mark9), 5000i32, 2550i32, 18400i32, 1u8, true, false, true, false, None)],
            EntityType::Fletcher => vec![decl(Some(EntityType::Mark18), 250i32, 1066i32, 0i32, 1u8, true, false, true, false, Some(0u8)), decl(Some(EntityType::Mark18), 250i32, 533i32, 0i32, 1u8, true, false, true, false, Some(0u8)), decl(Some(EntityType::Mark18), 250i32, 0i32, 0i32, 1u8, false, false, true, false, Some(0u8)), decl(Some(EntityType::Mark18), 250i32, 1066i32, 0i32, 1u8, true, false, true, false, Some(1u8)), decl(Some(EntityType::Mark18), 250i32, 533i32, 0i32, 1u8, true, false, true, false, Some(1u8)), decl(Some(EntityType::Mark18), 250i32, 0i32, 0i32, 1u8, false, false, true, false, Some(1u8)), decl(Some(EntityType::Mark9), -55000i32, 0i32, 18000i32, 1u8, false, false, true, false, None), decl(Some(EntityType::Mark9), -55500i32, 0i32, 18000i32, 1u8, false, false, true, false, None), decl(Some(EntityType::Mark9), -56000i32, 0i32, 18000i32, 1u8, false, false, true, false, None), decl(Some(EntityType::Mark9), -56500i32, 0i32, 18000i32, 1u8, false, false, true, false, None)],
            EntityType::Freccia => vec![decl(Some(EntityType::Mark18), 250i32, 533i32, 0i32, 1u8, true, false, true, false, Some(0u8)), decl(Some(EntityType::Mark18), 250i32, 0i32, 0i32, 1u8, false, false, true, false, Some(0u8)), decl(Some(EntityType::Mark18), 250i32, 533i32, 0i32, 1u8, true, false, true, false, Some(1u8)), decl(Some(EntityType::Mark18), 250i32, 0i32, 0i32, 1u8, false, false, true, false, Some(1u8)), decl(Some(EntityType::Mark9), -45750i32, 1830i32, 18000i32, 1u8, true, false, true, false, None)],
            EntityType::Freedom => vec![decl(Some(EntityType::Nsm), 26544i32, 4776i32, -5377i32, 2u8, true, false, false, false, None), decl(Some(EntityType::Nsm), 27511i32, 5510i32, -5377i32, 2u8, true, false, false, false, None), decl(Some(EntityType::Seahawk), -40000i32, 0i32, 0i32, 1u8, false, false, true, false, None)],
            EntityType::G5 => vec![decl(Some(EntityType::Type53), -7000i32, 333i32, 0i32, 1u8, true, false, true, false, None)],
            EntityType::Golf => vec![decl(Some(EntityType::Set65), 41000i32, 500i32, 0i32, 1u8, true, false, false, false, None), decl(Some(EntityType::Set65), 41000i32, 500i32, 0i32, 1u8, true, false, false, false, None), decl(Some(EntityType::Set65), 41000i32, 500i32, 0i32, 1u8, true, false, false, false, None)],
            EntityType::Indiaman => vec![decl(Some(EntityType::CannonBall), 2724i32, 4483i32, 9000i32, 1u8, true, false, true, false, None), decl(Some(EntityType::CannonBall), 7018i32, 4533i32, 8900i32, 1u8, true, false, true, false, None), decl(Some(EntityType::CannonBall), -1483i32, 4311i32, 9100i32, 1u8, true, false, true, false, None), decl(Some(EntityType::CannonBall), 11081i32, 4330i32, 8800i32, 1u8, true, false, true, false, None), decl(Some(EntityType::CannonBall), -9853i32, 4311i32, 9200i32, 1u8, true, false, true, false, None)],
            EntityType::Iowa => vec![decl(Some(EntityType::Tomahawk), -13450i32, 10748i32, -9000i32, 2u8, true, false, false, true, None), decl(Some(EntityType::Tomahawk), -17080i32, 10748i32, -9000i32, 2u8, true, false, false, true, None), decl(Some(EntityType::Tomahawk), -41020i32, 4450i32, 3000i32, 2u8, true, false, false, true, None), decl(Some(EntityType::Tomahawk), -46985i32, 4451i32, 3000i32, 2u8, true, false, false, true, None), decl(Some(EntityType::Seahawk), -121000i32, 0i32, 0i32, 1u8, false, false, true, false, None), decl(Some(EntityType::Seahawk), -109000i32, -8000i32, -1500i32, 1u8, true, false, true, false, None)],
            EntityType::Kirov => vec![decl(Some(EntityType::Set65), -50547i32, 10000i32, 9000i32, 1u8, true, false, false, false, None), decl(Some(EntityType::Set65), -51047i32, 10000i32, 9000i32, 1u8, true, false, false, false, None), decl(Some(EntityType::Set65), -51547i32, 10000i32, 9000i32, 1u8, true, false, false, false, None), decl(Some(EntityType::Set65), -52047i32, 10000i32, 9000i32, 1u8, true, false, false, false, None), decl(Some(EntityType::P700), 41000i32, 3500i32, 0i32, 4u8, true, false, false, true, None), decl(Some(EntityType::S300), 61200i32, 4700i32, 0i32, 3u8, true, true, false, false, None), decl(Some(EntityType::Ka25), -112400i32, 0i32, 0i32, 1u8, false, false, true, false, None)],
            EntityType::Kolkata => vec![decl(Some(EntityType::Set65), 250i32, 250i32, 0i32, 1u8, true, false, true, false, Some(0u8)), decl(Some(EntityType::Set65), 250i32, 250i32, 0i32, 1u8, true, false, true, false, Some(1u8)), decl(Some(EntityType::BrahMos), 43400i32, 1400i32, 0i32, 3u8, true, true, false, false, None), decl(Some(EntityType::Barak8), 37500i32, 2000i32, 0i32, 1u8, true, true, false, false, None), decl(Some(EntityType::Barak8), -36300i32, 1500i32, 0i32, 1u8, true, true, false, false, None), decl(Some(EntityType::Ka25), -70000i32, 0i32, 0i32, 1u8, false, false, true, false, None)],
            EntityType::Komar => vec![decl(Some(EntityType::Type53), -500i32, 2300i32, 520i32, 1u8, true, false, true, false, None), decl(Some(EntityType::Mark9), -11500i32, 1200i32, 18200i32, 1u8, true, false, true, false, None), decl(Some(EntityType::Mark9), -12000i32, 1200i32, 18200i32, 1u8, true, false, true, false, None)],
            EntityType::Leander => vec![decl(Some(EntityType::Mark18), 250i32, 260i32, 0i32, 1u8, true, false, true, false, Some(0u8)), decl(Some(EntityType::Mark18), 250i32, 780i32, 0i32, 1u8, true, false, true, false, Some(0u8)), decl(Some(EntityType::Mark18), 250i32, 260i32, 0i32, 1u8, true, false, true, false, Some(1u8)), decl(Some(EntityType::Mark18), 250i32, 780i32, 0i32, 1u8, true, false, true, false, Some(1u8))],
            EntityType::Lublin => vec![decl(Some(EntityType::Wz0839), -40000i32, 1750i32, 0i32, 1u8, true, false, true, false, None), decl(Some(EntityType::Wz0839), -41000i32, 1750i32, 0i32, 1u8, true, false, true, false, None), decl(Some(EntityType::Wz0839), -42000i32, 1750i32, 0i32, 1u8, true, false, true, false, None)],
            EntityType::Momi => vec![decl(Some(EntityType::Mark18), 250i32, 300i32, 0i32, 1u8, true, false, true, false, Some(0u8)), decl(Some(EntityType::Mark18), 250i32, 300i32, 0i32, 1u8, true, false, true, false, Some(1u8)), decl(Some(EntityType::Mark9), -42000i32, 1400i32, 18000i32, 1u8, true, false, true, false, None), decl(Some(EntityType::Mark9), -41500i32, 1400i32, 18000i32, 1u8, true, false, true, false, None)],
            EntityType::Montana => vec![decl(Some(EntityType::Kingfisher), -122000i32, 8500i32, 1750i32, 1u8, true, false, true, false, None)],
            EntityType::Moskva => vec![decl(Some(EntityType::Ka25), -23535i32, 7743i32, 0i32, 1u8, false, false, true, false, None), decl(Some(EntityType::Ka25), -38651i32, -8017i32, 0i32, 1u8, false, false, true, false, None), decl(Some(EntityType::Ka25), -64797i32, 7395i32, 0i32, 1u8, false, false, true, false, None), decl(Some(EntityType::Ka25), -84786i32, -2818i32, 0i32, 1u8, false, false, true, false, None), decl(Some(EntityType::Set65), -3022i32, 10358i32, 9000i32, 1u8, true, false, false, false, None), decl(Some(EntityType::Set65), -3622i32, 10358i32, 9000i32, 1u8, true, false, false, false, None), decl(Some(EntityType::Set65), -4222i32, 10358i32, 9000i32, 1u8, true, false, false, false, None), decl(Some(EntityType::Set65), -4822i32, 10358i32, 9000i32, 1u8, true, false, false, false, None), decl(Some(EntityType::Set65), -5422i32, 10358i32, 9000i32, 1u8, true, false, false, false, None)],
            EntityType::Oberon => vec![decl(Some(EntityType::Mark18), 40000i32, 500i32, 200i32, 3u8, true, false, false, false, None), decl(Some(EntityType::Mark18), -41400i32, 300i32, 18000i32, 1u8, true, false, false, false, None)],
            EntityType::Ohio => vec![decl(Some(EntityType::Mark48), 72000i32, 5000i32, 0i32, 1u8, true, false, false, false, None), decl(Some(EntityType::Mark48), 72000i32, 5000i32, 0i32, 1u8, true, false, false, false, None), decl(Some(EntityType::Mk70), 72000i32, 5000i32, 0i32, 1u8, false, false, false, true, None), decl(Some(EntityType::Tomahawk), 30300i32, 2000i32, 0i32, 1u8, true, true, false, false, None), decl(Some(EntityType::Tomahawk), 23700i32, 2000i32, 0i32, 1u8, true, true, false, false, None), decl(Some(EntityType::Tomahawk), 17200i32, 2000i32, 0i32, 1u8, true, true, false, false, None), decl(Some(EntityType::Tomahawk), 10750i32, 2000i32, 0i32, 1u8, true, true, false, false, None), decl(Some(EntityType::Tomahawk), 4250i32, 2000i32, 0i32, 1u8, true, true, false, false, None)],
            EntityType::Olympias => vec![],
            EntityType::Osa => vec![decl(Some(EntityType::P15), -1750i32, 2500i32, 200i32, 1u8, true, false, false, false, None), decl(Some(EntityType::P15), -12000i32, 2500i32, 200i32, 1u8, true, false, false, false, None)],
            EntityType::Pt34 => vec![decl(Some(EntityType::Mark18), 0i32, 2500i32, 450i32, 1u8, true, false, true, false, None), decl(Some(EntityType::Mark18), -8000i32, 1800i32, 450i32, 1u8, true, false, true, false, None)],
            EntityType::Seawolf => vec![decl(Some(EntityType::Mark48), 37785i32, 4734i32, 0i32, 4u8, true, false, false, false, None), decl(Some(EntityType::Mk70), 37785i32, 4734i32, 0i32, 1u8, true, false, false, true, None)],
            EntityType::Skipjack => vec![decl(Some(EntityType::Mark48), 33750i32, 700i32, 0i32, 1u8, true, false, false, false, None), decl(Some(EntityType::Mark48), 33750i32, 700i32, 0i32, 1u8, true, false, false, false, None), decl(Some(EntityType::Mk70), 33750i32, 700i32, 0i32, 1u8, false, false, false, true, None), decl(Some(EntityType::Harpoon), 34000i32, 0i32, 0i32, 1u8, true, false, false, false, None)],
            EntityType::Skjold => vec![decl(Some(EntityType::Nsm), -19029i32, -1960i32, -2376i32, 2u8, true, false, false, false, None), decl(Some(EntityType::Nsm), -19375i32, -2887i32, -2376i32, 2u8, true, false, false, false, None), decl(Some(EntityType::Mistral), -6082i32, -4513i32, 0i32, 3u8, true, true, false, false, None)],
            EntityType::Sherman => vec![],
            EntityType::StarDestroyer => vec![decl(Some(EntityType::TieFighter), 0i32, 0i32, 0i32, 12u8, false, false, false, true, None)],
            EntityType::Tanker => vec![],
            EntityType::TerryFox => vec![],
            EntityType::Town => vec![decl(Some(EntityType::Mark18), 250i32, 0i32, 0i32, 1u8, false, false, true, false, Some(0u8)), decl(Some(EntityType::Mark18), 250i32, 520i32, 0i32, 1u8, true, false, true, false, Some(0u8)), decl(Some(EntityType::Mark18), 250i32, 0i32, 0i32, 1u8, false, false, true, false, Some(1u8)), decl(Some(EntityType::Mark18), 250i32, 520i32, 0i32, 1u8, true, false, true, false, Some(1u8)), decl(Some(EntityType::Kingfisher), 4821i32, 0i32, 0i32, 1u8, false, false, true, false, None)],
            EntityType::Type055 => vec![decl(Some(EntityType::Yj18), 41400i32, 2000i32, 0i32, 4u8, true, true, false, false, None), decl(Some(EntityType::_82R), -39836i32, 8000i32, 9000i32, 1u8, true, false, false, false, None), decl(Some(EntityType::_82R), -40436i32, 8000i32, 9000i32, 1u8, true, false, false, false, None), decl(Some(EntityType::_82R), -41036i32, 8000i32, 9000i32, 1u8, true, false, false, false, None), decl(Some(EntityType::Hq9), 46500i32, 2000i32, 0i32, 1u8, true, true, false, false, None), decl(Some(EntityType::Hq9), -33835i32, 2000i32, 0i32, 2u8, true, true, false, false, None), decl(Some(EntityType::Harbin), -79880i32, 0i32, 0i32, 1u8, false, false, true, false, None)],
            EntityType::TypeViic => vec![decl(Some(EntityType::Mark18), 26000i32, 333i32, 200i32, 1u8, true, false, false, false, None), decl(Some(EntityType::Mark18), 25000i32, 666i32, 200i32, 1u8, true, false, false, false, None), decl(Some(EntityType::Mark18), -30000i32, 0i32, 18000i32, 1u8, false, false, false, false, None)],
            EntityType::Ticonderoga => vec![decl(Some(EntityType::Seahawk), -42000i32, 0i32, 0i32, 2u8, false, false, true, false, None), decl(Some(EntityType::Harpoon), 43000i32, 0i32, 0i32, 4u8, false, true, false, false, None), decl(Some(EntityType::Harpoon), -62000i32, 0i32, 0i32, 4u8, false, true, false, false, None), decl(Some(EntityType::Tomahawk), 43000i32, 0i32, 0i32, 6u8, false, true, false, false, None), decl(Some(EntityType::Tomahawk), -62000i32, 0i32, 0i32, 6u8, false, true, false, false, None), decl(Some(EntityType::Asroc), 43000i32, 0i32, 0i32, 2u8, false, true, false, false, None), decl(Some(EntityType::Mk3), -85000i32, 0i32, -18000i32, 1u8, false, false, false, true, None)],
            EntityType::Titanic => vec![],
            EntityType::Uap => vec![],
            EntityType::Vindicator => vec![decl(Some(EntityType::VBlaster), 5000i32, 0i32, 0i32, 8u8, false, false, false, true, None), decl(Some(EntityType::VMissiles), 5000i32, 0i32, 0i32, 8u8, false, false, false, true, None), decl(Some(EntityType::VProjector), 5000i32, 0i32, 0i32, 1u8, false, false, false, true, None)],
            EntityType::Visby => vec![decl(Some(EntityType::Torped45), 250i32, 150i32, 0i32, 1u8, true, false, true, false, Some(0u8)), decl(Some(EntityType::Torped45), 250i32, 150i32, 0i32, 1u8, true, false, true, false, Some(1u8)), decl(Some(EntityType::Rbs15), -2250i32, 3500i32, 9000i32, 1u8, true, false, true, false, None), decl(Some(EntityType::Rbs15), -3000i32, 3500i32, 9000i32, 1u8, true, false, true, false, None), decl(Some(EntityType::Rbs15), -2250i32, 3500i32, 9000i32, 1u8, true, false, true, false, None), decl(Some(EntityType::Rbs15), -3000i32, 3500i32, 9000i32, 1u8, true, false, true, false, None), decl(Some(EntityType::Seahawk), -23000i32, 0i32, 0i32, 1u8, false, false, true, false, None)],
            EntityType::Virginia => vec![decl(Some(EntityType::Mark48), 37785i32, 4734i32, 0i32, 4u8, true, false, false, false, None), decl(Some(EntityType::Mk3), 37785i32, 4734i32, 0i32, 1u8, true, false, false, true, None), decl(Some(EntityType::Tomahawk), 30300i32, 2000i32, 0i32, 1u8, true, true, false, false, None), decl(Some(EntityType::Tomahawk), 23700i32, 2000i32, 0i32, 1u8, true, true, false, false, None), decl(Some(EntityType::Tomahawk), 17200i32, 2000i32, 0i32, 1u8, true, true, false, false, None)],
            EntityType::Xwing => vec![decl(Some(EntityType::Blaster), 2000i32, 5600i32, 0i32, 4u8, true, false, false, true, None)],
            EntityType::Yamato => vec![decl(Some(EntityType::E4N), -115239i32, 9903i32, 17400i32, 1u8, true, false, true, false, None), decl(Some(EntityType::E4N), -100891i32, 11168i32, 18681i32, 1u8, true, false, true, false, None)],
            EntityType::Yasen => vec![decl(Some(EntityType::Set65), 41000i32, 5750i32, 200i32, 3u8, true, false, false, false, None), decl(Some(EntityType::Rpk6), 41000i32, 5750i32, 200i32, 2u8, true, false, false, false, None), decl(Some(EntityType::BrahMos), -4500i32, 2000i32, 0i32, 1u8, true, true, false, false, None), decl(Some(EntityType::BrahMos), -7000i32, 2000i32, 0i32, 1u8, true, true, false, false, None), decl(Some(EntityType::Igla), 29190i32, 0i32, 0i32, 4u8, false, true, false, false, None), decl(Some(EntityType::Brosok), 43000i32, 3000i32, 0i32, 1u8, true, false, false, false, None), decl(Some(EntityType::Brosok), -16500i32, 1500i32, -18000i32, 1u8, true, false, false, false, None)],
            EntityType::Zubr => vec![],
            EntityType::Lst => vec![],
            EntityType::Zudredger => vec![decl(Some(EntityType::Depositor), 7000i32, 0i32, 0i32, 1u8, false, false, true, false, Some(0u8)), decl(Some(EntityType::Shovel), 7000i32, 0i32, 0i32, 1u8, false, false, true, false, Some(1u8))],
            EntityType::Zumwalt => vec![decl(Some(EntityType::Tomahawk), 16000i32, 9000i32, 0i32, 2u8, true, true, false, false, None), decl(Some(EntityType::Tomahawk), -51500i32, 9000i32, 0i32, 2u8, true, true, false, false, None), decl(Some(EntityType::Asroc), 39500i32, 5500i32, 0i32, 2u8, true, true, false, false, None), decl(Some(EntityType::Essm), 35000i32, 6000i32, 0i32, 2u8, true, true, false, false, None), decl(Some(EntityType::Essm), -56000i32, 9000i32, 0i32, 2u8, true, true, false, false, None), decl(Some(EntityType::Seahawk), -65000i32, 0i32, 0i32, 1u8, false, false, true, false, None)],
            EntityType::Barrel => vec![],
            EntityType::Coin => vec![],
            EntityType::Crate => vec![],
            EntityType::Scrap => vec![],
            EntityType::Brosok => vec![],
            EntityType::Mk70 => vec![],
            EntityType::Mk3 => vec![],
            EntityType::Moskit => vec![],
            EntityType::Jagm => vec![],
            EntityType::Acacia => vec![],
            EntityType::AverageTree => vec![],
            EntityType::Palm => vec![],
            EntityType::Hq => vec![],
            EntityType::OilPlatform => vec![],
            EntityType::SuperOilPlatform => vec![],
            EntityType::M230 => vec![decl(Some(EntityType::_30X130MmR), 0i32, 0i32, 0i32, 12u8, false, false, false, false, None)],
            EntityType::Type730 => vec![decl(Some(EntityType::_30X165MmR), 1100i32, 0i32, 0i32, 4u8, false, false, false, false, None)],
            EntityType::Turbolaser => vec![decl(Some(EntityType::Blaster), 0i32, 0i32, 0i32, 1u8, false, false, false, false, None)],
            EntityType::ShermanTurret => vec![decl(Some(EntityType::_75X667MmR), 0i32, 0i32, 0i32, 1u8, false, false, false, false, None)],
            EntityType::AbramsTurret => vec![decl(Some(EntityType::_120X570MmR), 0i32, 0i32, 0i32, 1u8, false, false, false, false, None)],
            EntityType::_100Mm => vec![decl(Some(EntityType::_127X680MmR), 2000i32, 0i32, 0i32, 1u8, false, false, false, false, None)],
            EntityType::_200Mm => vec![decl(Some(EntityType::_200X1070MmR), 2000i32, 0i32, 0i32, 1u8, false, false, false, false, None)],
            EntityType::_2M3M => vec![decl(Some(EntityType::_25X129MmR), 500i32, 0i32, 0i32, 1u8, false, false, true, false, None)],
            EntityType::_38CmSkc34 => vec![decl(Some(EntityType::_380X1700MmR), 12000i32, 4500i32, 0i32, 1u8, true, false, false, true, None)],
            EntityType::_45Type94 => vec![decl(Some(EntityType::_458X1980MmR), 5700i32, 3100i32, 0i32, 1u8, true, false, false, true, None), decl(Some(EntityType::_458X1980MmR), 5700i32, 0i32, 0i32, 1u8, false, false, false, true, None)],
            EntityType::_6Pounder => vec![decl(Some(EntityType::_57X441MmR), 500i32, 0i32, 0i32, 1u8, false, false, false, true, None)],
            EntityType::_88CmSkc35 => vec![decl(Some(EntityType::_57X441MmR), 500i32, 0i32, 0i32, 1u8, false, false, false, true, None)],
            EntityType::_M1919 => vec![decl(Some(EntityType::_762X54MmR), 265i32, 0i32, 0i32, 1u8, false, false, false, true, None)],
            EntityType::A190 => vec![decl(Some(EntityType::_130X720MmR), 0i32, 0i32, 0i32, 1u8, false, false, false, false, None)],
            EntityType::Ak130 => vec![decl(Some(EntityType::_130X720MmR), 0i32, 0i32, 0i32, 1u8, false, false, false, false, None)],
            EntityType::Ansaldo => vec![decl(Some(EntityType::_127X680MmR), 2000i32, 315i32, 0i32, 1u8, true, false, false, false, None)],
            EntityType::Bl6MkXxiii => vec![decl(Some(EntityType::_127X680MmR), 1000i32, 2000i32, 0i32, 1u8, true, false, true, false, None)],
            EntityType::Bl6MkXxiiiX3 => vec![decl(Some(EntityType::_127X680MmR), 1000i32, 0i32, 0i32, 1u8, false, false, true, false, None), decl(Some(EntityType::_127X680MmR), 1000i32, 3000i32, 0i32, 1u8, true, false, true, false, None)],
            EntityType::Bofors57MmMk3 => vec![decl(Some(EntityType::_57X441MmR), 2000i32, 0i32, 0i32, 1u8, false, false, false, true, None)],
            EntityType::Crotale => vec![decl(Some(EntityType::Vt1), 0i32, 947i32, 0i32, 1u8, true, false, false, false, None)],
            EntityType::Hq10 => vec![decl(Some(EntityType::Hq10SAM), 800i32, 0i32, 0i32, 2u8, false, false, false, false, None)],
            EntityType::Hpj38 => vec![decl(Some(EntityType::_130X720MmR), 2000i32, 0i32, 0i32, 1u8, false, false, false, false, None)],
            EntityType::Mark12 => vec![decl(Some(EntityType::_127X680MmR), 2000i32, 0i32, 0i32, 1u8, false, false, false, false, None)],
            EntityType::Mark12X2 => vec![decl(Some(EntityType::_127X680MmR), 2000i32, 727i32, 0i32, 1u8, true, false, false, false, None)],
            EntityType::Mark49 => vec![decl(Some(EntityType::Rim116), 0i32, 0i32, 0i32, 8u8, false, false, false, true, None)],
            EntityType::Mark51 => vec![decl(Some(EntityType::Lrlap), 0i32, 0i32, 0i32, 1u8, false, false, false, false, None)],
            EntityType::Mark7 => vec![decl(Some(EntityType::Mark8), 12000i32, 3160i32, 0i32, 1u8, true, false, false, true, None), decl(Some(EntityType::Mark8), 12000i32, 0i32, 0i32, 1u8, false, false, false, true, None)],
            EntityType::MarkBViii => vec![decl(Some(EntityType::_300X1400MmR), 3000i32, 1198i32, 0i32, 1u8, true, false, false, false, None)],
            EntityType::Ogon => vec![decl(Some(EntityType::Of45), 0i32, 0i32, 0i32, 1u8, false, false, false, true, None), decl(Some(EntityType::Of45), 0i32, 300i32, 0i32, 1u8, true, false, false, true, None), decl(Some(EntityType::Of45), 0i32, 600i32, 0i32, 1u8, true, false, false, true, None), decl(Some(EntityType::Of45), 0i32, 900i32, 0i32, 1u8, true, false, false, true, None), decl(Some(EntityType::Of45), 0i32, 1200i32, 0i32, 1u8, true, false, false, true, None)],
            EntityType::OtoMelara76Mm => vec![decl(Some(EntityType::_76X636MmR), 2000i32, 0i32, 0i32, 1u8, false, false, false, false, None)],
            EntityType::RatepKomar => vec![decl(Some(EntityType::Igla), 0i32, 750i32, 0i32, 1u8, true, false, false, false, None)],
            EntityType::Shtorm => vec![decl(Some(EntityType::V611), 140i32, 1308i32, 0i32, 1u8, true, false, true, false, None)],
            EntityType::VickersMkH12In => vec![decl(Some(EntityType::_300X1400MmR), 3000i32, 727i32, 0i32, 1u8, true, false, false, false, None)],
            EntityType::Blaster => vec![],
            EntityType::GreenBlaster => vec![],
            EntityType::VBlaster => vec![],
            EntityType::VProjector => vec![],
            EntityType::VMissiles => vec![],
            EntityType::_30X130MmR => vec![],
            EntityType::_30X165MmR => vec![],
            EntityType::_762X54MmR => vec![],
            EntityType::_200X1070MmR => vec![],
            EntityType::_127X680MmR => vec![],
            EntityType::_130X720MmR => vec![],
            EntityType::_75X667MmR => vec![],
            EntityType::_120X570MmR => vec![],
            EntityType::_25X129MmR => vec![],
            EntityType::_300X1400MmR => vec![],
            EntityType::_380X1700MmR => vec![],
            EntityType::_458X1980MmR => vec![],
            EntityType::_57X441MmR => vec![],
            EntityType::_76X636MmR => vec![],
            EntityType::_82R => vec![],
            EntityType::Asroc => vec![decl(Some(EntityType::Mark54), 0i32, 0i32, 0i32, 1u8, false, false, false, false, None)],
            EntityType::Barak8 => vec![],
            EntityType::Pl12 => vec![],
            EntityType::BrahMos => vec![],
            EntityType::Hellfire => vec![],
            EntityType::CannonBall => vec![],
            EntityType::Depositor => vec![],
            EntityType::Shovel => vec![],
            EntityType::Essm => vec![],
            EntityType::Exocet => vec![],
            EntityType::Harpoon => vec![],
            EntityType::Hq9 => vec![],
            EntityType::Igla => vec![],
            EntityType::Kalibr => vec![],
            EntityType::Lrlap => vec![],
            EntityType::Magic => vec![],
            EntityType::Mark18 => vec![],
            EntityType::Mark48 => vec![],
            EntityType::Mark54 => vec![],
            EntityType::Yu7 => vec![],
            EntityType::Mark8 => vec![],
            EntityType::Mark9 => vec![],
            EntityType::Mistral => vec![],
            EntityType::Nsm => vec![],
            EntityType::Of45 => vec![],
            EntityType::RP3 => vec![],
            EntityType::P15 => vec![],
            EntityType::P700 => vec![],
            EntityType::Rbs15 => vec![],
            EntityType::Rim116 => vec![],
            EntityType::Rpk6 => vec![decl(Some(EntityType::_82R), 0i32, 0i32, 0i32, 1u8, false, false, false, false, None)],
            EntityType::S300 => vec![],
            EntityType::Set65 => vec![],
            EntityType::Tomahawk => vec![],
            EntityType::Torped45 => vec![],
            EntityType::Type53 => vec![],
            EntityType::V611 => vec![],
            EntityType::Vt1 => vec![],
            EntityType::Hq10SAM => vec![],
            EntityType::Ls6 => vec![],
            EntityType::Wz0839 => vec![],
            EntityType::Type96Bomb => vec![],
            EntityType::Mk82 => vec![],
            EntityType::Yj18 => vec![],
        }
    }
}

} // verus!
