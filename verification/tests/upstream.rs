use holenews::map::{Location, MapLocation, Region, COORD_UNIT};

/// Full name, display name, whether major, and position in tile sides, of
/// each location as the upstream map data gives them.
const UPSTREAM: [(&str, &str, bool, f64, f64); 578] = [
    ("Stonecradle::BucklerSound", "Buckler Sound", true, 0.51059383, 0.5146678),
    ("Stonecradle::FadingLights", "Fading Lights", true, 0.73406035, 0.69156134),
    ("Stonecradle::Longing", "Longing", false, 0.36998627, 0.73207545),
    ("Stonecradle::TheAgingOcean", "The Aging Ocean", false, 0.30536836, 0.3464453),
    ("Stonecradle::TheCord", "The Cord", true, 0.5624944, 0.69426215),
    ("Stonecradle::TheHeirsKnife", "The Heir's Knife", true, 0.27641714, 0.7720462),
    ("Stonecradle::TheLoneliestShore", "The Loneliest Shore", false, 0.525158, 0.25433654),
    ("Stonecradle::TheLongFast", "The Long Fast", true, 0.41714057, 0.8898146),
    ("Stonecradle::ThePram", "The Pram", false, 0.39138335, 0.47735217),
    ("Stonecradle::TheReach", "The Reach", true, 0.63581973, 0.21885662),
    ("Stonecradle::TheRoilingComets", "The Roiling Comets", false, 0.85634106, 0.5443087),
    ("Stonecradle::TrammelPool", "Trammel Pool", true, 0.77552485, 0.46081984),
    ("Stonecradle::WorldsEnd", "World's End", true, 0.2149299, 0.55217665),
    ("AllodsBight::ACaptainsRepose", "A Captain's Repose", false, 0.5932731, 0.8355915),
    ("AllodsBight::AllodsChildren", "Allod's Children", false, 0.11191041, 0.41417748),
    ("AllodsBight::BelayingTrace", "Belaying Trace", true, 0.2464044, 0.5615137),
    ("AllodsBight::BlunderBight", "Blunder Bight", false, 0.6916226, 0.12754051),
    ("AllodsBight::BreathofCetus", "Breath of Cetus", false, 0.696068, 0.6411313),
    ("AllodsBight::GangrenousHollow", "Gangrenous Hollow", false, 0.3076385, 0.7364839),
    ("AllodsBight::HarpysPerch", "Harpy's Perch", false, 0.50235146, 0.3998172),
    ("AllodsBight::Homesick", "Homesick", true, 0.3531582, 0.38265672),
    ("AllodsBight::MercysWail", "Mercy's Wail", true, 0.51238513, 0.5703627),
    ("AllodsBight::Rumhold", "Rumhold", true, 0.25670072, 0.24363878),
    ("AllodsBight::Scurvyshire", "Scurvyshire", true, 0.37265283, 0.20996757),
    ("AllodsBight::TheList", "The List", false, 0.22667567, 0.80759597),
    ("AllodsBight::TheRumroad", "The Rumroad", false, 0.18821536, 0.28423867),
    ("AllodsBight::TheStonePlank", "The Stone Plank", true, 0.7455613, 0.44608068),
    ("AllodsBight::TheTurncoat", "The Turncoat", true, 0.38879034, 0.73078084),
    ("AllodsBight::TitansEnd", "Titan's End", false, 0.53741086, 0.109029606),
    ("AllodsBight::WitchsLastFlight", "Witch's Last Flight", false, 0.6181798, 0.26963705),
    ("TempestIsland::AlchimioEstate", "Alchimio Estate", true, 0.30793568, 0.09539125),
    ("TempestIsland::CirrisValve", "Cirris Valve", false, 0.7130552, 0.48503992),
    ("TempestIsland::ErosLagoon", "Eros Lagoon", false, 0.272319, 0.8196335),
    ("TempestIsland::IsleofPsyche", "Isle of Psyche", true, 0.25516355, 0.7106062),
    ("TempestIsland::LiarsHaven", "Liar's Haven", true, 0.6746311, 0.6596021),
    ("TempestIsland::LostAirchal", "Lost Airchal", true, 0.60527116, 0.09963542),
    ("TempestIsland::PlanaFada", "Plana Fada", false, 0.6023094, 0.18427029),
    ("TempestIsland::Reef", "Reef", true, 0.715016, 0.31315425),
    ("TempestIsland::Sclera", "Sclera", false, 0.53417283, 0.5819011),
    ("TempestIsland::StratosValve", "Stratos Valve", false, 0.505426, 0.49301273),
    ("TempestIsland::SurgeField", "Surge Field", false, 0.6105891, 0.58133745),
    ("TempestIsland::SurgeGate", "Surge Gate", true, 0.40114728, 0.43872398),
    ("TempestIsland::TheGale", "The Gale", true, 0.48670572, 0.7953114),
    ("TempestIsland::TheIris", "The Iris", true, 0.6266644, 0.48053998),
    ("TempestIsland::TheOutwood", "The Outwood", false, 0.6131708, 0.39710408),
    ("TempestIsland::TheRush", "The Rush", true, 0.52295, 0.37489086),
    ("GreatMarch::CampSenti", "Camp Senti", true, 0.37455705, 0.362185),
    ("GreatMarch::DaltonMeadow", "Dalton Meadow", false, 0.09930786, 0.6400397),
    ("GreatMarch::Dendr??Field", "Dendr?? Field", true, 0.77124, 0.46152595),
    ("GreatMarch::Eristown", "Eristown", false, 0.78114384, 0.8727914),
    ("GreatMarch::FatelessGrove", "Fateless Grove", false, 0.45355204, 0.090748146),
    ("GreatMarch::Fengari", "Fengari", false, 0.60990554, 0.74922425),
    ("GreatMarch::HaltingValley", "Halting Valley", false, 0.78852123, 0.3462852),
    ("GreatMarch::JackField", "Jack Field", false, 0.41658077, 0.94294405),
    ("GreatMarch::JackbootCreek", "Jackboot Creek", false, 0.2494908, 0.64345753),
    ("GreatMarch::LegacyPasture", "Legacy Pasture", false, 0.7758614, 0.7780664),
    ("GreatMarch::Leto", "Leto", true, 0.24598461, 0.5040848),
    ("GreatMarch::Lionsfort", "Lionsfort", true, 0.69568443, 0.12216068),
    ("GreatMarch::Milowood", "Milowood", false, 0.7739539, 0.6969876),
    ("GreatMarch::MorsRange", "Mors Range", false, 0.69876003, 0.72293276),
    ("GreatMarch::MyrmidonsStay", "Myrmidon's Stay", true, 0.6058823, 0.22973543),
    ("GreatMarch::RemnantAcreage", "Remnant Acreage", false, 0.52338797, 0.51566833),
    ("GreatMarch::RemnantVilla", "Remnant Villa", true, 0.5511068, 0.43947107),
    ("GreatMarch::SchalaEstate", "Schala Estate", false, 0.33548036, 0.635879),
    ("GreatMarch::ScrabblingMotte", "Scrabbling Motte", false, 0.19585963, 0.17810662),
    ("GreatMarch::SerpentCharm", "Serpent Charm", false, 0.28096482, 0.836178),
    ("GreatMarch::Sitaria", "Sitaria", true, 0.537554, 0.6178947),
    ("GreatMarch::TheBlackWing", "The Black Wing", false, 0.48719403, 0.7353476),
    ("GreatMarch::TheGreatMarch", "The Great March", false, 0.6500651, 0.7322658),
    ("GreatMarch::TheMidmarch", "The Midmarch", false, 0.29200715, 0.02563422),
    ("GreatMarch::TheRiverSenti", "The River Senti", false, 0.30557615, 0.37844858),
    ("GreatMarch::TheSpiceRoad", "The Spice Road", false, 0.37501228, 0.4377948),
    ("GreatMarch::TheSwan", "The Swan", true, 0.40979624, 0.8734635),
    ("GreatMarch::TheWhiteWing", "The White Wing", false, 0.5537074, 0.83839923),
    ("GreatMarch::VioletFields", "Violet Fields", false, 0.13429698, 0.32858482),
    ("GreatMarch::Violethome", "Violethome", true, 0.31300274, 0.19231363),
    ("GreatMarch::ZealousApproach", "Zealous Approach", false, 0.4341586, 0.6098335),
    ("MarbanHol::BleatingPlateau", "Bleating Plateau", false, 0.2703532, 0.5908183),
    ("MarbanHol::BubbleBasin", "Bubble Basin", false, 0.38355634, 0.42492712),
    ("MarbanHol::CheckpointBua", "Checkpoint Bua", true, 0.6373692, 0.4179943),
    ("MarbanHol::DeepfleetValley", "Deepfleet Valley", false, 0.5971318, 0.65876913),
    ("MarbanHol::GapingMaw", "Gaping Maw", false, 0.5627757, 0.12033677),
    ("MarbanHol::Lockheed", "Lockheed", true, 0.6407603, 0.8987701),
    ("MarbanHol::LockheedBreakers", "Lockheed Breakers", false, 0.55278087, 0.84404916),
    ("MarbanHol::LughboneDam", "Lughbone Dam", false, 0.6062604, 0.41536748),
    ("MarbanHol::MaidensVeil", "Maiden's Veil", true, 0.51757264, 0.5214072),
    ("MarbanHol::MountMacTire", "Mount Mac Tire", false, 0.30355966, 0.91705936),
    ("MarbanHol::Mox", "Mox", true, 0.71036744, 0.11743515),
    ("MarbanHol::OsterWall", "Oster Wall", true, 0.7994043, 0.47127146),
    ("MarbanHol::Pilgrimage", "Pilgrimage", false, 0.39667153, 0.10186438),
    ("MarbanHol::Sanctum", "Sanctum", true, 0.22553757, 0.2721918),
    ("MarbanHol::SlenderCove", "Slender Cove", false, 0.7217157, 0.28977296),
    ("MarbanHol::TheClaim", "The Claim", false, 0.7366861, 0.6668448),
    ("MarbanHol::TheClutch", "The Clutch", false, 0.5142641, 0.27500752),
    ("MarbanHol::TheCurse", "The Curse", false, 0.62511504, 0.5131462),
    ("MarbanHol::TheSpitrocks", "The Spitrocks", true, 0.3551116, 0.7273359),
    ("ViperPit::AfricsApproach", "Afric's Approach", false, 0.26043177, 0.6742477),
    ("ViperPit::AustriacaRiver", "Austriaca River", false, 0.48925853, 0.8535161),
    ("ViperPit::Blackthroat", "Blackthroat", true, 0.38273838, 0.82834363),
    ("ViperPit::Deadsteps", "Deadsteps", false, 0.5428198, 0.21101783),
    ("ViperPit::EarlCrowley", "Earl Crowley", true, 0.816489, 0.5138778),
    ("ViperPit::EarlsWelcome", "Earl's Welcome", false, 0.14588471, 0.40977678),
    ("ViperPit::FleckCrossing", "Fleck Crossing", true, 0.5321962, 0.5375857),
    ("ViperPit::FortViper", "Fort Viper", true, 0.3418565, 0.599041),
    ("ViperPit::Hardcaps", "Hardcaps", false, 0.45871973, 0.032195564),
    ("ViperPit::Kirknell", "Kirknell", true, 0.28270397, 0.548087),
    ("ViperPit::LakeMioira", "Lake Mioira", false, 0.21370772, 0.10093846),
    ("ViperPit::Moltworth", "Moltworth", true, 0.6234502, 0.71039724),
    ("ViperPit::PathoftheCharmed", "Path of the Charmed", false, 0.681991, 0.9418296),
    ("ViperPit::SerenitysBlight", "Serenity's Blight", true, 0.44389725, 0.3511407),
    ("ViperPit::SnakeheadLake", "Snakehead Lake", false, 0.40173814, 0.20830554),
    ("ViperPit::TheBloodyBowery", "The Bloody Bowery", false, 0.27641982, 0.45773628),
    ("ViperPit::TheFriars", "The Friars", true, 0.26904154, 0.8157426),
    ("ViperPit::TheLadysLake", "The Lady's Lake", false, 0.19556984, 0.6328041),
    ("ViperPit::TheRockaway", "The Rockaway", false, 0.78050023, 0.7048233),
    ("ViperPit::TheSlitheringScales", "The Slithering Scales", false, 0.5787324, 0.43142855),
    ("ViperPit::TheTongue", "The Tongue", false, 0.69369084, 0.1546878),
    ("ViperPit::TwinFangs", "Twin Fangs", false, 0.37024617, 0.40132323),
    ("ShackledChasm::ACarelessNet", "A Careless Net", false, 0.43234968, 0.8701505),
    ("ShackledChasm::ANewSpring", "A New Spring", false, 0.65531296, 0.26313987),
    ("ShackledChasm::AutumnPyres", "Autumn Pyres", false, 0.5103819, 0.3264112),
    ("ShackledChasm::FinalStep", "Final Step", false, 0.30303696, 0.1718076),
    ("ShackledChasm::Firstmarch", "Firstmarch", true, 0.84196997, 0.38732836),
    ("ShackledChasm::GorgonGrove", "Gorgon Grove", true, 0.22335887, 0.35604578),
    ("ShackledChasm::HadesLadder", "Hades Ladder", false, 0.4075216, 0.2975581),
    ("ShackledChasm::LegionsDawn", "Legion's Dawn", false, 0.34624228, 0.9482727),
    ("ShackledChasm::LimewoodHoldfast", "Limewood Holdfast", true, 0.47156802, 0.4749517),
    ("ShackledChasm::MankyHills", "Manky Hills", false, 0.88514185, 0.58751076),
    ("ShackledChasm::Reflection", "Reflection", true, 0.21630011, 0.60432374),
    ("ShackledChasm::Savages", "Savages", true, 0.39030778, 0.1846902),
    ("ShackledChasm::SilkFarms", "Silk Farms", true, 0.4394004, 0.66509956),
    ("ShackledChasm::SimosRun", "Simo's Run", false, 0.6844458, 0.8596173),
    ("ShackledChasm::Southreach", "Southreach", false, 0.4774761, 0.09446996),
    ("ShackledChasm::TheBellToll", "The Bell Toll", true, 0.6211396, 0.3829189),
    ("ShackledChasm::TheBlue", "The Blue", false, 0.5409541, 0.8753167),
    ("ShackledChasm::TheFirstRung", "The First Rung", false, 0.35477364, 0.44228175),
    ("ShackledChasm::TheFoolishMaidens", "The Foolish Maidens", false, 0.075329885, 0.57303905),
    ("ShackledChasm::TheGraveofRastus", "The Grave of Rastus", true, 0.6505256, 0.15729238),
    ("ShackledChasm::ThePlunging", "The Plunging", false, 0.19269316, 0.75184214),
    ("ShackledChasm::TheVanguard", "The Vanguard", true, 0.69273907, 0.6221794),
    ("ShackledChasm::WidowsWeb", "Widow's Web", false, 0.5278859, 0.6728514),
    ("DeadLands::AbandonedWard", "Abandoned Ward", true, 0.4065897, 0.4973474),
    ("DeadLands::BitingTarn", "Biting Tarn", false, 0.82187194, 0.70537686),
    ("DeadLands::BorderConcourse", "Border Concourse", false, 0.8157356, 0.39016595),
    ("DeadLands::BorderThicket", "Border Thicket", false, 0.575372, 0.32447058),
    ("DeadLands::BrineGlen", "Brine Glen", true, 0.72561765, 0.7220242),
    ("DeadLands::CallahansBelt", "Callahan's Belt", false, 0.65850776, 0.31060126),
    ("DeadLands::CallahansBoot", "Callahan's Boot", true, 0.5475686, 0.4907771),
    ("DeadLands::CallahansGate", "Callahan's Gate", true, 0.62483287, 0.110333465),
    ("DeadLands::CarpalTrail", "Carpal Trail", false, 0.29142216, 0.419198),
    ("DeadLands::CemetaryJunction", "Cemetary Junction", false, 0.3243318, 0.5793932),
    ("DeadLands::CemetaryLane", "Cemetary Lane", false, 0.38247642, 0.6585629),
    ("DeadLands::CoracoidFootpath", "Coracoid Footpath", false, 0.107194014, 0.40021968),
    ("DeadLands::CrumblingPassage", "Crumbling Passage", false, 0.41715685, 0.094843924),
    ("DeadLands::HopesCauseway", "Hope's Causeway", false, 0.52830327, 0.57945776),
    ("DeadLands::IronsEnd", "Iron's End", true, 0.46120775, 0.26207438),
    ("DeadLands::JasparRange", "Jaspar Range", false, 0.28807592, 0.6632166),
    ("DeadLands::LiberationPoint", "Liberation Point", true, 0.24296169, 0.5517707),
    ("DeadLands::MandibleCrossroads", "Mandible Crossroads", false, 0.20130293, 0.33566573),
    ("DeadLands::MarrowCopse", "Marrow Copse", false, 0.35198447, 0.3130791),
    ("DeadLands::MercyMeadow", "Mercy Meadow", false, 0.12712973, 0.54193884),
    ("DeadLands::MercysEnd", "Mercy's End", false, 0.6229164, 0.8306555),
    ("DeadLands::OvergrownPasture", "Overgrown Pasture", false, 0.15952048, 0.6434271),
    ("DeadLands::PathtotheSun", "Path to the Sun", false, 0.2729478, 0.8931891),
    ("DeadLands::PommelAnnex", "Pommel Annex", false, 0.48857507, 0.39334437),
    ("DeadLands::SunsHollow", "Sun's Hollow", true, 0.27335224, 0.7215378),
    ("DeadLands::SunhavenGateway", "Sunhaven Gateway", false, 0.38722476, 0.56053424),
    ("DeadLands::TarsalPathway", "Tarsal Pathway", false, 0.20509845, 0.41586992),
    ("DeadLands::TheAbbeyDrag", "The Abbey Drag", false, 0.7539659, 0.12900522),
    ("DeadLands::TheBlade", "The Blade", false, 0.5743842, 0.38184917),
    ("DeadLands::TheBoneyard", "The Boneyard", false, 0.5943891, 0.27163824),
    ("DeadLands::TheCrossing", "The Crossing", false, 0.41764602, 0.4466156),
    ("DeadLands::TheGreatMarch", "The Great March", false, 0.35632595, 0.88145),
    ("DeadLands::TheIronPassage", "The Iron Passage", false, 0.48119673, 0.31544363),
    ("DeadLands::TheIronRoad", "The Iron Road", false, 0.52781564, 0.13242057),
    ("DeadLands::ThePits", "The Pits", true, 0.4651194, 0.6297798),
    ("DeadLands::ThePlaza", "The Plaza", false, 0.42960146, 0.40103972),
    ("DeadLands::TheSaltFarms", "The Salt Farms", true, 0.4569705, 0.8376134),
    ("DeadLands::TheSaltMarch", "The Salt March", true, 0.82289404, 0.48192352),
    ("DeadLands::TheSaltTrail", "The Salt Trail", false, 0.40397635, 0.7451171),
    ("DeadLands::TheShornFields", "The Shorn Fields", false, 0.45553347, 0.91392154),
    ("DeadLands::TheSpine", "The Spine", true, 0.30697387, 0.23582822),
    ("DeadLands::TheSteppes", "The Steppes", false, 0.66786224, 0.5271883),
    ("Heartlands::18thSideroad", "18th Sideroad", false, 0.5635743, 0.07919855),
    ("Heartlands::Barronshire", "Barronshire ", false, 0.30404317, 0.5293029),
    ("Heartlands::Barronswall", "Barronswall", true, 0.39372203, 0.40942293),
    ("Heartlands::BarronyRanch", "Barrony Ranch", true, 0.3733477, 0.1098376),
    ("Heartlands::BarronyRoad", "Barrony Road", false, 0.4902308, 0.20186654),
    ("Heartlands::Cageroad", "Cageroad", false, 0.08390267, 0.58169395),
    ("Heartlands::CraterBasin", "Crater Basin", false, 0.27787402, 0.20430255),
    ("Heartlands::DeeplawPost", "Deeplaw Post", true, 0.24315597, 0.43437782),
    ("Heartlands::ErimosRanch", "Erimos Ranch", false, 0.5130686, 0.84595346),
    ("Heartlands::FortProvidence", "Fort Providence", true, 0.75807965, 0.3792637),
    ("Heartlands::GreenfieldOrchard", "Greenfield Orchard", true, 0.7317328, 0.20453982),
    ("Heartlands::HarvestersRange", "Harvester's Range", false, 0.47385046, 0.5450412),
    ("Heartlands::JanusField", "Janus Field", false, 0.41109726, 0.87362325),
    ("Heartlands::KosMeadows", "Kos Meadows", false, 0.23384759, 0.87482136),
    ("Heartlands::Loftmire", "Loftmire", false, 0.5516043, 0.44199702),
    ("Heartlands::LowerBarronyField", "Lower Barrony Field", false, 0.4626953, 0.31559077),
    ("Heartlands::OleanderFields", "Oleander Fields", false, 0.67658395, 0.639753),
    ("Heartlands::OleanderHomestead", "Oleander Homestead", true, 0.8278165, 0.4906847),
    ("Heartlands::PandoraCompound", "Pandora Compound", false, 0.44034275, 0.7100705),
    ("Heartlands::Proex??", "Proex??", true, 0.65262276, 0.8350459),
    ("Heartlands::ProvidenceField", "Providence Field", false, 0.6118128, 0.3481131),
    ("Heartlands::TheBlemish", "The Blemish", true, 0.6491603, 0.4668125),
    ("Heartlands::TheBreach", "The Breach", true, 0.36424437, 0.2708485),
    ("Heartlands::TheFumingPen", "The Fuming Pen", false, 0.19509101, 0.6871336),
    ("Heartlands::TheOrchardWall", "The Orchard Wall", false, 0.69853735, 0.24974519),
    ("Heartlands::ThePlough", "The Plough", true, 0.54745007, 0.24971269),
    ("Heartlands::TheRollcage", "The Rollcage", false, 0.15662682, 0.34313864),
    ("Heartlands::TheSaltCrossing", "The Salt Crossing", false, 0.78533167, 0.07084702),
    ("Heartlands::UpperBarronyField", "Upper Barrony Field", false, 0.47143874, 0.092723675),
    ("Heartlands::UpperHeartlands", "Upper Heartlands", false, 0.32511675, 0.11369127),
    ("LinnMercy::Blackroad", "Blackroad", false, 0.46516654, 0.16474915),
    ("LinnMercy::FortDuncan", "Fort Duncan", true, 0.73673666, 0.7660624),
    ("LinnMercy::GallantGoughBoulevard", "Gallant Gough Boulevard", false, 0.09820685, 0.43021995),
    ("LinnMercy::Hardline", "Hardline", true, 0.35991466, 0.58879375),
    ("LinnMercy::Lathair", "Lathair", true, 0.7258961, 0.3119082),
    ("LinnMercy::MercifulStrait", "Merciful Strait", false, 0.8419282, 0.67530245),
    ("LinnMercy::Mudhole", "Mudhole", false, 0.5700142, 0.30238822),
    ("LinnMercy::Nathair", "Nathair", false, 0.5938587, 0.41346693),
    ("LinnMercy::OutwichRanch", "Outwich Ranch", true, 0.8370126, 0.4868126),
    ("LinnMercy::Rotdust", "Rotdust", true, 0.5856841, 0.15178874),
    ("LinnMercy::SolasBurn", "Solas Burn", false, 0.73095423, 0.22541259),
    ("LinnMercy::TheCrimsonGardens", "The Crimson Gardens", true, 0.22958569, 0.62841123),
    ("LinnMercy::TheDrone", "The Drone", false, 0.19357644, 0.22261861),
    ("LinnMercy::TheFirstCoin", "The First Coin", true, 0.40840903, 0.7184508),
    ("LinnMercy::TheGreatScale", "The Great Scale", false, 0.4111321, 0.29084763),
    ("LinnMercy::TheLastGrove", "The Last Grove", true, 0.38268816, 0.8845894),
    ("LinnMercy::TheLongWhine", "The Long Whine", true, 0.35783502, 0.209964),
    ("LinnMercy::ThePrairieBazaar", "The Prairie Bazaar", true, 0.6143232, 0.7404008),
    ("LinnMercy::TheRiverMercy", "The River Mercy", false, 0.64159554, 0.6174841),
    ("LinnMercy::UlsterFalls", "Ulster Falls", true, 0.46410957, 0.45022747),
    ("EndlessShore::BalorsCrown", "Balor's Crown", false, 0.8295298, 0.33451718),
    ("EndlessShore::BatteredLanding", "Battered Landing", false, 0.3055171, 0.55011296),
    ("EndlessShore::BrackishPoint", "Brackish Point", true, 0.30299953, 0.15477471),
    ("EndlessShore::DannanRidge", "Dannan Ridge", true, 0.7488712, 0.22403175),
    ("EndlessShore::DeargsFang", "Dearg's Fang", false, 0.59473014, 0.36644128),
    ("EndlessShore::EnduringWake", "Enduring Wake", true, 0.20581831, 0.6122418),
    ("EndlessShore::IronJunction", "Iron Junction", true, 0.35952666, 0.7956661),
    ("EndlessShore::KelpiesMane", "Kelpie's Mane", false, 0.7760368, 0.63521427),
    ("EndlessShore::KelpiesTail", "Kelpie's Tail", false, 0.7194254, 0.67486936),
    ("EndlessShore::Liegehearth", "Liegehearth", false, 0.30281493, 0.4512878),
    ("EndlessShore::MerrowsRest", "Merrow's Rest", false, 0.78932536, 0.77107877),
    ("EndlessShore::SaltbrookChannel", "Saltbrook Channel", true, 0.303757, 0.38162574),
    ("EndlessShore::S??dheFall", "S??dhe Fall", false, 0.48438844, 0.29702434),
    ("EndlessShore::TheDannanCoast", "The Dannan Coast", false, 0.67474216, 0.2548824),
    ("EndlessShore::TheDarkRoad", "The Dark Road", false, 0.8369384, 0.49502707),
    ("EndlessShore::TheEvilEye", "The Evil Eye", true, 0.74394375, 0.45933223),
    ("EndlessShore::TheNorthStar", "The North Star", false, 0.30252346, 0.26164305),
    ("EndlessShore::TheOldJackTar", "The Old Jack Tar", true, 0.12129593, 0.50606096),
    ("EndlessShore::TheOverland", "The Overland", true, 0.57504135, 0.79666007),
    ("EndlessShore::TheSelkieBluffs", "The Selkie Bluffs", false, 0.57922477, 0.54058766),
    ("EndlessShore::TheStyx", "The Styx", false, 0.464723, 0.6391649),
    ("EndlessShore::TheWhisperingWaves", "The Whispering Waves", false, 0.66084594, 0.5801161),
    ("EndlessShore::TuathaWatchpost", "Tuatha Watchpost", true, 0.853922, 0.5507405),
    ("EndlessShore::VulpineWatch", "Vulpine Watch", true, 0.62842077, 0.1475563),
    ("EndlessShore::Wellchurch", "Wellchurch", true, 0.5146297, 0.45945293),
    ("EndlessShore::Woodbind", "Woodbind", true, 0.6993119, 0.7336695),
    ("Godcrofts::AnchorBeach", "Anchor Beach", true, 0.33879337, 0.91907495),
    ("Godcrofts::Argosa", "Argosa", false, 0.4455359, 0.4629214),
    ("Godcrofts::BaghM??r", "Bagh M??r", false, 0.45754752, 0.8384563),
    ("Godcrofts::BarrellersBay", "Barreller's Bay", false, 0.65878975, 0.45934907),
    ("Godcrofts::Blackwatch", "Blackwatch", true, 0.3415074, 0.7991088),
    ("Godcrofts::ChamilRavine", "Chamil Ravine", false, 0.47395247, 0.30361375),
    ("Godcrofts::DenofThieves", "Den of Thieves", false, 0.3221958, 0.63976383),
    ("Godcrofts::Exile", "Exile", false, 0.41336396, 0.6418172),
    ("Godcrofts::Isawa", "Isawa", true, 0.62136436, 0.80811846),
    ("Godcrofts::Kolas", "Kolas", false, 0.1527959, 0.64679915),
    ("Godcrofts::Lipsia", "Lipsia", false, 0.45892027, 0.21390341),
    ("Godcrofts::PeriptiDepths", "Peripti Depths", false, 0.26073462, 0.75151116),
    ("Godcrofts::PerpetuaChannel", "Perpetua Channel", false, 0.11155792, 0.34458795),
    ("Godcrofts::PrimusTrames", "Primus Trames", false, 0.321166, 0.47223058),
    ("Godcrofts::Promithiens", "Promithiens", true, 0.541576, 0.6364856),
    ("Godcrofts::Protos", "Protos", true, 0.1703909, 0.5030786),
    ("Godcrofts::Saegio", "Saegio", false, 0.4568375, 0.42920688),
    ("Godcrofts::Skodio", "Skodio", true, 0.5933204, 0.24777809),
    ("Godcrofts::TheAxehead", "The Axehead", true, 0.24177985, 0.33301017),
    ("Godcrofts::TheDiceRoad", "The Dice Road", false, 0.5630271, 0.33521596),
    ("Godcrofts::TheFleeceRoad", "The Fleece Road", true, 0.6615385, 0.8981667),
    ("Godcrofts::TheKrisFord", "The Kris Ford", false, 0.5956406, 0.72609246),
    ("Godcrofts::UrsaTrail", "Ursa Trail", false, 0.5877143, 0.94025785),
    ("Godcrofts::VicitLagoon", "Vicit Lagoon", false, 0.33476177, 0.36637142),
    ("FishermansRow::ALostSot", "A Lost Sot", false, 0.90655476, 0.49344444),
    ("FishermansRow::Arcadia", "Arcadia", true, 0.38920873, 0.73095393),
    ("FishermansRow::BidentCrossroads", "Bident Crossroads", false, 0.43450263, 0.6158199),
    ("FishermansRow::BlackWell", "Black Well", true, 0.38849574, 0.3066156),
    ("FishermansRow::CatStep", "Cat Step", false, 0.6206566, 0.032853466),
    ("FishermansRow::DankanaPost", "Dankana Post", false, 0.30517027, 0.6366062),
    ("FishermansRow::Eidolo", "Eidolo", true, 0.46337467, 0.52302),
    ("FishermansRow::FortEmber", "Fort Ember", true, 0.50422376, 0.70527685),
    ("FishermansRow::HangmensCourt", "Hangmen's Court", true, 0.77422845, 0.5360584),
    ("FishermansRow::HeartofRites", "Heart of Rites", false, 0.35531422, 0.46871832),
    ("FishermansRow::HouseRoloi", "House Roloi", false, 0.26010418, 0.77387524),
    ("FishermansRow::LakeNerites", "Lake Nerites", false, 0.32699662, 0.54289067),
    ("FishermansRow::LibertyHill", "Liberty Hill", false, 0.3673808, 0.35783792),
    ("FishermansRow::Oceanwatch", "Oceanwatch", true, 0.53076994, 0.3338183),
    ("FishermansRow::PartisanIsland", "Partisan Island", true, 0.6703404, 0.20176351),
    ("FishermansRow::PeriptiLanding", "Peripti Landing", true, 0.29418412, 0.4540274),
    ("FishermansRow::ProgonosWatch", "Progonos Watch", false, 0.50026, 0.4351574),
    ("FishermansRow::TheDireStrings", "The Dire Strings", false, 0.8424306, 0.6141279),
    ("FishermansRow::TheRiteRoad", "The Rite Road", false, 0.45041052, 0.38507676),
    ("FishermansRow::TheSatyrStone", "The Satyr Stone", true, 0.67093605, 0.6439194),
    ("FishermansRow::TheThreeSisters", "The Three Sisters", true, 0.684986, 0.3528056),
    ("FishermansRow::TorchofDemeter", "Torch of Demeter", false, 0.42485577, 0.6818831),
    ("Westgate::AshStep", "Ash Step", false, 0.64588916, 1.041789),
    ("Westgate::CandleHills", "Candle Hills", false, 0.3809478, 0.876076),
    ("Westgate::CattleMarch", "Cattle March", false, 0.43200865, 0.178799),
    ("Westgate::CeoHighlands", "Ceo Highlands", false, 0.6742479, 0.9047628),
    ("Westgate::CinderRoad", "Cinder Road", false, 0.41563344, 1.0379049),
    ("Westgate::Coasthill", "Coasthill", false, 0.7492962, 0.5232728),
    ("Westgate::Coastway", "Coastway", false, 0.5137713, 0.98847944),
    ("Westgate::CobbersLane", "Cobber's Lane", false, 0.81818783, 0.3048373),
    ("Westgate::EmberHills", "Ember Hills", false, 0.555335, 1.0591571),
    ("Westgate::FandsChain", "Fand's Chain", false, 0.25625902, 0.14081238),
    ("Westgate::FieldsofBadb", "Fields of Badb", false, 0.51419544, 0.15018566),
    ("Westgate::FlidaisPasture", "Flidais' Pasture", false, 0.6924164, 0.22017962),
    ("Westgate::HandsomeHideaway", "Handsome Hideaway", false, 0.33405593, 0.4992943),
    ("Westgate::Hillcrest", "Hillcrest", false, 0.64205915, 0.6253394),
    ("Westgate::Holdfast", "Holdfast", true, 0.46443552, 0.27771717),
    ("Westgate::InkwellLane", "Inkwell Lane", false, 0.5928621, 0.10583429),
    ("Westgate::KardiaRoad", "Kardia Road", false, 0.5908896, 0.178799),
    ("Westgate::KillianQuarter", "Killian Quarter", false, 0.7891662, 0.16007636),
    ("Westgate::Kingstone", "Kingstone", true, 0.64355624, 0.41088805),
    ("Westgate::Longstone", "Longstone", true, 0.6454746, 0.7234395),
    ("Westgate::LordsMouth", "Lord's Mouth", true, 0.82933867, 0.4307491),
    ("Westgate::LostPartition", "Lost Partition", true, 0.8150013, 0.5756538),
    ("Westgate::RanchersFast", "Rancher's Fast", true, 0.69447815, 0.18181983),
    ("Westgate::ReaversCove", "Reaver's Cove", false, 0.4750435, 0.5243521),
    ("Westgate::SanctifiedPath", "Sanctified Path", false, 0.63349, 0.8222307),
    ("Westgate::Sanctuary", "Sanctuary", true, 0.23537217, 0.26691732),
    ("Westgate::S??och??naValley", "S??och??na Valley", false, 0.5804643, 0.8998509),
    ("Westgate::TaswellPoint", "Taswell Point", false, 0.54965186, 0.79319614),
    ("Westgate::TheAgingOcean", "The Aging Ocean", false, 0.114025585, 0.663528),
    ("Westgate::TheBulwark", "The Bulwark", false, 0.76893073, 0.6432597),
    ("Westgate::TheDivide", "The Divide", false, 0.48302627, 0.8998509),
    ("Westgate::TheGallows", "The Gallows", true, 0.3637351, 0.1061458),
    ("Westgate::TheHem", "The Hem", false, 0.7906987, 0.74425286),
    ("Westgate::TheKingsRoad", "The King's Road", false, 0.7325495, 0.4098496),
    ("Westgate::TheKnightsEdge", "The Knight's Edge", false, 0.579454, 0.28919458),
    ("Westgate::TritonsCurse", "Triton's Curse", false, 0.2009395, 0.88355315),
    ("Westgate::WardenWalk", "Warden Walk", false, 0.8698958, 0.5327038),
    ("Westgate::WesternHeartlands", "Western Heartlands", false, 0.7199143, 0.343739),
    ("Westgate::WestgateKeep", "Westgate Keep", true, 0.59599173, 0.56367874),
    ("Westgate::WireRoad", "Wire Road", false, 0.69118434, 0.2610858),
    ("Westgate::Wyattwick", "Wyattwick", true, 0.29039592, 0.81640434),
    ("Westgate::ZeusDemise", "Zeus' Demise", true, 0.4019617, 0.7723668),
    ("ReachingTrail::Brodytown", "Brodytown", true, 0.44412765, 0.3227743),
    ("ReachingTrail::CampEos", "Camp Eos", false, 0.7520739, 0.70374876),
    ("ReachingTrail::Caragtais", "Caragtais", false, 0.45057085, 0.5294064),
    ("ReachingTrail::DuffysFarm", "Duffy's Farm", false, 0.2719318, 0.56807905),
    ("ReachingTrail::DugansApproach", "Dugan's Approach", false, 0.6922709, 0.1538672),
    ("ReachingTrail::Dwyersfield", "Dwyersfield", false, 0.2087289, 0.26713523),
    ("ReachingTrail::Dwyerstown", "Dwyerstown", true, 0.15061852, 0.36391303),
    ("ReachingTrail::Elksford", "Elksford", true, 0.33049652, 0.4971746),
    ("ReachingTrail::Featherfield", "Featherfield", false, 0.4406717, 0.798611),
    ("ReachingTrail::FishermansFloe", "Fisherman's Floe", false, 0.6400806, 0.5572313),
    ("ReachingTrail::FortMacConaill", "Fort Mac Conaill", true, 0.70212996, 0.8482764),
    ("ReachingTrail::Harpy", "Harpy", true, 0.44333068, 0.9163655),
    ("ReachingTrail::Hookhall", "Hookhall", false, 0.36672696, 0.6498256),
    ("ReachingTrail::Humidus", "Humidus", false, 0.27232808, 0.66734344),
    ("ReachingTrail::IceRanch", "Ice Ranch", true, 0.70420206, 0.3878927),
    ("ReachingTrail::LimestoneHoldfast", "Limestone Holdfast", false, 0.27798548, 0.16184786),
    ("ReachingTrail::MacConaillsPass", "Mac Conaill's Pass", false, 0.61724085, 0.985965),
    ("ReachingTrail::Mousetrap", "Mousetrap", true, 0.8401006, 0.53316337),
    ("ReachingTrail::Nightchurch", "Nightchurch", true, 0.37822467, 0.74487805),
    ("ReachingTrail::Pitfall", "Pitfall", false, 0.87784535, 0.37858298),
    ("ReachingTrail::Puncta", "Puncta", false, 0.18530942, 0.5888269),
    ("ReachingTrail::Reprieve", "Reprieve", true, 0.54468614, 0.67606056),
    ("ReachingTrail::Scorpion", "Scorpion", false, 0.33854625, 0.86316854),
    ("ReachingTrail::TheArk", "The Ark", true, 0.74158484, 0.5578975),
    ("ReachingTrail::TheBait", "The Bait", false, 0.708999, 0.5577328),
    ("ReachingTrail::TheCairns", "The Cairns", false, 0.60312855, 0.23888308),
    ("ReachingTrail::TheChickenCoop", "The Chicken Coop", false, 0.32071957, 0.4145506),
    ("ReachingTrail::TheDeckard", "The Deckard", false, 0.4275156, 0.041210115),
    ("ReachingTrail::TheKnot", "The Knot", false, 0.44904447, 0.6583204),
    ("ReachingTrail::TheReachingHeights", "The Reaching Heights", false, 0.546316, 0.547519),
    ("ReachingTrail::TheRimeLedge", "The Rime Ledge", false, 0.89936477, 0.74528646),
    ("ReachingTrail::TheRousingFields", "The Rousing Fields", false, 0.23695965, 0.46786177),
    ("ReachingTrail::TheScar", "The Scar", false, 0.29426545, 0.5436782),
    ("ReachingTrail::TheSqueeze", "The Squeeze", false, 0.3175878, 1.0565143),
    ("ReachingTrail::Th??lak", "Th??lak", false, 0.11808629, 0.7405652),
    ("ReachingTrail::WindyWay", "Windy Way", false, 0.22708872, 0.078611076),
    ("UmbralWildwood::AdzeCrossroads", "Adze Crossroads", false, 0.357383, 0.38652703),
    ("UmbralWildwood::Amethyst", "Amethyst", true, 0.8178504, 0.38884524),
    ("UmbralWildwood::AtroposFate", "Atropos' Fate", true, 0.5730031, 0.7843336),
    ("UmbralWildwood::ClothosRefuge", "Clotho's Refuge", true, 0.61337584, 0.32398352),
    ("UmbralWildwood::Dredgefield", "Dredgefield", false, 0.7840042, 0.85631174),
    ("UmbralWildwood::GoldenConcourse", "Golden Concourse", false, 0.15095828, 0.71263796),
    ("UmbralWildwood::GoldenRootRanch", "GoldenRoot Ranch", true, 0.15671077, 0.5505076),
    ("UmbralWildwood::HermitsRest", "Hermit's Rest", true, 0.67122585, 0.6176634),
    ("UmbralWildwood::LachesisTally", "Lachesis' Tally ", true, 0.840556, 0.54475015),
    ("UmbralWildwood::LeatherbackPathway", "Leatherback Pathway", false, 0.7109991, 0.37403926),
    ("UmbralWildwood::Sentry", "Sentry", true, 0.395983, 0.8252861),
    ("UmbralWildwood::SteelyFields", "Steely Fields", false, 0.16732694, 0.32295418),
    ("UmbralWildwood::Stray", "Stray", true, 0.6767252, 0.1845278),
    ("UmbralWildwood::TerrapinWoods", "Terrapin Woods", false, 0.73006326, 0.49094966),
    ("UmbralWildwood::TheDredgewood", "The Dredgewood", false, 0.78483456, 0.66172403),
    ("UmbralWildwood::TheFoundry", "The Foundry", true, 0.27597004, 0.2246597),
    ("UmbralWildwood::TheFrontier", "The Frontier", false, 0.61156416, 0.721657),
    ("UmbralWildwood::TheGap", "The Gap", false, 0.42371795, 0.5318492),
    ("UmbralWildwood::TheStrands", "The Strands", false, 0.5069804, 0.23784174),
    ("UmbralWildwood::ThunderRow", "Thunder Row", false, 0.26085073, 0.66316617),
    ("UmbralWildwood::Thunderfoot", "Thunderfoot", true, 0.34593302, 0.51468116),
    ("UmbralWildwood::VagrantBastion", "Vagrant Bastion", true, 0.5076587, 0.1616039),
    ("UmbralWildwood::WastingHolt", "Wasting Holt", false, 0.5504174, 0.9400169),
    ("UmbralWildwood::WeaversTrail", "Weaver's Trail", false, 0.55006844, 0.44620684),
    ("Oarbreaker::Barrenson", "Barrenson", false, 0.20925796, 0.58191305),
    ("Oarbreaker::BaseAkri", "Base Akri", true, 0.9117557, 0.51201063),
    ("Oarbreaker::Castor", "Castor", false, 0.25655335, 0.503573),
    ("Oarbreaker::CrachWoods", "Crach Woods", false, 0.44473228, 0.35592464),
    ("Oarbreaker::Fogwood", "Fogwood", false, 0.72000915, 0.13007016),
    ("Oarbreaker::Gold", "Gold", true, 0.49749142, 0.16744888),
    ("Oarbreaker::GrislyRefuge", "Grisly Refuge", false, 0.306169, 0.6532009),
    ("Oarbreaker::Integrum", "Integrum", true, 0.6686882, 0.773776),
    ("Oarbreaker::KofteriChannel", "Kofteri Channel", false, 0.4581904, 0.83506876),
    ("Oarbreaker::LionsHead", "Lion's Head", true, 0.3283593, 0.89686215),
    ("Oarbreaker::Martius", "Martius", false, 0.84350735, 0.2846215),
    ("Oarbreaker::MountMarce", "Mount Marce", false, 0.5775114, 0.31234464),
    ("Oarbreaker::NeptunesThrone", "Neptune's Throne", false, 0.60160726, 0.17799203),
    ("Oarbreaker::Oasis", "Oasis", false, 0.5653535, 0.916719),
    ("Oarbreaker::Obitum", "Obitum", false, 0.5717222, 0.7513693),
    ("Oarbreaker::Pollux", "Pollux", false, 0.2113825, 0.5136759),
    ("Oarbreaker::Posterus", "Posterus", true, 0.79465634, 0.6755905),
    ("Oarbreaker::Reliqua", "Reliqua", true, 0.6536689, 0.21361786),
    ("Oarbreaker::SandalwoodBeach", "Sandalwood Beach", false, 0.5139656, 0.2979552),
    ("Oarbreaker::SheepsHead", "Sheep's Head", false, 0.4270079, 0.9615619),
    ("Oarbreaker::Silver", "Silver", false, 0.27285343, 0.2775804),
    ("Oarbreaker::SkelterCourse", "Skelter Course", true, 0.60323334, 0.42578885),
    ("Oarbreaker::SkullBeach", "Skull Beach", false, 0.48592106, 0.45108822),
    ("Oarbreaker::TheConclave", "The Conclave", true, 0.51089185, 0.624818),
    ("Oarbreaker::TheDirk", "The Dirk", false, 0.43934482, 0.7884207),
    ("Oarbreaker::TheEmblem", "The Emblem", false, 0.72488797, 0.25433928),
    ("Oarbreaker::TheIdes", "The Ides", true, 0.85254693, 0.3931426),
    ("CallahansPassage::CallahansEye", "Callahan's Eye", false, 0.30864334, 0.26224336),
    ("CallahansPassage::ChapelAccess", "Chapel Access", false, 0.8670075, 0.52318686),
    ("CallahansPassage::Cragsfield", "Cragsfield", false, 0.5690361, 0.19898543),
    ("CallahansPassage::Cragsroad", "Cragsroad", false, 0.44606456, 0.35310647),
    ("CallahansPassage::Cragstown", "Cragstown", true, 0.51669085, 0.13976866),
    ("CallahansPassage::CrumblingPost", "Crumbling Post", true, 0.35385895, 0.7248818),
    ("CallahansPassage::LingeringLashes", "Lingering Lashes", false, 0.39600572, 0.16319244),
    ("CallahansPassage::Lochan", "Lochan", false, 0.54940885, 0.5079033),
    ("CallahansPassage::LochanBerth", "Lochan Berth", true, 0.56270015, 0.42374668),
    ("CallahansPassage::LostTops", "Lost Tops", false, 0.2450918, 0.87107843),
    ("CallahansPassage::OverlookHill", "Overlook Hill", true, 0.5252302, 0.6481513),
    ("CallahansPassage::Sc??thPassing", "Sc??th Passing", true, 0.34909955, 0.53184307),
    ("CallahansPassage::SiocApproach", "Sioc Approach", false, 0.6218272, 0.67211956),
    ("CallahansPassage::SolasGateway", "Solas Gateway", false, 0.23241858, 0.42319626),
    ("CallahansPassage::SolasGorge", "Solas Gorge", true, 0.19406947, 0.33073047),
    ("CallahansPassage::SouredFields", "Soured Fields", false, 0.09100611, 0.532157),
    ("CallahansPassage::TheCrumblingPassage", "The Crumbling Passage", true, 0.45544657, 0.7847246),
    ("CallahansPassage::TheKey", "The Key", false, 0.7205697, 0.9363465),
    ("CallahansPassage::TheLance", "The Lance", false, 0.38485914, 0.07471772),
    ("CallahansPassage::TheLatch", "The Latch", true, 0.72713715, 0.68313295),
    ("CallahansPassage::TheProcession", "The Procession", true, 0.7513888, 0.43929663),
    ("CallahansPassage::TheRustRoad", "The Rust Road", false, 0.20239393, 0.69895375),
    ("CallahansPassage::TheStern", "The Stern", false, 0.7807102, 0.7850171),
    ("CallahansPassage::TwistedMumble", "Twisted Mumble", false, 0.6754054, 0.17212075),
    ("CallahansPassage::WhisperingGulch", "Whispering Gulch", false, 0.49615276, 1.0449303),
    ("CallahansPassage::WhiteChapel", "White Chapel", true, 0.7634679, 0.2669874),
    ("CallahansPassage::WindingCrag", "Winding Crag", false, 0.52042425, 0.24549948),
    ("DrownedVale::Bootnap", "Bootnap", true, 0.80842125, 0.5582795),
    ("DrownedVale::CoaldrifterStead", "Coaldrifter Stead", true, 0.66231805, 0.82284665),
    ("DrownedVale::Eastmarch", "Eastmarch", true, 0.2335479, 0.5278097),
    ("DrownedVale::Esterfal", "Esterfal", false, 0.7868035, 0.6955586),
    ("DrownedVale::FleetsfallRiver", "Fleetsfall River", false, 0.48596796, 0.08352051),
    ("DrownedVale::Linger", "Linger", false, 0.4844155, 0.3447626),
    ("DrownedVale::Loggerhead", "Loggerhead", true, 0.4150385, 0.20794752),
    ("DrownedVale::SingingSerpents", "Singing Serpents", true, 0.6632067, 0.31274968),
    ("DrownedVale::SopFields", "Sop Fields", false, 0.51988655, 0.6732017),
    ("DrownedVale::SplinterPens", "Splinter Pens", true, 0.47195154, 0.8008652),
    ("DrownedVale::SpritesGame", "Sprite's Game", false, 0.32643563, 0.4329372),
    ("DrownedVale::TheBaths", "The Baths", true, 0.5683618, 0.52607054),
    ("DrownedVale::TheOtherVein", "The Other Vein", false, 0.120904915, 0.6001116),
    ("DrownedVale::TheSaltcaps", "The Saltcaps", true, 0.63300836, 0.16928926),
    ("DrownedVale::TheTurtlerocks", "The Turtlerocks", false, 0.5794284, 0.35845056),
    ("DrownedVale::TheWash", "The Wash", true, 0.38150814, 0.5121856),
    ("DrownedVale::TheWillowWood", "The Willow Wood", false, 0.30738774, 0.8374743),
    ("DrownedVale::Vessel", "Vessel", true, 0.36351255, 0.715022),
    ("DrownedVale::WispsWarning", "Wisp's Warning", true, 0.33081633, 0.29379123),
    ("FarranacCoast::ApollosLanding", "Apollo's Landing", false, 0.4314927, 0.57976526),
    ("FarranacCoast::CarrionFields", "Carrion Fields", false, 0.61662257, 0.45785448),
    ("FarranacCoast::CoraLushlands", "Cora Lushlands", false, 0.54585594, 0.8671113),
    ("FarranacCoast::CormacBeach", "Cormac Beach", false, 0.4727384, 0.78347987),
    ("FarranacCoast::GulfoftheDaughters", "Gulf of the Daughters", false, 0.016857829, 0.58329874),
    ("FarranacCoast::HermesInlet", "Hermes Inlet", false, 0.2707489, 0.432295),
    ("FarranacCoast::Huskhollow", "Huskhollow", true, 0.5860919, 0.56278074),
    ("FarranacCoast::IuxtaHomestead", "Iuxta Homestead", true, 0.7127172, 0.19546622),
    ("FarranacCoast::Kardia", "Kardia", false, 0.6261059, 0.86518013),
    ("FarranacCoast::LiberationStreet", "Liberation Street", false, 0.8314815, 0.8458243),
    ("FarranacCoast::MachasKeening", "Macha's Keening", true, 0.70205057, 0.7824685),
    ("FarranacCoast::Mara", "Mara", true, 0.8549706, 0.48427492),
    ("FarranacCoast::McCarthyFields", "McCarthy Fields", false, 0.6015004, 0.7810918),
    ("FarranacCoast::MooringDens", "Mooring Dens", false, 0.5923805, 0.28515506),
    ("FarranacCoast::PleadingWharf", "Pleading Wharf", true, 0.6262762, 0.71746904),
    ("FarranacCoast::ScarpofAmbrose", "Scarp of Ambrose", true, 0.4770394, 0.37934086),
    ("FarranacCoast::Scythe", "Scythe", true, 0.78855526, 0.34850213),
    ("FarranacCoast::SickleHill", "Sickle Hill", false, 0.4659355, 0.44424376),
    ("FarranacCoast::SkeletonRoad", "Skeleton Road", false, 0.59403133, 0.35402375),
    ("FarranacCoast::SunderBeach", "Sunder Beach", false, 0.35613468, 0.4198639),
    ("FarranacCoast::Terra", "Terra", true, 0.6119086, 0.40515536),
    ("FarranacCoast::TheBayofArtemis", "The Bay of Artemis", false, 0.35195225, 0.6874335),
    ("FarranacCoast::TheBoneHaft", "The Bone Haft", true, 0.49903932, 0.20359577),
    ("FarranacCoast::TheHeartRoad", "The Heart Road", false, 0.66623056, 0.9169244),
    ("FarranacCoast::TheIronBeach", "The Iron Beach", false, 0.3352979, 0.26261732),
    ("FarranacCoast::TheJadeCove", "The Jade Cove", true, 0.4322609, 0.6490256),
    ("FarranacCoast::TheMirror", "The Mirror", false, 0.8247223, 0.41111124),
    ("FarranacCoast::TheReapingFields", "The Reaping Fields", false, 0.6509468, 0.51992047),
    ("FarranacCoast::TheRiverMercy", "The River Mercy", false, 0.57574064, 0.6521498),
    ("FarranacCoast::TheSnag", "The Snag", false, 0.89351374, 0.7870541),
    ("FarranacCoast::TheSpearhead", "The Spearhead", true, 0.25413433, 0.2014643),
    ("FarranacCoast::TheWingedWalk", "The Winged Walk", false, 0.7980949, 0.6511161),
    ("FarranacCoast::TransientValley", "Transient Valley", false, 0.62650084, 0.17376602),
    ("FarranacCoast::Victa", "Victa", true, 0.4417568, 0.8744741),
    ("MooringCounty::Borderlane", "Borderlane", false, 0.68016315, 0.05430618),
    ("MooringCounty::GravekeepersHoldfast", "Gravekeeper's Holdfast", true, 0.4243501, 0.68474805),
    ("MooringCounty::Headstone", "Headstone", true, 0.47541752, 0.49520585),
    ("MooringCounty::LuchsWorkshop", "Luch's Workshop", true, 0.7218184, 0.20239134),
    ("MooringCounty::LyonsWood", "Lyon's Wood", false, 0.88474876, 0.3929681),
    ("MooringCounty::MacConmaraBarrows", "MacConmara Barrows", true, 0.5829396, 0.8054959),
    ("MooringCounty::MoonsWalk", "Moon's Walk", false, 0.42077473, 0.3419856),
    ("MooringCounty::MorrighansGrave", "Morrighan's Grave", true, 0.7286388, 0.6069982),
    ("MooringCounty::Ogmaran", "Ogmaran", true, 0.4312115, 0.17043234),
    ("MooringCounty::ReachingRiver", "Reaching River", false, 0.63385016, 0.15762547),
    ("MooringCounty::Riverhill", "Riverhill", false, 0.6587685, 0.23843731),
    ("MooringCounty::Sc??thCopse", "Sc??th Copse", false, 0.8642956, 0.55962217),
    ("MooringCounty::TheCut", "The Cut", true, 0.2518527, 0.74158436),
    ("MooringCounty::TheGraveyard", "The Graveyard", false, 0.3741754, 0.5396971),
    ("MooringCounty::TheMound", "The Mound", false, 0.5293958, 0.6347808),
    ("MooringCounty::TheSpade", "The Spade", true, 0.24432048, 0.43665987),
    ("MooringCounty::TheWindHills", "The Wind Hills", true, 0.37567636, 0.89409083),
    ("MooringCounty::Wiccwalk", "Wiccwalk", true, 0.77282596, 0.7926232),
    ("MooringCounty::Wiccwood", "Wiccwood", false, 0.64314055, 0.4514375),
    ("WeatheredExpanse::Bannerwatch", "Bannerwatch", false, 0.04483044, 0.87344664),
    ("WeatheredExpanse::Barrowsfield", "Barrowsfield", false, 0.43067294, 0.4653978),
    ("WeatheredExpanse::CrowsNest", "Crow's Nest", true, 0.27000988, 0.52244484),
    ("WeatheredExpanse::DullahansCrest", "Dullahan's Crest", false, 0.14920744, 0.61690384),
    ("WeatheredExpanse::Eapoe", "Eapoe", false, 0.4408721, 0.6718143),
    ("WeatheredExpanse::Foxcatcher", "Foxcatcher", true, 0.5164818, 0.7780801),
    ("WeatheredExpanse::Frostmarch", "Frostmarch", true, 0.15492144, 0.4631941),
    ("WeatheredExpanse::Huntsfort", "Huntsfort", true, 0.48584694, 0.5349745),
    ("WeatheredExpanse::Kirkyard", "Kirkyard", false, 0.29680702, 0.622848),
    ("WeatheredExpanse::Necropolis", "Necropolis", true, 0.34740227, 0.688721),
    ("WeatheredExpanse::PortofRime", "Port of Rime", true, 0.68206143, 0.12976617),
    ("WeatheredExpanse::RevenantsPath", "Revenant's Path", false, 0.5494643, 0.15349369),
    ("WeatheredExpanse::RimeWastes", "Rime Wastes", false, 0.2378497, 0.39045998),
    ("WeatheredExpanse::ShatteredAdvance", "Shattered Advance", true, 0.38944197, 0.30851248),
    ("WeatheredExpanse::SpiritWatch", "Spirit Watch", true, 0.6523898, 0.7255189),
    ("WeatheredExpanse::TheIvoryBank", "The Ivory Bank", false, 0.42168927, 0.92702323),
    ("WeatheredExpanse::TheIvorySea", "The Ivory Sea", false, 0.17670101, 0.7257215),
    ("WeatheredExpanse::TheSpear", "The Spear", false, 0.7011145, 0.3084089),
    ("WeatheredExpanse::TheStand", "The Stand", false, 0.089226045, 0.36507604),
    ("WeatheredExpanse::TheWeatheredWall", "The Weathered Wall", false, 0.18046375, 0.18551047),
    ("WeatheredExpanse::TheWeatheringHalls", "The Weathering Halls", true, 0.46095482, 0.157184),
    ("WeatheredExpanse::Wightwalk", "Wightwalk", true, 0.69054574, 0.49786863),
    ("WeatheredExpanse::WraithsGate", "Wraith's Gate", false, 0.5287201, 0.43321595),
    ("LochMor::BastardsBlade", "Bastard's Blade", false, 0.21080314, 0.80878794),
    ("LochMor::ChatteringPrairie", "Chattering Prairie", false, 0.6458292, 0.30650327),
    ("LochMor::Escape", "Escape", false, 0.7199372, 0.9053458),
    ("LochMor::FallenFields", "Fallen Fields", false, 0.51105756, 0.5317777),
    ("LochMor::Feirmor", "Feirmor", true, 0.5025071, 0.43424636),
    ("LochMor::LakeSeverspring", "Lake Severspring", false, 0.13459364, 0.67867845),
    ("LochMor::LochMor", "Loch Mor", false, 0.46350145, 0.2706248),
    ("LochMor::MarketRoad", "Market Road", true, 0.20417798, 0.5151306),
    ("LochMor::MercysWish", "Mercy's Wish", true, 0.45450157, 0.13036008),
    ("LochMor::MissingBones", "Missing Bones", false, 0.8544347, 0.30717325),
    ("LochMor::MoonsCopse", "Moon's Copse", true, 0.77075344, 0.5080013),
    ("LochMor::Ousterdown", "Ousterdown", false, 0.20533797, 0.66187173),
    ("LochMor::Pockfields", "Pockfields", false, 0.5352733, 0.66082114),
    ("LochMor::Rip", "Rip", false, 0.48696944, 0.7814131),
    ("LochMor::Tear", "Tear", false, 0.6765988, 0.7775864),
    ("LochMor::TheFoundingFields", "The Founding Fields", false, 0.51761055, 0.9304205),
    ("LochMor::TheGlean", "The Glean", false, 0.14058694, 0.49662516),
    ("LochMor::TheReapingRoad", "The Reaping Road", false, 0.30018386, 0.03367163),
    ("LochMor::TheRoilfort", "The Roilfort", true, 0.5841027, 0.75919765),
    ("LochMor::TomboftheFirst", "Tomb of the First", true, 0.26635438, 0.20696227),
    ("LochMor::Westmarch", "Westmarch", true, 0.62941134, 0.15675731),
    ("LochMor::WidowsWail", "Widow's Wail", false, 0.33518988, 0.76240003),
];

#[test]
fn catalogue_holds_the_upstream_data() {
    for (name, display, major, x, y) in UPSTREAM {
        let location = MapLocation::from_name(name).unwrap();
        let (region, key) = location.name_api();
        assert_eq!(format!("{}::{}", region, key), name);
        assert_eq!(location.name_friendly(), (region, display));
        assert_eq!(location.is_major(), major, "{}", name);
        let at = location.coords();
        assert_eq!(at.0 as f64 / COORD_UNIT as f64, x, "{}", name);
        assert_eq!(at.1 as f64 / COORD_UNIT as f64, y, "{}", name);
    }
}

#[test]
fn catalogue_holds_nothing_else() {
    let mut listed = Vec::new();
    for region in Region::all() {
        for location in region.locations() {
            let (region, key) = location.name_api();
            listed.push(format!("{}::{}", region, key));
        }
    }
    let upstream: Vec<&str> = UPSTREAM.iter().map(|row| row.0).collect();
    assert_eq!(listed, upstream);
}
