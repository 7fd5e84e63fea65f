//! The values that the appliance is known to take: phases, capabilities,
//! speeds and the settings of a capability.

use crate::model::{
    CapabilityPhase, CapabilityPhaseView, CapabilitySetting, CapabilitySettingView, Named,
    ReferenceCapability, ReferenceSetting, ReferenceSettingId, ReferenceSettingView,
    ReferenceValue, SettingValue, SettingValueView,
};
use crate::table::str_equal;
use vstd::prelude::*;

verus! {

/// A vocabulary with a fixed list of known entries.
pub trait KnownOptions: DeepView + Sized {
    /// The known entries, in the order in which they are offered.
    spec fn options() -> Seq<Self::V>;

    /// The known entries.
    fn known_options() -> (known: Vec<Self>)
        ensures
            known.deep_view() == Self::options(),
    ;
}

fn capability(id: &str, name: &str) -> (c: ReferenceCapability)
    ensures
        c.deep_view() == (Named { id: id@, name: name@ }),
{
    ReferenceCapability { id: id.to_owned(), name: name.to_owned() }
}

fn value(id: &str, name: &str) -> (v: ReferenceValue)
    ensures
        v.deep_view() == (Named { id: id@, name: name@ }),
{
    ReferenceValue { id: id.to_owned(), name: name.to_owned() }
}

fn one_phase(first: &str) -> (phases: Vec<String>)
    ensures
        phases.deep_view() == seq![first@],
{
    let phases = vec![first.to_owned()];
    assert(phases.deep_view() =~= seq![first@]);
    phases
}

fn two_phases(first: &str, second: &str) -> (phases: Vec<String>)
    ensures
        phases.deep_view() == seq![first@, second@],
{
    let phases = vec![first.to_owned(), second.to_owned()];
    assert(phases.deep_view() =~= seq![first@, second@]);
    phases
}

fn phase(id: &str, name: &str, can_follow_phases: Vec<String>) -> (p: CapabilityPhase)
    ensures
        p.deep_view() == (CapabilityPhaseView {
            can_follow_phases: can_follow_phases.deep_view(),
            id: id@,
            name: name@,
        }),
{
    CapabilityPhase { can_follow_phases, id: id.to_owned(), name: name.to_owned() }
}

/// The phases of a programme. A programme runs after it was preheated or set
/// up; it is taken down or modified after it ran or was modified.
pub open spec fn known_phases() -> Seq<CapabilityPhaseView> {
    seq![
        CapabilityPhaseView {
            can_follow_phases: seq!["cckg:PreheatInitializationPhase"@, "cckg:SetUpPhase"@],
            id: "cckg:ExecutionPhase"@,
            name: "run"@,
        },
        CapabilityPhaseView {
            can_follow_phases: seq!["cckg:SetUpPhase"@],
            id: "cckg:PreheatInitializationPhase"@,
            name: "preheat"@,
        },
        CapabilityPhaseView {
            can_follow_phases: seq!["cckg:PreheatInitializationPhase"@],
            id: "cckg:SetUpPhase"@,
            name: "set up"@,
        },
        CapabilityPhaseView {
            can_follow_phases: seq!["cckg:ExecutionPhase"@, "cckg:UpdatePhase"@],
            id: "cckg:TakeDownPhase"@,
            name: "take down"@,
        },
        CapabilityPhaseView {
            can_follow_phases: seq!["cckg:ExecutionPhase"@, "cckg:UpdatePhase"@],
            id: "cckg:UpdatePhase"@,
            name: "modify"@,
        },
    ]
}

impl KnownOptions for CapabilityPhase {
    open spec fn options() -> Seq<CapabilityPhaseView> {
        known_phases()
    }

    fn known_options() -> (known: Vec<CapabilityPhase>) {
        let known = vec![
            phase("cckg:ExecutionPhase", "run", two_phases("cckg:PreheatInitializationPhase", "cckg:SetUpPhase")),
            phase("cckg:PreheatInitializationPhase", "preheat", one_phase("cckg:SetUpPhase")),
            phase("cckg:SetUpPhase", "set up", one_phase("cckg:PreheatInitializationPhase")),
            phase("cckg:TakeDownPhase", "take down", two_phases("cckg:ExecutionPhase", "cckg:UpdatePhase")),
            phase("cckg:UpdatePhase", "modify", two_phases("cckg:ExecutionPhase", "cckg:UpdatePhase")),
        ];
        assert(known.deep_view() =~= known_phases());
        known
    }
}

/// The capabilities of the appliance, in the order of their ids.
pub open spec fn known_capabilities() -> Seq<Named> {
    seq![
        Named { id: "cckg:Bake"@, name: "bake"@ },
        Named { id: "cckg:Beat"@, name: "beat"@ },
        Named { id: "cckg:Cook"@, name: "cook"@ },
        Named { id: "cckg:Knead"@, name: "knead"@ },
        Named { id: "cckg:Mix"@, name: "mix"@ },
        Named { id: "cckg:Prove"@, name: "proof"@ },
        Named { id: "cckg:Steam"@, name: "steam"@ },
        Named { id: "cckg:Stir"@, name: "stir"@ },
        Named { id: "cckg:Whisk"@, name: "whisk"@ },
        Named { id: "kitchenos:Kenwood:AssistedStir"@, name: "Assisted Stir"@ },
        Named { id: "kitchenos:Kenwood:Beat"@, name: "Beat"@ },
        Named { id: "kitchenos:Kenwood:Bechamel1"@, name: "Bechamel 1"@ },
        Named { id: "kitchenos:Kenwood:Bechamel2"@, name: "Bechamel 2"@ },
        Named { id: "kitchenos:Kenwood:Blender"@, name: "Blender"@ },
        Named { id: "kitchenos:Kenwood:ChopHerbs"@, name: "Chop Herbs"@ },
        Named { id: "kitchenos:Kenwood:ChopMeat"@, name: "Chop Meat"@ },
        Named { id: "kitchenos:Kenwood:ChopNuts"@, name: "Chop Nuts"@ },
        Named { id: "kitchenos:Kenwood:ChopVegetables"@, name: "Chop Vegetables"@ },
        Named { id: "kitchenos:Kenwood:CoarseBlend"@, name: "Coarse Blend"@ },
        Named { id: "kitchenos:Kenwood:Cook"@, name: "Cook"@ },
        Named { id: "kitchenos:Kenwood:Dicing"@, name: "Dicing"@ },
        Named { id: "kitchenos:Kenwood:DoughKneading"@, name: "Dough Kneading"@ },
        Named { id: "kitchenos:Kenwood:DoughProving"@, name: "Dough Proving"@ },
        Named { id: "kitchenos:Kenwood:FettuccinePasta"@, name: "Fettuccine Pasta"@ },
        Named { id: "kitchenos:Kenwood:FoodMill"@, name: "Food Mill"@ },
        Named { id: "kitchenos:Kenwood:FoodMincer"@, name: "Food Mincer"@ },
        Named { id: "kitchenos:Kenwood:FoodProcessor"@, name: "Food Processor"@ },
        Named { id: "kitchenos:Kenwood:FrozenDessertMaker"@, name: "Frozen Dessert Maker"@ },
        Named { id: "kitchenos:Kenwood:GrindPastes"@, name: "Grind Pastes"@ },
        Named { id: "kitchenos:Kenwood:GrindSpices"@, name: "Grind Spices"@ },
        Named { id: "kitchenos:Kenwood:IceCrush"@, name: "Ice Crush"@ },
        Named { id: "kitchenos:Kenwood:Knead"@, name: "Knead"@ },
        Named { id: "kitchenos:Kenwood:LasagnaPastaRoller"@, name: "Lasagna Pasta Roller"@ },
        Named { id: "kitchenos:Kenwood:MeatBrowning1"@, name: "Meat Browning 1"@ },
        Named { id: "kitchenos:Kenwood:MeatBrowning2"@, name: "Meat Browning 2"@ },
        Named { id: "kitchenos:Kenwood:MiniChopper"@, name: "Mini Chopper"@ },
        Named { id: "kitchenos:Kenwood:Mix"@, name: "Mix"@ },
        Named { id: "kitchenos:Kenwood:Popcorn"@, name: "Popcorn"@ },
        Named { id: "kitchenos:Kenwood:Prove"@, name: "Prove"@ },
        Named { id: "kitchenos:Kenwood:PulseBlender"@, name: "Blender Pulsing"@ },
        Named { id: "kitchenos:Kenwood:PulseFoodProc"@, name: "Food Processor Pulsing"@ },
        Named { id: "kitchenos:Kenwood:Puree"@, name: "Puree"@ },
        Named { id: "kitchenos:Kenwood:Roux"@, name: "Roux"@ },
        Named { id: "kitchenos:Kenwood:ShallowFry1"@, name: "Shallow Fry 1"@ },
        Named { id: "kitchenos:Kenwood:ShallowFry2"@, name: "Shallow Fry 2"@ },
        Named { id: "kitchenos:Kenwood:ShortCrustPastry1"@, name: "Short Crust Pastry 1"@ },
        Named { id: "kitchenos:Kenwood:ShortCrustPastry2"@, name: "Short Crust Pastry 2"@ },
        Named { id: "kitchenos:Kenwood:SlicingGratingFirmIngredients"@, name: "Slicing Grating Firm Ingredients"@ },
        Named { id: "kitchenos:Kenwood:SlicingGratingSoftIngredients"@, name: "Slicing Grating Soft Ingredients"@ },
        Named { id: "kitchenos:Kenwood:SmoothBlend"@, name: "Smooth Blend"@ },
        Named { id: "kitchenos:Kenwood:SpaghettiPasta"@, name: "Spaghetti Pasta"@ },
        Named { id: "kitchenos:Kenwood:Steam"@, name: "Steam"@ },
        Named { id: "kitchenos:Kenwood:Stir"@, name: "Stir"@ },
        Named { id: "kitchenos:Kenwood:StirAndWhisk"@, name: "Stir + Whisk"@ },
        Named { id: "kitchenos:Kenwood:VegetableSaute1"@, name: "Vegetable Sauté 1"@ },
        Named { id: "kitchenos:Kenwood:VegetableSaute2"@, name: "Vegetable Sauté 2"@ },
        Named { id: "kitchenos:Kenwood:Whisk"@, name: "Whisk"@ },
    ]
}

impl KnownOptions for ReferenceCapability {
    open spec fn options() -> Seq<Named> {
        known_capabilities()
    }

    fn known_options() -> (known: Vec<ReferenceCapability>) {
        let known = vec![
            capability("cckg:Bake", "bake"),
            capability("cckg:Beat", "beat"),
            capability("cckg:Cook", "cook"),
            capability("cckg:Knead", "knead"),
            capability("cckg:Mix", "mix"),
            capability("cckg:Prove", "proof"),
            capability("cckg:Steam", "steam"),
            capability("cckg:Stir", "stir"),
            capability("cckg:Whisk", "whisk"),
            capability("kitchenos:Kenwood:AssistedStir", "Assisted Stir"),
            capability("kitchenos:Kenwood:Beat", "Beat"),
            capability("kitchenos:Kenwood:Bechamel1", "Bechamel 1"),
            capability("kitchenos:Kenwood:Bechamel2", "Bechamel 2"),
            capability("kitchenos:Kenwood:Blender", "Blender"),
            capability("kitchenos:Kenwood:ChopHerbs", "Chop Herbs"),
            capability("kitchenos:Kenwood:ChopMeat", "Chop Meat"),
            capability("kitchenos:Kenwood:ChopNuts", "Chop Nuts"),
            capability("kitchenos:Kenwood:ChopVegetables", "Chop Vegetables"),
            capability("kitchenos:Kenwood:CoarseBlend", "Coarse Blend"),
            capability("kitchenos:Kenwood:Cook", "Cook"),
            capability("kitchenos:Kenwood:Dicing", "Dicing"),
            capability("kitchenos:Kenwood:DoughKneading", "Dough Kneading"),
            capability("kitchenos:Kenwood:DoughProving", "Dough Proving"),
            capability("kitchenos:Kenwood:FettuccinePasta", "Fettuccine Pasta"),
            capability("kitchenos:Kenwood:FoodMill", "Food Mill"),
            capability("kitchenos:Kenwood:FoodMincer", "Food Mincer"),
            capability("kitchenos:Kenwood:FoodProcessor", "Food Processor"),
            capability("kitchenos:Kenwood:FrozenDessertMaker", "Frozen Dessert Maker"),
            capability("kitchenos:Kenwood:GrindPastes", "Grind Pastes"),
            capability("kitchenos:Kenwood:GrindSpices", "Grind Spices"),
            capability("kitchenos:Kenwood:IceCrush", "Ice Crush"),
            capability("kitchenos:Kenwood:Knead", "Knead"),
            capability("kitchenos:Kenwood:LasagnaPastaRoller", "Lasagna Pasta Roller"),
            capability("kitchenos:Kenwood:MeatBrowning1", "Meat Browning 1"),
            capability("kitchenos:Kenwood:MeatBrowning2", "Meat Browning 2"),
            capability("kitchenos:Kenwood:MiniChopper", "Mini Chopper"),
            capability("kitchenos:Kenwood:Mix", "Mix"),
            capability("kitchenos:Kenwood:Popcorn", "Popcorn"),
            capability("kitchenos:Kenwood:Prove", "Prove"),
            capability("kitchenos:Kenwood:PulseBlender", "Blender Pulsing"),
            capability("kitchenos:Kenwood:PulseFoodProc", "Food Processor Pulsing"),
            capability("kitchenos:Kenwood:Puree", "Puree"),
            capability("kitchenos:Kenwood:Roux", "Roux"),
            capability("kitchenos:Kenwood:ShallowFry1", "Shallow Fry 1"),
            capability("kitchenos:Kenwood:ShallowFry2", "Shallow Fry 2"),
            capability("kitchenos:Kenwood:ShortCrustPastry1", "Short Crust Pastry 1"),
            capability("kitchenos:Kenwood:ShortCrustPastry2", "Short Crust Pastry 2"),
            capability("kitchenos:Kenwood:SlicingGratingFirmIngredients", "Slicing Grating Firm Ingredients"),
            capability("kitchenos:Kenwood:SlicingGratingSoftIngredients", "Slicing Grating Soft Ingredients"),
            capability("kitchenos:Kenwood:SmoothBlend", "Smooth Blend"),
            capability("kitchenos:Kenwood:SpaghettiPasta", "Spaghetti Pasta"),
            capability("kitchenos:Kenwood:Steam", "Steam"),
            capability("kitchenos:Kenwood:Stir", "Stir"),
            capability("kitchenos:Kenwood:StirAndWhisk", "Stir + Whisk"),
            capability("kitchenos:Kenwood:VegetableSaute1", "Vegetable Sauté 1"),
            capability("kitchenos:Kenwood:VegetableSaute2", "Vegetable Sauté 2"),
            capability("kitchenos:Kenwood:Whisk", "Whisk"),
        ];
        assert(known.deep_view() =~= known_capabilities());
        known
    }
}

/// The speeds at which the appliance stirs.
pub open spec fn known_stir_settings() -> Seq<Named> {
    seq![
        Named { id: "kitchenos:Kenwood:Speed1"@, name: "Speed level 1"@ },
        Named { id: "kitchenos:Kenwood:Speed2"@, name: "Speed level 2"@ },
        Named { id: "kitchenos:Kenwood:Speed3"@, name: "Speed level 3"@ },
        Named { id: "kitchenos:Kenwood:Speed4"@, name: "Speed level 4"@ },
        Named { id: "kitchenos:Kenwood:Speed5"@, name: "Speed level 5"@ },
        Named { id: "kitchenos:Kenwood:Speed6"@, name: "Speed level 6"@ },
        Named { id: "kitchenos:Kenwood:SpeedMax"@, name: "Max"@ },
        Named { id: "kitchenos:Kenwood:SpeedMin"@, name: "Min"@ },
        Named { id: "kitchenos:Kenwood:SpeedOff"@, name: "No stir"@ },
        Named { id: "kitchenos:Kenwood:SpeedStir1"@, name: "Stir 1"@ },
        Named { id: "kitchenos:Kenwood:SpeedStir2"@, name: "Stir 2"@ },
        Named { id: "kitchenos:Kenwood:SpeedStir3"@, name: "Stir 3"@ },
        Named { id: "kitchenos:Kenwood:SpeedStir4"@, name: "Stir 4"@ },
    ]
}

impl ReferenceValue {
    /// The speeds at which the appliance stirs, in the order of their ids.
    pub fn stir_settings() -> (known: Vec<ReferenceValue>)
        ensures
            known.deep_view() == known_stir_settings(),
    {
        let known = vec![
            value("kitchenos:Kenwood:Speed1", "Speed level 1"),
            value("kitchenos:Kenwood:Speed2", "Speed level 2"),
            value("kitchenos:Kenwood:Speed3", "Speed level 3"),
            value("kitchenos:Kenwood:Speed4", "Speed level 4"),
            value("kitchenos:Kenwood:Speed5", "Speed level 5"),
            value("kitchenos:Kenwood:Speed6", "Speed level 6"),
            value("kitchenos:Kenwood:SpeedMax", "Max"),
            value("kitchenos:Kenwood:SpeedMin", "Min"),
            value("kitchenos:Kenwood:SpeedOff", "No stir"),
            value("kitchenos:Kenwood:SpeedStir1", "Stir 1"),
            value("kitchenos:Kenwood:SpeedStir2", "Stir 2"),
            value("kitchenos:Kenwood:SpeedStir3", "Stir 3"),
            value("kitchenos:Kenwood:SpeedStir4", "Stir 4"),
        ];
        assert(known.deep_view() =~= known_stir_settings());
        known
    }

    /// The value that stands for "no temperature".
    pub fn temperature_off() -> (off: ReferenceValue)
        ensures
            off.deep_view() == (Named {
                id: "kitchenos:Kenwood:TemperatureOff"@,
                name: "No temperature"@,
            }),
    {
        value("kitchenos:Kenwood:TemperatureOff", "No temperature")
    }
}

impl ReferenceSettingId {
    /// The name of the setting as the editor's tabs know it.
    pub open spec fn tab_name(self) -> Seq<char> {
        match self {
            ReferenceSettingId::KeepWarm => "KeepWarm"@,
            ReferenceSettingId::Temperature => "Temperature"@,
            ReferenceSettingId::Speed => "Speed"@,
            ReferenceSettingId::Time => "Time"@,
        }
    }

    /// The setting that a tab name stands for.
    pub open spec fn of_tab_name(name: Seq<char>) -> Option<ReferenceSettingId> {
        if name == "KeepWarm"@ {
            Some(ReferenceSettingId::KeepWarm)
        } else if name == "Temperature"@ {
            Some(ReferenceSettingId::Temperature)
        } else if name == "Speed"@ {
            Some(ReferenceSettingId::Speed)
        } else if name == "Time"@ {
            Some(ReferenceSettingId::Time)
        } else {
            None
        }
    }

    /// The id under which the setting is written into a recipe document.
    pub open spec fn document_id(self) -> Seq<char> {
        match self {
            ReferenceSettingId::KeepWarm => "kitchenos:Kenwood:KeepWarmSetting"@,
            ReferenceSettingId::Temperature => "kitchenos:Kenwood:TemperatureSetting"@,
            ReferenceSettingId::Speed => "kitchenos:Kenwood:SpeedSetting"@,
            ReferenceSettingId::Time => "kitchenos:Kenwood:TimeSetting"@,
        }
    }

    /// The setting that an id in a recipe document stands for. Temperature
    /// and time are also known by the ids of the common vocabulary.
    pub open spec fn of_document_id(id: Seq<char>) -> Option<ReferenceSettingId> {
        if id == "kitchenos:Kenwood:KeepWarmSetting"@ {
            Some(ReferenceSettingId::KeepWarm)
        } else if id == "kitchenos:Kenwood:TemperatureSetting"@ || id
            == "cckg:InternalTemperatureSetting"@ || id == "cckg:TemperatureSetting"@ {
            Some(ReferenceSettingId::Temperature)
        } else if id == "kitchenos:Kenwood:SpeedSetting"@ {
            Some(ReferenceSettingId::Speed)
        } else if id == "kitchenos:Kenwood:TimeSetting"@ || id == "cckg:TimeSetting"@ {
            Some(ReferenceSettingId::Time)
        } else {
            None
        }
    }

    /// The name of the setting as the editor's tabs know it.
    pub fn to_text(self) -> (name: String)
        ensures
            name@ == self.tab_name(),
    {
        match self {
            ReferenceSettingId::KeepWarm => "KeepWarm".to_owned(),
            ReferenceSettingId::Temperature => "Temperature".to_owned(),
            ReferenceSettingId::Speed => "Speed".to_owned(),
            ReferenceSettingId::Time => "Time".to_owned(),
        }
    }

    /// The setting that a tab name stands for.
    pub fn from_text(name: &str) -> (id: Option<ReferenceSettingId>)
        ensures
            id == Self::of_tab_name(name@),
    {
        if str_equal(name, "KeepWarm") {
            Some(ReferenceSettingId::KeepWarm)
        } else if str_equal(name, "Temperature") {
            Some(ReferenceSettingId::Temperature)
        } else if str_equal(name, "Speed") {
            Some(ReferenceSettingId::Speed)
        } else if str_equal(name, "Time") {
            Some(ReferenceSettingId::Time)
        } else {
            None
        }
    }

    /// The id under which the setting is written into a recipe document.
    pub fn to_document_id(self) -> (id: &'static str)
        ensures
            id@ == self.document_id(),
    {
        match self {
            ReferenceSettingId::KeepWarm => "kitchenos:Kenwood:KeepWarmSetting",
            ReferenceSettingId::Temperature => "kitchenos:Kenwood:TemperatureSetting",
            ReferenceSettingId::Speed => "kitchenos:Kenwood:SpeedSetting",
            ReferenceSettingId::Time => "kitchenos:Kenwood:TimeSetting",
        }
    }

    /// The setting that an id in a recipe document stands for.
    pub fn from_document_id(id: &str) -> (setting: Option<ReferenceSettingId>)
        ensures
            setting == Self::of_document_id(id@),
    {
        if str_equal(id, "kitchenos:Kenwood:KeepWarmSetting") {
            Some(ReferenceSettingId::KeepWarm)
        } else if str_equal(id, "kitchenos:Kenwood:TemperatureSetting") || str_equal(
            id,
            "cckg:InternalTemperatureSetting",
        ) || str_equal(id, "cckg:TemperatureSetting") {
            Some(ReferenceSettingId::Temperature)
        } else if str_equal(id, "kitchenos:Kenwood:SpeedSetting") {
            Some(ReferenceSettingId::Speed)
        } else if str_equal(id, "kitchenos:Kenwood:TimeSetting") || str_equal(
            id,
            "cckg:TimeSetting",
        ) {
            Some(ReferenceSettingId::Time)
        } else {
            None
        }
    }

    /// The display name of the setting.
    pub open spec fn display_name(self) -> Seq<char> {
        match self {
            ReferenceSettingId::KeepWarm => "Keep warm"@,
            ReferenceSettingId::Temperature => "Temperature"@,
            ReferenceSettingId::Speed => "Speed"@,
            ReferenceSettingId::Time => "Time"@,
        }
    }

    /// The setting together with its display name.
    pub fn reference_setting(self) -> (setting: ReferenceSetting)
        ensures
            setting.deep_view() == (ReferenceSettingView { id: self, name: self.display_name() }),
    {
        let name = match self {
            ReferenceSettingId::KeepWarm => "Keep warm",
            ReferenceSettingId::Temperature => "Temperature",
            ReferenceSettingId::Speed => "Speed",
            ReferenceSettingId::Time => "Time",
        };
        ReferenceSetting { id: self, name: name.to_owned() }
    }
}

impl CapabilitySetting {
    /// The setting that a new capability starts with: keep warm, switched
    /// off.
    pub fn keep_warm_default() -> (setting: CapabilitySetting)
        ensures
            setting.deep_view() == (CapabilitySettingView {
                reference_setting: ReferenceSettingView {
                    id: ReferenceSettingId::KeepWarm,
                    name: "Keep warm"@,
                },
                value: SettingValueView::Boolean { text: "placeholder"@, value: false },
            }),
    {
        CapabilitySetting {
            reference_setting: ReferenceSettingId::KeepWarm.reference_setting(),
            value: SettingValue::Boolean { text: "placeholder".to_owned(), value: false },
        }
    }
}

} // verus!
