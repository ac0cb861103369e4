//! The kitchen characters: chefs and voxel girls, their personalities, what
//! they wear, and when they animate their work.
use vstd::prelude::*;

verus! {

/// A chef's personality; it picks the chef's colours and accessory.
#[derive(Clone, Copy, Debug, PartialEq, Eq, Structural)]
pub enum ChefPersonality {
    /// Lively; orange tones.
    Energetic,
    /// Kind; pastel pink.
    Gentle,
    /// Calm; blue tones.
    Cool,
}

/// A chef's mood.
#[derive(Clone, Copy, Debug, PartialEq, Eq, Structural)]
pub enum ChefMood {
    Happy,
    Focused,
    Excited,
    Tired,
}

/// A voxel girl's personality; it picks her colours and accessory.
#[derive(Clone, Copy, Debug, PartialEq, Eq, Structural)]
pub enum GirlPersonality {
    /// Brown-haired, maid style.
    Cheerful,
    /// Pink-haired.
    Sweet,
    /// Blue-haired.
    Cool,
}

/// A voxel girl's mood.
#[derive(Clone, Copy, Debug, PartialEq, Eq, Structural)]
pub enum GirlMood {
    Happy,
    Working,
    Excited,
    Focused,
}

/// What a chef wears or holds besides the uniform.
#[derive(Clone, Copy, Debug, PartialEq, Eq, Structural)]
pub enum ChefAccessory {
    /// A spatula with a wooden handle.
    Spatula,
    /// A flower by the hat.
    Flower,
    /// A pair of glasses.
    Glasses,
}

/// What a voxel girl wears in her hair.
#[derive(Clone, Copy, Debug, PartialEq, Eq, Structural)]
pub enum GirlAccessory {
    /// A maid's headdress with frills.
    Headdress,
    /// A ribbon.
    Ribbon,
    /// A pair of hair pins.
    HairPins,
}

/// The accessory that goes with each chef personality.
pub open spec fn chef_accessory_of(personality: ChefPersonality) -> ChefAccessory {
    match personality {
        ChefPersonality::Energetic => ChefAccessory::Spatula,
        ChefPersonality::Gentle => ChefAccessory::Flower,
        ChefPersonality::Cool => ChefAccessory::Glasses,
    }
}

/// The accessory that goes with each voxel girl personality.
pub open spec fn girl_accessory_of(personality: GirlPersonality) -> GirlAccessory {
    match personality {
        GirlPersonality::Cheerful => GirlAccessory::Headdress,
        GirlPersonality::Sweet => GirlAccessory::Ribbon,
        GirlPersonality::Cool => GirlAccessory::HairPins,
    }
}

/// Whether a character's current task is the cooking one.
pub open spec fn cooking_task(task: Option<Seq<char>>) -> bool {
    task == Some("cooking"@)
}

/// The personality and mood a chef starts with.
pub fn default_chef_traits() -> (traits: (ChefPersonality, ChefMood))
    ensures
        traits == (ChefPersonality::Gentle, ChefMood::Happy),
{
    (ChefPersonality::Gentle, ChefMood::Happy)
}

/// The personality and mood a voxel girl starts with.
pub fn default_girl_traits() -> (traits: (GirlPersonality, GirlMood))
    ensures
        traits == (GirlPersonality::Cheerful, GirlMood::Happy),
{
    (GirlPersonality::Cheerful, GirlMood::Happy)
}

/// The accessory a chef of this personality is given.
pub fn chef_accessory(personality: ChefPersonality) -> (accessory: ChefAccessory)
    ensures
        accessory == chef_accessory_of(personality),
{
    match personality {
        ChefPersonality::Energetic => ChefAccessory::Spatula,
        ChefPersonality::Gentle => ChefAccessory::Flower,
        ChefPersonality::Cool => ChefAccessory::Glasses,
    }
}

/// The accessory a voxel girl of this personality is given.
pub fn girl_accessory(personality: GirlPersonality) -> (accessory: GirlAccessory)
    ensures
        accessory == girl_accessory_of(personality),
{
    match personality {
        GirlPersonality::Cheerful => GirlAccessory::Headdress,
        GirlPersonality::Sweet => GirlAccessory::Ribbon,
        GirlPersonality::Cool => GirlAccessory::HairPins,
    }
}

/// Whether a chef with this current task moves its arms as if cooking: only
/// the task named exactly "cooking" does.
pub fn is_cooking(task: &Option<String>) -> (cooking: bool)
    ensures
        cooking == cooking_task(
            match task {
                Some(t) => Some(t@),
                None => None,
            },
        ),
{
    match task {
        Some(t) => {
            let cooking = String::from_str("cooking");
            t.eq(&cooking)
        },
        None => false,
    }
}

/// Only the task named exactly "cooking" counts as cooking: no task at all
/// does not, and any other name, however close, does not either.
pub proof fn lemma_cooking_task_exact(name: Seq<char>)
    ensures
        !cooking_task(None),
        cooking_task(Some(name)) <==> name == "cooking"@,
        name != "cooking"@ ==> !cooking_task(Some(name)),
{
}

/// Each chef personality wears its own accessory: the energetic chef holds a
/// spatula, the gentle one wears a flower, the cool one glasses, so no two
/// personalities look alike.
pub proof fn lemma_chef_accessories(a: ChefPersonality, b: ChefPersonality)
    ensures
        chef_accessory_of(ChefPersonality::Energetic) == ChefAccessory::Spatula,
        chef_accessory_of(ChefPersonality::Gentle) == ChefAccessory::Flower,
        chef_accessory_of(ChefPersonality::Cool) == ChefAccessory::Glasses,
        a != b ==> chef_accessory_of(a) != chef_accessory_of(b),
{
}

/// Each voxel girl personality wears its own accessory: the cheerful girl a
/// headdress, the sweet one a ribbon, the cool one hair pins.
pub proof fn lemma_girl_accessories(a: GirlPersonality, b: GirlPersonality)
    ensures
        girl_accessory_of(GirlPersonality::Cheerful) == GirlAccessory::Headdress,
        girl_accessory_of(GirlPersonality::Sweet) == GirlAccessory::Ribbon,
        girl_accessory_of(GirlPersonality::Cool) == GirlAccessory::HairPins,
        a != b ==> girl_accessory_of(a) != girl_accessory_of(b),
{
}

} // verus!
