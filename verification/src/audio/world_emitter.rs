//! Looping sounds that the world itself emits.

use vstd::prelude::*;

verus! {

/// The sounds a level designer can place in the world.
#[derive(Debug, PartialEq, Eq, Structural, Clone, Copy, Hash)]
pub enum WorldSounds {
    Computer,
    Light1,
    Light2,
}

impl WorldSounds {
    /// Where the sample of the sound lies among the assets.
    pub open spec fn path(self) -> Seq<char> {
        match self {
            WorldSounds::Computer => "audio/sound_effects/office/computer.ogg"@,
            WorldSounds::Light1 => "audio/sound_effects/office/fluorescent-light-1.ogg"@,
            WorldSounds::Light2 => "audio/sound_effects/office/fluorescent-light-2.ogg"@,
        }
    }

    /// The asset path of the sound's sample.
    pub fn asset_path(self) -> (r: &'static str)
        ensures
            r@ == self.path(),
    {
        match self {
            WorldSounds::Computer => "audio/sound_effects/office/computer.ogg",
            WorldSounds::Light1 => "audio/sound_effects/office/fluorescent-light-1.ogg",
            WorldSounds::Light2 => "audio/sound_effects/office/fluorescent-light-2.ogg",
        }
    }
}

impl Default for WorldSounds {
    fn default() -> (r: Self)
        ensures
            r == WorldSounds::Computer,
    {
        WorldSounds::Computer
    }
}

/// Every world sound with the asset path of its sample: what has to be
/// loaded before an emitter can be heard.
pub fn sound_map() -> (r: Vec<(WorldSounds, &'static str)>)
    ensures
        r@.len() == 3,
        r@[0].0 == WorldSounds::Computer,
        r@[1].0 == WorldSounds::Light1,
        r@[2].0 == WorldSounds::Light2,
        forall|i: int| 0 <= i < r@.len() ==> (#[trigger] r@[i]).1@ == r@[i].0.path(),
{
    vec![
        (WorldSounds::Computer, WorldSounds::Computer.asset_path()),
        (WorldSounds::Light1, WorldSounds::Light1.asset_path()),
        (WorldSounds::Light2, WorldSounds::Light2.asset_path()),
    ]
}

} // verus!
