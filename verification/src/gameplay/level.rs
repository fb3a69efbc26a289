//! Which level is played, and what spawning it takes.

use vstd::prelude::*;

verus! {

/// The level being played.
#[derive(Debug, PartialEq, Eq, Structural, Clone, Copy)]
pub enum CurrentLevel {
    DayOne,
    DayTwo,
}

impl Default for CurrentLevel {
    fn default() -> (r: Self)
        ensures
            r == CurrentLevel::DayOne,
    {
        CurrentLevel::DayOne
    }
}

/// The assets of one level, loaded as a set.
#[derive(Debug, PartialEq, Eq, Structural, Clone, Copy)]
pub enum AssetSet {
    /// The assets of the first day, which are loaded before the game starts.
    LevelOne,
    /// The assets of the second day, which are loaded when the first day
    /// ends.
    LevelTwo,
}

impl AssetSet {
    /// The asset path of the set's scene.
    pub fn level_path(self) -> (r: &'static str)
        ensures
            r@ == match self {
                AssetSet::LevelOne => "maps/main/one/one.map#Scene"@,
                AssetSet::LevelTwo => "maps/main/two/two.map#Scene"@,
            },
    {
        match self {
            AssetSet::LevelOne => "maps/main/one/one.map#Scene",
            AssetSet::LevelTwo => "maps/main/two/two.map#Scene",
        }
    }

    /// The asset path of the set's navigation mesh.
    pub fn navmesh_path(self) -> (r: &'static str)
        ensures
            r@ == match self {
                AssetSet::LevelOne => "maps/main/one/one.nav"@,
                AssetSet::LevelTwo => "maps/main/two/two.nav"@,
            },
    {
        match self {
            AssetSet::LevelOne => "maps/main/one/one.nav",
            AssetSet::LevelTwo => "maps/main/two/two.nav",
        }
    }

    /// The asset path of the set's music, which both days share.
    pub fn music_path(self) -> (r: &'static str)
        ensures
            r@ == "audio/music/corpo slop to eat your computer to.ogg"@,
    {
        "audio/music/corpo slop to eat your computer to.ogg"
    }
}

/// What spawning a level takes.
#[derive(Debug, Clone, Copy)]
pub struct LevelSpawn {
    /// The description of the objective the day opens with.
    pub objective: &'static str,
    /// The target name of that objective.
    pub targetname: &'static str,
    /// The set that the scene is taken from.
    pub scene: AssetSet,
    /// The set that the music is taken from.
    pub music: AssetSet,
    /// The set that the navigation mesh is taken from.
    pub navmesh: AssetSet,
}

/// Decides what spawning the current level takes. Every day opens with the
/// objective to clock in. Scene and music are the day's own; the navigation
/// mesh is that of the first day on either day. The second day cannot be
/// spawned before its assets are there.
pub fn spawn_level(current_level: CurrentLevel, level_two_assets_loaded: bool) -> (r: LevelSpawn)
    requires
        current_level == CurrentLevel::DayTwo ==> level_two_assets_loaded,
    ensures
        r.objective@ == "Clock In"@,
        r.targetname@ == "start_work"@,
        r.scene == match current_level {
            CurrentLevel::DayOne => AssetSet::LevelOne,
            CurrentLevel::DayTwo => AssetSet::LevelTwo,
        },
        r.music == r.scene,
        r.navmesh == AssetSet::LevelOne,
{
    match current_level {
        CurrentLevel::DayOne => LevelSpawn {
            objective: "Clock In",
            targetname: "start_work",
            scene: AssetSet::LevelOne,
            music: AssetSet::LevelOne,
            navmesh: AssetSet::LevelOne,
        },
        CurrentLevel::DayTwo => LevelSpawn {
            objective: "Clock In",
            targetname: "start_work",
            scene: AssetSet::LevelTwo,
            music: AssetSet::LevelTwo,
            navmesh: AssetSet::LevelOne,
        },
    }
}

} // verus!
