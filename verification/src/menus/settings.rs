//! The settings menu: volume sliders drawn in text, and the vsync switch.

use crate::menus::Menu;
use crate::screens::Screen;
use vstd::prelude::*;
use vstd::string::StringExecFns;

verus! {

/// `piece` written `n` times in a row.
pub open spec fn repeated(piece: Seq<char>, n: nat) -> Seq<char>
    decreases n,
{
    if n == 0 {
        Seq::<char>::empty()
    } else {
        repeated(piece, (n - 1) as nat) + piece
    }
}

/// `piece` written `n` times in a row.
pub fn repeat(piece: &str, n: usize) -> (r: String)
    ensures
        r@ == repeated(piece@, n as nat),
{
    let mut text = String::new();
    let mut i: usize = 0;
    while i < n
        invariant
            i <= n,
            text@ == repeated(piece@, i as nat),
        decreases n - i,
    {
        text.append(piece);
        i += 1;
    }
    text
}

/// The position of a volume slider, in ticks.
#[derive(Debug)]
pub struct VolumeTicks(pub usize);

impl VolumeTicks {
    /// How many ticks the volume slider supports.
    pub const MAX_TICK_COUNT: usize = 20;

    /// One tick louder, but never past the top of the slider.
    pub fn increment(&mut self)
        requires
            old(self).0 < usize::MAX,
        ensures
            final(self).0 == if old(self).0 + 1 < Self::MAX_TICK_COUNT {
                old(self).0 + 1
            } else {
                Self::MAX_TICK_COUNT as int
            },
    {
        let raised = self.0 + 1;
        self.0 = if raised < Self::MAX_TICK_COUNT {
            raised
        } else {
            Self::MAX_TICK_COUNT
        };
    }

    /// One tick quieter, but never below silence.
    pub fn decrement(&mut self)
        ensures
            final(self).0 == if old(self).0 > 0 {
                old(self).0 - 1
            } else {
                0
            },
    {
        self.0 = self.0.saturating_sub(1);
    }

    /// The slider as text: the mark of a set tick for every tick set, a
    /// blank for every tick left up to the top of the slider, then a
    /// closing bar.
    pub open spec fn label_text(ticks: nat) -> Seq<char> {
        repeated("â–ˆ"@, ticks) + repeated(
            " "@,
            (Self::MAX_TICK_COUNT - ticks) as nat,
        ) + "|"@
    }

    /// The slider drawn in text.
    pub fn label(&self) -> (r: String)
        requires
            self.0 <= Self::MAX_TICK_COUNT,
        ensures
            r@ == Self::label_text(self.0 as nat),
    {
        let mut text = repeat("â–ˆ", self.0);
        let empty = repeat(" ", Self::MAX_TICK_COUNT - self.0);
        text.append(empty.as_str());
        text.append("|");
        text
    }
}

/// Whether frames wait for the display's refresh.
#[derive(Debug)]
pub struct VsyncSetting(pub bool);

impl Default for VsyncSetting {
    fn default() -> (r: Self)
        ensures
            r.0 == false,
    {
        VsyncSetting(false)
    }
}

impl VsyncSetting {
    /// The setting as the menu words it.
    pub fn label(&self) -> (r: &'static str)
        ensures
            r@ == if self.0 {
                "On"@
            } else {
                "Off"@
            },
    {
        if self.0 {
            "On"
        } else {
            "Off"
        }
    }
}

/// The menu that leaving the settings leads back to: the main menu on the
/// title screen, the pause menu anywhere else.
pub fn go_back(screen: Screen) -> (r: Menu)
    ensures
        r == if screen == Screen::Title {
            Menu::Main
        } else {
            Menu::Pause
        },
{
    if screen == Screen::Title {
        Menu::Main
    } else {
        Menu::Pause
    }
}

} // verus!
