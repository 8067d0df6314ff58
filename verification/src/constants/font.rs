//! Paths of the fonts that ship with the engine.
use vstd::prelude::*;

verus! {

pub const UNDERDOG_REGULAR_PATH: &'static str = "../assets/fonts/Underdog-Regular.ttf";

pub const CODYSTAR_LIGHT_PATH: &'static str = "../assets/fonts/Codystar-Light.ttf";

pub const CODYSTAR_REGULAR_PATH: &'static str = "../assets/fonts/Codystar-Regular.ttf";

pub const ROBOTO_MONO_PATH: &'static str = "../assets/fonts/RobotoMono-VariableFont_wght.ttf";

pub const ROBOTO_MONO_ITALIC_PATH: &'static str = "../assets/fonts/RobotoMono-Italic-VariableFont_wght.ttf";

} // verus!
