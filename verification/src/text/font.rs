//! The fonts that ship with the engine, found by their path in the asset folder.
use vstd::prelude::*;
use crate::constants::font::{
    UNDERDOG_REGULAR_PATH,
    CODYSTAR_LIGHT_PATH,
    CODYSTAR_REGULAR_PATH,
    ROBOTO_MONO_PATH,
    ROBOTO_MONO_ITALIC_PATH,
};
use crate::text::{contains_up_twice, goes_up_twice};

verus! {

/// The fonts available by default; users can bring their own at any moment.
#[derive(Clone, Copy, Debug, PartialEq, Eq, Structural)]
pub enum Fonts {
    UnderdogRegular,
    CodystarLight,
    CodystarRegular,
    RobotoMono,
    RobotoMonoItalic,
}

impl Fonts {
    /// The path of the font.
    pub open spec fn path_of(self) -> Seq<char> {
        match self {
            Fonts::UnderdogRegular => UNDERDOG_REGULAR_PATH@,
            Fonts::CodystarLight => CODYSTAR_LIGHT_PATH@,
            Fonts::CodystarRegular => CODYSTAR_REGULAR_PATH@,
            Fonts::RobotoMono => ROBOTO_MONO_PATH@,
            Fonts::RobotoMonoItalic => ROBOTO_MONO_ITALIC_PATH@,
        }
    }

    /// The font whose path is `path`, if there is one.
    pub open spec fn font_at(path: Seq<char>) -> Option<Fonts> {
        if path == UNDERDOG_REGULAR_PATH@ {
            Some(Fonts::UnderdogRegular)
        } else if path == CODYSTAR_LIGHT_PATH@ {
            Some(Fonts::CodystarLight)
        } else if path == CODYSTAR_REGULAR_PATH@ {
            Some(Fonts::CodystarRegular)
        } else if path == ROBOTO_MONO_PATH@ {
            Some(Fonts::RobotoMono)
        } else if path == ROBOTO_MONO_ITALIC_PATH@ {
            Some(Fonts::RobotoMonoItalic)
        } else {
            None
        }
    }

    /// Returns the path of the font.
    pub fn get_path(&self) -> (r: String)
        ensures
            r@ == self.path_of(),
    {
        proof {
            broadcast use vstd::string::group_string_axioms;
        }
        match self {
            Fonts::UnderdogRegular => UNDERDOG_REGULAR_PATH.to_string(),
            Fonts::CodystarLight => CODYSTAR_LIGHT_PATH.to_string(),
            Fonts::CodystarRegular => CODYSTAR_REGULAR_PATH.to_string(),
            Fonts::RobotoMono => ROBOTO_MONO_PATH.to_string(),
            Fonts::RobotoMonoItalic => ROBOTO_MONO_ITALIC_PATH.to_string(),
        }
    }

    /// Returns the font whose path is `path`, or `None` for any other path.
    pub fn from_path(path: String) -> (r: Option<Self>)
        ensures
            r == Self::font_at(path@),
    {
        proof {
            broadcast use vstd::string::group_string_axioms;
        }
        if path.eq(&UNDERDOG_REGULAR_PATH.to_string()) {
            Some(Fonts::UnderdogRegular)
        } else if path.eq(&CODYSTAR_LIGHT_PATH.to_string()) {
            Some(Fonts::CodystarLight)
        } else if path.eq(&CODYSTAR_REGULAR_PATH.to_string()) {
            Some(Fonts::CodystarRegular)
        } else if path.eq(&ROBOTO_MONO_PATH.to_string()) {
            Some(Fonts::RobotoMono)
        } else if path.eq(&ROBOTO_MONO_ITALIC_PATH.to_string()) {
            Some(Fonts::RobotoMonoItalic)
        } else {
            None
        }
    }
}

/// The path of a font leads back to that font, and a path that names a font
/// is that font's path.
pub proof fn lemma_font_path_round_trip(font: Fonts, path: Seq<char>)
    ensures
        Fonts::font_at(font.path_of()) == Some(font),
        Fonts::font_at(path) matches Some(f) ==> f.path_of() == path,
{
    reveal_strlit("../assets/fonts/Underdog-Regular.ttf");
    reveal_strlit("../assets/fonts/Codystar-Light.ttf");
    reveal_strlit("../assets/fonts/Codystar-Regular.ttf");
    reveal_strlit("../assets/fonts/RobotoMono-VariableFont_wght.ttf");
    reveal_strlit("../assets/fonts/RobotoMono-Italic-VariableFont_wght.ttf");
    assert(UNDERDOG_REGULAR_PATH@[16] != CODYSTAR_LIGHT_PATH@[16]);
    assert(UNDERDOG_REGULAR_PATH@[16] != CODYSTAR_REGULAR_PATH@[16]);
    assert(UNDERDOG_REGULAR_PATH@[16] != ROBOTO_MONO_PATH@[16]);
    assert(UNDERDOG_REGULAR_PATH@[16] != ROBOTO_MONO_ITALIC_PATH@[16]);
    assert(CODYSTAR_LIGHT_PATH@[25] != CODYSTAR_REGULAR_PATH@[25]);
    assert(CODYSTAR_LIGHT_PATH@[16] != ROBOTO_MONO_PATH@[16]);
    assert(CODYSTAR_LIGHT_PATH@[16] != ROBOTO_MONO_ITALIC_PATH@[16]);
    assert(CODYSTAR_REGULAR_PATH@[16] != ROBOTO_MONO_PATH@[16]);
    assert(CODYSTAR_REGULAR_PATH@[16] != ROBOTO_MONO_ITALIC_PATH@[16]);
    assert(ROBOTO_MONO_PATH@[27] != ROBOTO_MONO_ITALIC_PATH@[27]);
}

/// Each of the engine's fonts has the path of its own file, and that path
/// leads back to that font.
pub proof fn lemma_each_font_has_its_own_path()
    ensures
        Fonts::UnderdogRegular.path_of() == UNDERDOG_REGULAR_PATH@,
        Fonts::CodystarLight.path_of() == CODYSTAR_LIGHT_PATH@,
        Fonts::CodystarRegular.path_of() == CODYSTAR_REGULAR_PATH@,
        Fonts::RobotoMono.path_of() == ROBOTO_MONO_PATH@,
        Fonts::RobotoMonoItalic.path_of() == ROBOTO_MONO_ITALIC_PATH@,
        UNDERDOG_REGULAR_PATH@ == "../assets/fonts/Underdog-Regular.ttf"@,
        CODYSTAR_LIGHT_PATH@ == "../assets/fonts/Codystar-Light.ttf"@,
        CODYSTAR_REGULAR_PATH@ == "../assets/fonts/Codystar-Regular.ttf"@,
        ROBOTO_MONO_PATH@ == "../assets/fonts/RobotoMono-VariableFont_wght.ttf"@,
        ROBOTO_MONO_ITALIC_PATH@ == "../assets/fonts/RobotoMono-Italic-VariableFont_wght.ttf"@,
        Fonts::font_at(UNDERDOG_REGULAR_PATH@) == Some(Fonts::UnderdogRegular),
        Fonts::font_at(CODYSTAR_LIGHT_PATH@) == Some(Fonts::CodystarLight),
        Fonts::font_at(CODYSTAR_REGULAR_PATH@) == Some(Fonts::CodystarRegular),
        Fonts::font_at(ROBOTO_MONO_PATH@) == Some(Fonts::RobotoMono),
        Fonts::font_at(ROBOTO_MONO_ITALIC_PATH@) == Some(Fonts::RobotoMonoItalic),
{
    lemma_font_path_round_trip(Fonts::UnderdogRegular, Seq::empty());
    lemma_font_path_round_trip(Fonts::CodystarLight, Seq::empty());
    lemma_font_path_round_trip(Fonts::CodystarRegular, Seq::empty());
    lemma_font_path_round_trip(Fonts::RobotoMono, Seq::empty());
    lemma_font_path_round_trip(Fonts::RobotoMonoItalic, Seq::empty());
}

/// Where the bytes of a font come from.
#[derive(Clone, Copy, Debug, PartialEq, Eq, Structural)]
pub enum FontSource {
    /// The font is one of the engine's own.
    Embedded(Fonts),
    /// The font is a file of the game's assets.
    AssetFile,
}

/// A path that goes up twice (`../../`) names one of the engine's own fonts;
/// any other path is a file of the game's assets.
pub open spec fn font_source_of(path: Seq<char>) -> FontSource {
    if goes_up_twice(path) {
        FontSource::Embedded(Fonts::font_at(path).unwrap())
    } else {
        FontSource::AssetFile
    }
}

/// Decides where the bytes of the font at `path` come from. A path that goes
/// up twice must name one of the engine's fonts.
pub fn font_source(path: String) -> (r: FontSource)
    requires
        goes_up_twice(path@) ==> Fonts::font_at(path@) is Some,
    ensures
        r == font_source_of(path@),
{
    if contains_up_twice(&path) {
        match Fonts::from_path(path) {
            Some(font) => FontSource::Embedded(font),
            None => FontSource::AssetFile,
        }
    } else {
        FontSource::AssetFile
    }
}

} // verus!
