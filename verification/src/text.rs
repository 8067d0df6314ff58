//! The fonts that ship with the engine, found by their path relative to the engine's sources.
use vstd::prelude::*;
use vstd::string::StrSliceExecFns;

pub mod font;

verus! {

pub const UNDERDOG_REGULAR_PATH: &'static str = "../../assets/fonts/Underdog-Regular.ttf";

pub const CODYSTAR_LIGHT_PATH: &'static str = "../../assets/fonts/Codystar-Light.ttf";

pub const CODYSTAR_REGULAR_PATH: &'static str = "../../assets/fonts/Codystar-Regular.ttf";

pub const ROBOTO_MONO_PATH: &'static str = "../../assets/fonts/RobotoMono-VariableFont_wght.ttf";

pub const ROBOTO_MONO_ITALIC: &'static str = "../../assets/fonts/RobotoMono-Italic-VariableFont_wght.ttf";

/// The fonts available by default; users can bring their own at any moment.
#[derive(Clone, Copy, Debug, PartialEq, Eq, Structural)]
pub enum Fonts {
    UnderdogRegular,
    CodystarLight,
    CodystarRegular,
    RobotoMono,
    RobotoMonoItalic,
}

impl Fonts {
    /// The path of the font.
    pub open spec fn path_of(self) -> Seq<char> {
        match self {
            Fonts::UnderdogRegular => UNDERDOG_REGULAR_PATH@,
            Fonts::CodystarLight => CODYSTAR_LIGHT_PATH@,
            Fonts::CodystarRegular => CODYSTAR_REGULAR_PATH@,
            Fonts::RobotoMono => ROBOTO_MONO_PATH@,
            Fonts::RobotoMonoItalic => ROBOTO_MONO_ITALIC@,
        }
    }

    /// The font whose path is `path`, if there is one.
    pub open spec fn font_at(path: Seq<char>) -> Option<Fonts> {
        if path == UNDERDOG_REGULAR_PATH@ {
            Some(Fonts::UnderdogRegular)
        } else if path == CODYSTAR_LIGHT_PATH@ {
            Some(Fonts::CodystarLight)
        } else if path == CODYSTAR_REGULAR_PATH@ {
            Some(Fonts::CodystarRegular)
        } else if path == ROBOTO_MONO_PATH@ {
            Some(Fonts::RobotoMono)
        } else if path == ROBOTO_MONO_ITALIC@ {
            Some(Fonts::RobotoMonoItalic)
        } else {
            None
        }
    }

    /// Returns the path of the font.
    pub fn get_path(&self) -> (r: String)
        ensures
            r@ == self.path_of(),
    {
        proof {
            broadcast use vstd::string::group_string_axioms;
        }
        match self {
            Fonts::UnderdogRegular => UNDERDOG_REGULAR_PATH.to_string(),
            Fonts::CodystarLight => CODYSTAR_LIGHT_PATH.to_string(),
            Fonts::CodystarRegular => CODYSTAR_REGULAR_PATH.to_string(),
            Fonts::RobotoMono => ROBOTO_MONO_PATH.to_string(),
            Fonts::RobotoMonoItalic => ROBOTO_MONO_ITALIC.to_string(),
        }
    }

    /// Returns the font whose path is `path`, or `None` for any other path.
    pub fn from_path(path: String) -> (r: Option<Self>)
        ensures
            r == Self::font_at(path@),
    {
        proof {
            broadcast use vstd::string::group_string_axioms;
        }
        if path.eq(&UNDERDOG_REGULAR_PATH.to_string()) {
            Some(Fonts::UnderdogRegular)
        } else if path.eq(&CODYSTAR_LIGHT_PATH.to_string()) {
            Some(Fonts::CodystarLight)
        } else if path.eq(&CODYSTAR_REGULAR_PATH.to_string()) {
            Some(Fonts::CodystarRegular)
        } else if path.eq(&ROBOTO_MONO_PATH.to_string()) {
            Some(Fonts::RobotoMono)
        } else if path.eq(&ROBOTO_MONO_ITALIC.to_string()) {
            Some(Fonts::RobotoMonoItalic)
        } else {
            None
        }
    }
}

/// The path of a font leads back to that font, and a path that names a font
/// is that font's path.
pub proof fn lemma_font_path_round_trip(font: Fonts, path: Seq<char>)
    ensures
        Fonts::font_at(font.path_of()) == Some(font),
        Fonts::font_at(path) matches Some(f) ==> f.path_of() == path,
{
    reveal_strlit("../../assets/fonts/Underdog-Regular.ttf");
    reveal_strlit("../../assets/fonts/Codystar-Light.ttf");
    reveal_strlit("../../assets/fonts/Codystar-Regular.ttf");
    reveal_strlit("../../assets/fonts/RobotoMono-VariableFont_wght.ttf");
    reveal_strlit("../../assets/fonts/RobotoMono-Italic-VariableFont_wght.ttf");
    assert(UNDERDOG_REGULAR_PATH@[19] != CODYSTAR_LIGHT_PATH@[19]);
    assert(UNDERDOG_REGULAR_PATH@[19] != CODYSTAR_REGULAR_PATH@[19]);
    assert(UNDERDOG_REGULAR_PATH@[19] != ROBOTO_MONO_PATH@[19]);
    assert(UNDERDOG_REGULAR_PATH@[19] != ROBOTO_MONO_ITALIC@[19]);
    assert(CODYSTAR_LIGHT_PATH@[28] != CODYSTAR_REGULAR_PATH@[28]);
    assert(CODYSTAR_LIGHT_PATH@[19] != ROBOTO_MONO_PATH@[19]);
    assert(CODYSTAR_LIGHT_PATH@[19] != ROBOTO_MONO_ITALIC@[19]);
    assert(CODYSTAR_REGULAR_PATH@[19] != ROBOTO_MONO_PATH@[19]);
    assert(CODYSTAR_REGULAR_PATH@[19] != ROBOTO_MONO_ITALIC@[19]);
    assert(ROBOTO_MONO_PATH@[30] != ROBOTO_MONO_ITALIC@[30]);
}

/// Characters `i` to `i + 5` of `s` read `../../`.
pub open spec fn up_twice_at(s: Seq<char>, i: int) -> bool {
    &&& s[i] == '.'
    &&& s[i + 1] == '.'
    &&& s[i + 2] == '/'
    &&& s[i + 3] == '.'
    &&& s[i + 4] == '.'
    &&& s[i + 5] == '/'
}

/// `s` contains `../../`.
pub open spec fn goes_up_twice(s: Seq<char>) -> bool {
    exists|i: int| 0 <= i && i + 6 <= s.len() && up_twice_at(s, i)
}

/// Returns whether `path` contains `../../`.
pub fn contains_up_twice(path: &String) -> (r: bool)
    ensures
        r == goes_up_twice(path@),
{
    let s: &str = path.as_str();
    let n: usize = s.unicode_len();
    if n < 6 {
        return false;
    }
    assert(s@ == path@);
    let mut i: usize = 0;
    while i <= n - 6
        invariant
            6 <= n,
            i <= n - 5,
            n == s@.len(),
            s@ == path@,
            forall|j: int| 0 <= j < i ==> !up_twice_at(s@, j),
        decreases n - i,
    {
        if s.get_char(i) == '.' && s.get_char(i + 1) == '.' && s.get_char(i + 2) == '/'
            && s.get_char(i + 3) == '.' && s.get_char(i + 4) == '.' && s.get_char(i + 5) == '/' {
            assert(up_twice_at(s@, i as int));
            return true;
        }
        i = i + 1;
    }
    assert forall|j: int| 0 <= j && j + 6 <= path@.len() implies !up_twice_at(path@, j) by {
        assert(j < i);
    }
    false
}

/// Each of the engine's fonts has the path of its own file, and that path
/// leads back to that font.
pub proof fn lemma_each_font_has_its_own_path()
    ensures
        Fonts::UnderdogRegular.path_of() == UNDERDOG_REGULAR_PATH@,
        Fonts::CodystarLight.path_of() == CODYSTAR_LIGHT_PATH@,
        Fonts::CodystarRegular.path_of() == CODYSTAR_REGULAR_PATH@,
        Fonts::RobotoMono.path_of() == ROBOTO_MONO_PATH@,
        Fonts::RobotoMonoItalic.path_of() == ROBOTO_MONO_ITALIC@,
        UNDERDOG_REGULAR_PATH@ == "../../assets/fonts/Underdog-Regular.ttf"@,
        CODYSTAR_LIGHT_PATH@ == "../../assets/fonts/Codystar-Light.ttf"@,
        CODYSTAR_REGULAR_PATH@ == "../../assets/fonts/Codystar-Regular.ttf"@,
        ROBOTO_MONO_PATH@ == "../../assets/fonts/RobotoMono-VariableFont_wght.ttf"@,
        ROBOTO_MONO_ITALIC@ == "../../assets/fonts/RobotoMono-Italic-VariableFont_wght.ttf"@,
        Fonts::font_at(UNDERDOG_REGULAR_PATH@) == Some(Fonts::UnderdogRegular),
        Fonts::font_at(CODYSTAR_LIGHT_PATH@) == Some(Fonts::CodystarLight),
        Fonts::font_at(CODYSTAR_REGULAR_PATH@) == Some(Fonts::CodystarRegular),
        Fonts::font_at(ROBOTO_MONO_PATH@) == Some(Fonts::RobotoMono),
        Fonts::font_at(ROBOTO_MONO_ITALIC@) == Some(Fonts::RobotoMonoItalic),
{
    lemma_font_path_round_trip(Fonts::UnderdogRegular, Seq::empty());
    lemma_font_path_round_trip(Fonts::CodystarLight, Seq::empty());
    lemma_font_path_round_trip(Fonts::CodystarRegular, Seq::empty());
    lemma_font_path_round_trip(Fonts::RobotoMono, Seq::empty());
    lemma_font_path_round_trip(Fonts::RobotoMonoItalic, Seq::empty());
}

/// Where the bytes of a font come from.
#[derive(Clone, Copy, Debug, PartialEq, Eq, Structural)]
pub enum FontSource {
    /// The font is one of the engine's own.
    Embedded(Fonts),
    /// The font is a file of the game's assets.
    AssetFile,
}

/// A path that goes up twice names one of the engine's own fonts; any other
/// path is a file of the game's assets.
pub open spec fn font_source_of(path: Seq<char>) -> FontSource {
    if goes_up_twice(path) {
        FontSource::Embedded(Fonts::font_at(path).unwrap())
    } else {
        FontSource::AssetFile
    }
}

/// Decides where the bytes of the font at `path` come from. A path that goes
/// up twice must name one of the engine's fonts.
pub fn font_source(path: String) -> (r: FontSource)
    requires
        goes_up_twice(path@) ==> Fonts::font_at(path@) is Some,
    ensures
        r == font_source_of(path@),
{
    if contains_up_twice(&path) {
        match Fonts::from_path(path) {
            Some(font) => FontSource::Embedded(font),
            None => FontSource::AssetFile,
        }
    } else {
        FontSource::AssetFile
    }
}

/// The path of each of the engine's fonts selects that font's own bytes.
pub proof fn lemma_font_path_selects_embedded(font: Fonts)
    ensures
        font_source_of(font.path_of()) == FontSource::Embedded(font),
{
    lemma_font_path_round_trip(font, font.path_of());
    reveal_strlit("../../assets/fonts/Underdog-Regular.ttf");
    reveal_strlit("../../assets/fonts/Codystar-Light.ttf");
    reveal_strlit("../../assets/fonts/Codystar-Regular.ttf");
    reveal_strlit("../../assets/fonts/RobotoMono-VariableFont_wght.ttf");
    reveal_strlit("../../assets/fonts/RobotoMono-Italic-VariableFont_wght.ttf");
    assert(up_twice_at(font.path_of(), 0));
}

} // verus!
