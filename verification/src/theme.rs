//! Color themes: a pure lookup table of RGB values, selected by name.
//!
//! Name lookup folds the requested name to lower case first; an unknown
//! name falls back to the startup theme.  Gauge colors come from the shared
//! health bands: normal usage shows the success color, warning usage the
//! warning color, critical usage the danger color.

use vstd::prelude::*;
use crate::band::{HealthBand, band_of, spec_band_of};

verus! {

/// What `str::to_lowercase` returns; the result depends on the characters
/// alone.
pub uninterp spec fn lower_of(s: Seq<char>) -> Seq<char>;

/// Relies on str::to_lowercase: Unicode lower-casing of every character.
#[verifier::external_body]
fn lowercase(s: &str) -> (lowered: String)
    ensures
        lowered@ == lower_of(s@),
{
    s.to_lowercase()
}

/// Whether a name equals an expected spelling.
fn name_is(name: &String, expected: &str) -> (matched: bool)
    ensures
        matched == (name@ == expected@),
{
    name.eq(&String::from_str(expected))
}

/// Number of built-in themes.
pub const THEME_COUNT: usize = 13;

/// A set of RGB colors, each as `[red, green, blue]`.
#[derive(Clone, Copy, Debug)]
pub struct Theme {
    pub background: [u8; 3],
    pub foreground: [u8; 3],
    pub primary: [u8; 3],
    pub secondary: [u8; 3],
    pub success: [u8; 3],
    pub warning: [u8; 3],
    pub danger: [u8; 3],
    pub border: [u8; 3],
}

impl Theme {
    /// The startup theme.
    pub open spec fn spec_default() -> Theme {
        Theme {
            background: [26u8, 27u8, 38u8],
            foreground: [198u8, 208u8, 245u8],
            primary: [137u8, 180u8, 250u8],
            secondary: [203u8, 166u8, 247u8],
            success: [166u8, 227u8, 161u8],
            warning: [249u8, 226u8, 175u8],
            danger: [243u8, 139u8, 168u8],
            border: [88u8, 91u8, 112u8],
        }
    }

    /// The startup theme.
    pub fn default() -> (theme: Self)
        ensures
            theme == Self::spec_default(),
    {
        Theme {
            background: [26, 27, 38],
            foreground: [198, 208, 245],
            primary: [137, 180, 250],
            secondary: [203, 166, 247],
            success: [166, 227, 161],
            warning: [249, 226, 175],
            danger: [243, 139, 168],
            border: [88, 91, 112],
        }
    }

    pub open spec fn spec_nord() -> Theme {
        Theme {
            background: [46u8, 52u8, 64u8],
            foreground: [236u8, 239u8, 244u8],
            primary: [136u8, 192u8, 208u8],
            secondary: [129u8, 161u8, 193u8],
            success: [163u8, 190u8, 140u8],
            warning: [235u8, 203u8, 139u8],
            danger: [191u8, 97u8, 106u8],
            border: [67u8, 76u8, 94u8],
        }
    }

    pub fn nord() -> (theme: Self)
        ensures
            theme == Self::spec_nord(),
    {
        Theme {
            background: [46, 52, 64],
            foreground: [236, 239, 244],
            primary: [136, 192, 208],
            secondary: [129, 161, 193],
            success: [163, 190, 140],
            warning: [235, 203, 139],
            danger: [191, 97, 106],
            border: [67, 76, 94],
        }
    }

    pub open spec fn spec_gruvbox() -> Theme {
        Theme {
            background: [40u8, 40u8, 40u8],
            foreground: [235u8, 219u8, 178u8],
            primary: [131u8, 165u8, 152u8],
            secondary: [211u8, 134u8, 155u8],
            success: [184u8, 187u8, 38u8],
            warning: [250u8, 189u8, 47u8],
            danger: [251u8, 73u8, 52u8],
            border: [102u8, 92u8, 84u8],
        }
    }

    pub fn gruvbox() -> (theme: Self)
        ensures
            theme == Self::spec_gruvbox(),
    {
        Theme {
            background: [40, 40, 40],
            foreground: [235, 219, 178],
            primary: [131, 165, 152],
            secondary: [211, 134, 155],
            success: [184, 187, 38],
            warning: [250, 189, 47],
            danger: [251, 73, 52],
            border: [102, 92, 84],
        }
    }

    pub open spec fn spec_dracula() -> Theme {
        Theme {
            background: [40u8, 42u8, 54u8],
            foreground: [248u8, 248u8, 242u8],
            primary: [139u8, 233u8, 253u8],
            secondary: [189u8, 147u8, 249u8],
            success: [80u8, 250u8, 123u8],
            warning: [241u8, 250u8, 140u8],
            danger: [255u8, 85u8, 85u8],
            border: [68u8, 71u8, 90u8],
        }
    }

    pub fn dracula() -> (theme: Self)
        ensures
            theme == Self::spec_dracula(),
    {
        Theme {
            background: [40, 42, 54],
            foreground: [248, 248, 242],
            primary: [139, 233, 253],
            secondary: [189, 147, 249],
            success: [80, 250, 123],
            warning: [241, 250, 140],
            danger: [255, 85, 85],
            border: [68, 71, 90],
        }
    }

    pub open spec fn spec_monokai() -> Theme {
        Theme {
            background: [39u8, 40u8, 34u8],
            foreground: [248u8, 248u8, 240u8],
            primary: [102u8, 217u8, 239u8],
            secondary: [174u8, 129u8, 255u8],
            success: [166u8, 226u8, 46u8],
            warning: [244u8, 191u8, 117u8],
            danger: [249u8, 38u8, 114u8],
            border: [73u8, 72u8, 62u8],
        }
    }

    pub fn monokai() -> (theme: Self)
        ensures
            theme == Self::spec_monokai(),
    {
        Theme {
            background: [39, 40, 34],
            foreground: [248, 248, 240],
            primary: [102, 217, 239],
            secondary: [174, 129, 255],
            success: [166, 226, 46],
            warning: [244, 191, 117],
            danger: [249, 38, 114],
            border: [73, 72, 62],
        }
    }

    pub open spec fn spec_cyberpunk() -> Theme {
        Theme {
            background: [16u8, 18u8, 27u8],
            foreground: [255u8, 0u8, 255u8],
            primary: [0u8, 255u8, 255u8],
            secondary: [255u8, 0u8, 128u8],
            success: [0u8, 255u8, 0u8],
            warning: [255u8, 255u8, 0u8],
            danger: [255u8, 0u8, 100u8],
            border: [138u8, 43u8, 226u8],
        }
    }

    pub fn cyberpunk() -> (theme: Self)
        ensures
            theme == Self::spec_cyberpunk(),
    {
        Theme {
            background: [16, 18, 27],
            foreground: [255, 0, 255],
            primary: [0, 255, 255],
            secondary: [255, 0, 128],
            success: [0, 255, 0],
            warning: [255, 255, 0],
            danger: [255, 0, 100],
            border: [138, 43, 226],
        }
    }

    pub open spec fn spec_tokyo_night() -> Theme {
        Theme {
            background: [26u8, 27u8, 38u8],
            foreground: [192u8, 202u8, 245u8],
            primary: [122u8, 162u8, 247u8],
            secondary: [187u8, 154u8, 247u8],
            success: [158u8, 206u8, 106u8],
            warning: [224u8, 175u8, 104u8],
            danger: [247u8, 118u8, 142u8],
            border: [65u8, 72u8, 104u8],
        }
    }

    pub fn tokyo_night() -> (theme: Self)
        ensures
            theme == Self::spec_tokyo_night(),
    {
        Theme {
            background: [26, 27, 38],
            foreground: [192, 202, 245],
            primary: [122, 162, 247],
            secondary: [187, 154, 247],
            success: [158, 206, 106],
            warning: [224, 175, 104],
            danger: [247, 118, 142],
            border: [65, 72, 104],
        }
    }

    pub open spec fn spec_solarized_dark() -> Theme {
        Theme {
            background: [0u8, 43u8, 54u8],
            foreground: [131u8, 148u8, 150u8],
            primary: [38u8, 139u8, 210u8],
            secondary: [108u8, 113u8, 196u8],
            success: [133u8, 153u8, 0u8],
            warning: [181u8, 137u8, 0u8],
            danger: [220u8, 50u8, 47u8],
            border: [7u8, 54u8, 66u8],
        }
    }

    pub fn solarized_dark() -> (theme: Self)
        ensures
            theme == Self::spec_solarized_dark(),
    {
        Theme {
            background: [0, 43, 54],
            foreground: [131, 148, 150],
            primary: [38, 139, 210],
            secondary: [108, 113, 196],
            success: [133, 153, 0],
            warning: [181, 137, 0],
            danger: [220, 50, 47],
            border: [7, 54, 66],
        }
    }

    pub open spec fn spec_solarized_light() -> Theme {
        Theme {
            background: [253u8, 246u8, 227u8],
            foreground: [101u8, 123u8, 131u8],
            primary: [38u8, 139u8, 210u8],
            secondary: [108u8, 113u8, 196u8],
            success: [133u8, 153u8, 0u8],
            warning: [181u8, 137u8, 0u8],
            danger: [220u8, 50u8, 47u8],
            border: [238u8, 232u8, 213u8],
        }
    }

    pub fn solarized_light() -> (theme: Self)
        ensures
            theme == Self::spec_solarized_light(),
    {
        Theme {
            background: [253, 246, 227],
            foreground: [101, 123, 131],
            primary: [38, 139, 210],
            secondary: [108, 113, 196],
            success: [133, 153, 0],
            warning: [181, 137, 0],
            danger: [220, 50, 47],
            border: [238, 232, 213],
        }
    }

    pub open spec fn spec_one_dark() -> Theme {
        Theme {
            background: [40u8, 44u8, 52u8],
            foreground: [171u8, 178u8, 191u8],
            primary: [97u8, 175u8, 239u8],
            secondary: [198u8, 120u8, 221u8],
            success: [152u8, 195u8, 121u8],
            warning: [229u8, 192u8, 123u8],
            danger: [224u8, 108u8, 117u8],
            border: [76u8, 82u8, 99u8],
        }
    }

    pub fn one_dark() -> (theme: Self)
        ensures
            theme == Self::spec_one_dark(),
    {
        Theme {
            background: [40, 44, 52],
            foreground: [171, 178, 191],
            primary: [97, 175, 239],
            secondary: [198, 120, 221],
            success: [152, 195, 121],
            warning: [229, 192, 123],
            danger: [224, 108, 117],
            border: [76, 82, 99],
        }
    }

    pub open spec fn spec_material() -> Theme {
        Theme {
            background: [38u8, 50u8, 56u8],
            foreground: [236u8, 239u8, 241u8],
            primary: [128u8, 203u8, 196u8],
            secondary: [255u8, 202u8, 40u8],
            success: [195u8, 232u8, 141u8],
            warning: [255u8, 213u8, 79u8],
            danger: [239u8, 83u8, 80u8],
            border: [69u8, 90u8, 100u8],
        }
    }

    pub fn material() -> (theme: Self)
        ensures
            theme == Self::spec_material(),
    {
        Theme {
            background: [38, 50, 56],
            foreground: [236, 239, 241],
            primary: [128, 203, 196],
            secondary: [255, 202, 40],
            success: [195, 232, 141],
            warning: [255, 213, 79],
            danger: [239, 83, 80],
            border: [69, 90, 100],
        }
    }

    pub open spec fn spec_ayu_dark() -> Theme {
        Theme {
            background: [10u8, 14u8, 20u8],
            foreground: [230u8, 237u8, 243u8],
            primary: [89u8, 181u8, 249u8],
            secondary: [223u8, 142u8, 255u8],
            success: [186u8, 230u8, 126u8],
            warning: [255u8, 180u8, 84u8],
            danger: [242u8, 119u8, 122u8],
            border: [15u8, 20u8, 25u8],
        }
    }

    pub fn ayu_dark() -> (theme: Self)
        ensures
            theme == Self::spec_ayu_dark(),
    {
        Theme {
            background: [10, 14, 20],
            foreground: [230, 237, 243],
            primary: [89, 181, 249],
            secondary: [223, 142, 255],
            success: [186, 230, 126],
            warning: [255, 180, 84],
            danger: [242, 119, 122],
            border: [15, 20, 25],
        }
    }

    pub open spec fn spec_rosepine() -> Theme {
        Theme {
            background: [25u8, 23u8, 36u8],
            foreground: [224u8, 222u8, 244u8],
            primary: [156u8, 207u8, 216u8],
            secondary: [196u8, 167u8, 231u8],
            success: [49u8, 116u8, 143u8],
            warning: [246u8, 193u8, 119u8],
            danger: [235u8, 111u8, 146u8],
            border: [33u8, 32u8, 46u8],
        }
    }

    pub fn rosepine() -> (theme: Self)
        ensures
            theme == Self::spec_rosepine(),
    {
        Theme {
            background: [25, 23, 36],
            foreground: [224, 222, 244],
            primary: [156, 207, 216],
            secondary: [196, 167, 231],
            success: [49, 116, 143],
            warning: [246, 193, 119],
            danger: [235, 111, 146],
            border: [33, 32, 46],
        }
    }

    /// Theme selected by an already lower-cased name; anything unknown maps
    /// to the startup theme.
    pub open spec fn spec_from_name(lowered: Seq<char>) -> Theme {
        if lowered == "nord"@ {
            Self::spec_nord()
        } else if lowered == "gruvbox"@ {
            Self::spec_gruvbox()
        } else if lowered == "dracula"@ {
            Self::spec_dracula()
        } else if lowered == "monokai"@ {
            Self::spec_monokai()
        } else if lowered == "cyberpunk"@ {
            Self::spec_cyberpunk()
        } else if lowered == "tokyo-night"@ || lowered == "tokyo_night"@ {
            Self::spec_tokyo_night()
        } else if lowered == "solarized-dark"@ || lowered == "solarized_dark"@ {
            Self::spec_solarized_dark()
        } else if lowered == "solarized-light"@ || lowered == "solarized_light"@ {
            Self::spec_solarized_light()
        } else if lowered == "one-dark"@ || lowered == "one_dark"@ {
            Self::spec_one_dark()
        } else if lowered == "material"@ {
            Self::spec_material()
        } else if lowered == "ayu-dark"@ || lowered == "ayu_dark"@ {
            Self::spec_ayu_dark()
        } else if lowered == "rosepine"@ || lowered == "rose-pine"@ || lowered == "rose_pine"@ {
            Self::spec_rosepine()
        } else {
            Self::spec_default()
        }
    }

    /// Looks a theme up by name, case-insensitively; an unknown name yields
    /// the startup theme.
    pub fn from_name(name: &str) -> (theme: Self)
        ensures
            theme == Self::spec_from_name(lower_of(name@)),
    {
        let lowered = lowercase(name);
        if name_is(&lowered, "nord") {
            Self::nord()
        } else if name_is(&lowered, "gruvbox") {
            Self::gruvbox()
        } else if name_is(&lowered, "dracula") {
            Self::dracula()
        } else if name_is(&lowered, "monokai") {
            Self::monokai()
        } else if name_is(&lowered, "cyberpunk") {
            Self::cyberpunk()
        } else if name_is(&lowered, "tokyo-night") || name_is(&lowered, "tokyo_night") {
            Self::tokyo_night()
        } else if name_is(&lowered, "solarized-dark") || name_is(&lowered, "solarized_dark") {
            Self::solarized_dark()
        } else if name_is(&lowered, "solarized-light") || name_is(&lowered, "solarized_light") {
            Self::solarized_light()
        } else if name_is(&lowered, "one-dark") || name_is(&lowered, "one_dark") {
            Self::one_dark()
        } else if name_is(&lowered, "material") {
            Self::material()
        } else if name_is(&lowered, "ayu-dark") || name_is(&lowered, "ayu_dark") {
            Self::ayu_dark()
        } else if name_is(&lowered, "rosepine") || name_is(&lowered, "rose-pine") || name_is(
            &lowered,
            "rose_pine",
        ) {
            Self::rosepine()
        } else {
            Self::default()
        }
    }

    /// Gauge color for a usage value: the band's color.
    pub open spec fn spec_usage_color(&self, usage_tenths: u32) -> [u8; 3] {
        match spec_band_of(usage_tenths) {
            HealthBand::Normal => self.success,
            HealthBand::Warning => self.warning,
            HealthBand::Critical => self.danger,
        }
    }

    /// Color for a usage value in tenths of a percent: success below 50.0%,
    /// warning from 50.0%, danger from 80.0%.
    pub fn usage_color(&self, usage_tenths: u32) -> (color: [u8; 3])
        ensures
            color == self.spec_usage_color(usage_tenths),
    {
        match band_of(usage_tenths) {
            HealthBand::Normal => self.success,
            HealthBand::Warning => self.warning,
            HealthBand::Critical => self.danger,
        }
    }

    /// Theme at a position of the cycling order.
    pub open spec fn spec_theme_at(index: int) -> Theme {
        if index == 1 {
            Self::spec_nord()
        } else if index == 2 {
            Self::spec_gruvbox()
        } else if index == 3 {
            Self::spec_dracula()
        } else if index == 4 {
            Self::spec_monokai()
        } else if index == 5 {
            Self::spec_cyberpunk()
        } else if index == 6 {
            Self::spec_tokyo_night()
        } else if index == 7 {
            Self::spec_solarized_dark()
        } else if index == 8 {
            Self::spec_solarized_light()
        } else if index == 9 {
            Self::spec_one_dark()
        } else if index == 10 {
            Self::spec_material()
        } else if index == 11 {
            Self::spec_ayu_dark()
        } else if index == 12 {
            Self::spec_rosepine()
        } else {
            Self::spec_default()
        }
    }

    /// Steps to the next theme of the cycling order, wrapping around after
    /// the last one.
    pub fn cycle_theme(index: usize) -> (next: (usize, Theme))
        requires
            index < THEME_COUNT,
        ensures
            next.0 == (index + 1) % (THEME_COUNT as int),
            next.1 == Self::spec_theme_at(next.0 as int),
    {
        let next_index = (index + 1) % THEME_COUNT;
        let theme = match next_index {
            1 => Self::nord(),
            2 => Self::gruvbox(),
            3 => Self::dracula(),
            4 => Self::monokai(),
            5 => Self::cyberpunk(),
            6 => Self::tokyo_night(),
            7 => Self::solarized_dark(),
            8 => Self::solarized_light(),
            9 => Self::one_dark(),
            10 => Self::material(),
            11 => Self::ayu_dark(),
            12 => Self::rosepine(),
            _ => Self::default(),
        };
        (next_index, theme)
    }
}

} // verus!
