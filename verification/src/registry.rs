//! The font registry: a mapping from logical family name to a loaded glyph
//! set, populated once from OS-specific probe paths and immutable afterwards.
//!
//! Lookup is two-level: the exact family first, then the `Arial` entry.
//! An empty registry is permitted; the text path treats it as a soft skip.

use vstd::prelude::*;
use vstd::string::StringExecFns;

verus! {

#[verifier::external_type_specification]
#[verifier::external_body]
pub struct ExFontVec(ab_glyph::FontVec);

/// One loaded font under its logical family name.
pub struct FontEntry {
    pub family: String,
    pub font: ab_glyph::FontVec,
}

/// The watermark engine: fonts loaded once, applied to many rasters.
pub struct WatermarkRenderer {
    pub fonts: Vec<FontEntry>,
}

/// Which operating system's well-known font paths to probe.
#[derive(Debug, Clone, Copy, PartialEq, Eq, Structural)]
pub enum OsKind {
    Windows,
    MacOs,
    Linux,
}

/// Whether `ab_glyph` accepts `data` as a font. What
/// `FontVec::try_from_vec` returns depends on the bytes alone.
pub uninterp spec fn font_parses(data: Seq<u8>) -> bool;

/// Relies on `ab_glyph::FontVec::try_from_vec`: parses the bytes of a font
/// file, succeeding exactly when they are a valid font.
#[verifier::external_body]
fn parse_font(data: Vec<u8>) -> (r: Option<ab_glyph::FontVec>)
    ensures
        r is Some <==> font_parses(data@),
{
    ab_glyph::FontVec::try_from_vec(data).ok()
}

impl WatermarkRenderer {
    /// Whether some entry is registered under family name `fam`.
    pub open spec fn has_family(&self, fam: Seq<char>) -> bool {
        exists|i: int| 0 <= i < self.fonts@.len() && self.fonts@[i].family@ == fam
    }

    /// A registry with no fonts loaded.
    pub fn empty() -> (r: WatermarkRenderer)
        ensures
            r.fonts@.len() == 0,
    {
        WatermarkRenderer { fonts: Vec::new() }
    }

    /// The index of the entry registered under `family`, if any.
    fn find_family(&self, family: &String) -> (r: Option<usize>)
        ensures
            r matches Some(i) ==> i < self.fonts@.len() && self.fonts@[i as int].family@
                == family@,
            r is None ==> !self.has_family(family@),
    {
        let mut j: usize = 0;
        while j < self.fonts.len()
            invariant
                j <= self.fonts@.len(),
                forall|q: int| 0 <= q < j ==> self.fonts@[q].family@ != family@,
            decreases self.fonts@.len() - j,
        {
            if self.fonts[j].family == *family {
                return Some(j);
            }
            j = j + 1;
        }
        None
    }

    /// Registers `font` under `family`. The registry is populated with
    /// distinct families and kept immutable afterwards; a family that is
    /// already present keeps its first font.
    pub fn add_font(&mut self, family: String, font: ab_glyph::FontVec)
        ensures
            final(self).has_family(family@),
            forall|g: Seq<char>| final(self).has_family(g) <==> (old(self).has_family(g) || g
                == family@),
            !old(self).has_family(family@) ==> final(self).fonts@ == old(self).fonts@.push(
                FontEntry { family, font },
            ),
            old(self).has_family(family@) ==> final(self).fonts@ == old(self).fonts@,
    {
        let ghost fam = family@;
        let ghost n = self.fonts@.len() as int;
        match self.find_family(&family) {
            Some(i) => {
                proof {
                    assert(self.fonts@[i as int].family@ == fam);
                    assert(self.has_family(fam));
                }
            },
            None => {
                let entry = FontEntry { family, font };
                self.fonts.push(entry);
                proof {
                    assert(self.fonts@[n].family@ == fam);
                    assert(self.has_family(fam));
                    assert forall|g: Seq<char>|
                        self.has_family(g) implies (old(self).has_family(g) || g == fam) by {
                        let i = choose|i: int|
                            0 <= i < self.fonts@.len() && self.fonts@[i].family@ == g;
                        if i < n {
                            assert(old(self).fonts@[i].family@ == g);
                        }
                    }
                    assert forall|g: Seq<char>|
                        old(self).has_family(g) implies self.has_family(g) by {
                        let i = choose|i: int|
                            0 <= i < old(self).fonts@.len() && old(self).fonts@[i].family@ == g;
                        assert(self.fonts@[i].family@ == g);
                    }
                }
            },
        }
    }

    /// Parses `data` and, on success, registers the font under `family`;
    /// returns whether the bytes were a valid font, so a probe loop can
    /// stop at the first file that loads. Invalid font data leaves the
    /// registry untouched.
    pub fn add_font_data(&mut self, family: String, data: Vec<u8>) -> (ok: bool)
        ensures
            ok <==> font_parses(data@),
            ok ==> final(self).has_family(family@),
            ok ==> forall|g: Seq<char>|
                final(self).has_family(g) <==> (old(self).has_family(g) || g == family@),
            !ok ==> *final(self) == *old(self),
    {
        match parse_font(data) {
            Some(font) => {
                self.add_font(family, font);
                true
            },
            None => false,
        }
    }

    /// The number of loaded fonts.
    pub fn font_count(&self) -> (n: usize)
        ensures
            n == self.fonts@.len(),
    {
        self.fonts.len()
    }

    /// The font stored at entry `i`.
    pub fn font_at(&self, i: usize) -> (f: &ab_glyph::FontVec)
        requires
            i < self.fonts@.len(),
        ensures
            *f == self.fonts@[i as int].font,
    {
        &self.fonts[i].font
    }

    /// Resolves `family` to the index of a loaded font: the exact family if
    /// present, else the `Arial` entry, else nothing.
    pub fn lookup_index(&self, family: &String) -> (r: Option<usize>)
        ensures
            r is Some <==> (self.has_family(family@) || self.has_family("Arial"@)),
            r matches Some(i) ==> i < self.fonts@.len() && (self.has_family(family@)
                ==> self.fonts@[i as int].family@ == family@) && (!self.has_family(family@)
                ==> self.fonts@[i as int].family@ == "Arial"@),
    {
        match self.find_family(family) {
            Some(i) => Some(i),
            None => {
                let fallback = String::from_str("Arial");
                match self.find_family(&fallback) {
                    Some(i) => Some(i),
                    None => None,
                }
            },
        }
    }

    /// Resolves `family` to a loaded font, with the `Arial` fallback.
    pub fn lookup(&self, family: &String) -> (r: Option<&ab_glyph::FontVec>)
        ensures
            r is Some <==> (self.has_family(family@) || self.has_family("Arial"@)),
            r matches Some(f) ==> exists|i: int|
                0 <= i < self.fonts@.len() && *f == self.fonts@[i].font && (self.has_family(
                    family@,
                ) ==> self.fonts@[i].family@ == family@) && (!self.has_family(family@)
                    ==> self.fonts@[i].family@ == "Arial"@),
    {
        match self.lookup_index(family) {
            Some(i) => Some(self.font_at(i)),
            None => None,
        }
    }

    /// The well-known font files probed on `os`, in preference order: two
    /// logical families, `Arial` and `Default`, each with its candidate
    /// paths.
    pub fn get_system_font_paths(os: OsKind) -> (r: Vec<(String, Vec<String>)>)
        ensures
            r@.len() == 2,
            r@[0].0@ == "Arial"@,
            r@[1].0@ == "Default"@,
            r@[0].1@.len() == 2,
            r@[1].1@.len() == 2,
            os is Windows ==> r@[0].1@[0]@ == "C:/Windows/Fonts/arial.ttf"@ && r@[0].1@[1]@
                == "C:/Windows/Fonts/Arial.ttf"@ && r@[1].1@[0]@ == "C:/Windows/Fonts/calibri.ttf"@
                && r@[1].1@[1]@ == "C:/Windows/Fonts/tahoma.ttf"@,
            os is MacOs ==> r@[0].1@[0]@ == "/System/Library/Fonts/Arial.ttf"@ && r@[0].1@[1]@
                == "/Library/Fonts/Arial.ttf"@ && r@[1].1@[0]@
                == "/System/Library/Fonts/Helvetica.ttc"@ && r@[1].1@[1]@
                == "/System/Library/Fonts/Geneva.ttf"@,
            os is Linux ==> r@[0].1@[0]@
                == "/usr/share/fonts/truetype/liberation/LiberationSans-Regular.ttf"@
                && r@[0].1@[1]@ == "/usr/share/fonts/truetype/dejavu/DejaVuSans.ttf"@
                && r@[1].1@[0]@ == "/usr/share/fonts/truetype/dejavu/DejaVuSans.ttf"@
                && r@[1].1@[1]@
                == "/usr/share/fonts/truetype/liberation/LiberationSans-Regular.ttf"@,
    {
        let mut arial_paths: Vec<String> = Vec::new();
        let mut default_paths: Vec<String> = Vec::new();
        match os {
            OsKind::Windows => {
                arial_paths.push(String::from_str("C:/Windows/Fonts/arial.ttf"));
                arial_paths.push(String::from_str("C:/Windows/Fonts/Arial.ttf"));
                default_paths.push(String::from_str("C:/Windows/Fonts/calibri.ttf"));
                default_paths.push(String::from_str("C:/Windows/Fonts/tahoma.ttf"));
            },
            OsKind::MacOs => {
                arial_paths.push(String::from_str("/System/Library/Fonts/Arial.ttf"));
                arial_paths.push(String::from_str("/Library/Fonts/Arial.ttf"));
                default_paths.push(String::from_str("/System/Library/Fonts/Helvetica.ttc"));
                default_paths.push(String::from_str("/System/Library/Fonts/Geneva.ttf"));
            },
            OsKind::Linux => {
                arial_paths.push(
                    String::from_str(
                        "/usr/share/fonts/truetype/liberation/LiberationSans-Regular.ttf",
                    ),
                );
                arial_paths.push(
                    String::from_str("/usr/share/fonts/truetype/dejavu/DejaVuSans.ttf"),
                );
                default_paths.push(
                    String::from_str("/usr/share/fonts/truetype/dejavu/DejaVuSans.ttf"),
                );
                default_paths.push(
                    String::from_str(
                        "/usr/share/fonts/truetype/liberation/LiberationSans-Regular.ttf",
                    ),
                );
            },
        }
        let mut r: Vec<(String, Vec<String>)> = Vec::new();
        r.push((String::from_str("Arial"), arial_paths));
        r.push((String::from_str("Default"), default_paths));
        r
    }
}

} // verus!
