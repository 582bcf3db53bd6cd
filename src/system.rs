//! Facts about the host system read from the output of probe commands.
use crate::text::{
    begins_with, chars_of, contains_str, has_text, lower_of, lowercase, slice_chars,
    starts_with_str, string_of, trim_text, trimmed,
};
use vstd::prelude::*;

verus! {

#[derive(Clone, Debug)]
pub struct GitStatus {
    pub installed: bool,
    pub version: Option<String>,
}

/// The version reported by `git --version`: the trimmed output without its
/// leading "git version ", or the whole trimmed output.
pub open spec fn version_of(out: Seq<char>) -> Seq<char> {
    let t = trimmed(out);
    if begins_with(t, "git version "@) {
        t.skip(12)
    } else {
        t
    }
}

/// Whether the version-control tool is installed, from whether
/// `git --version` ran and exited successfully, and its output.
pub fn git_status_from(ran_successfully: bool, stdout: &str) -> (r: GitStatus)
    ensures
        r.installed == ran_successfully,
        match r.version {
            Some(v) => ran_successfully && v@ == version_of(stdout@),
            None => !ran_successfully,
        },
{
    if !ran_successfully {
        return GitStatus { installed: false, version: None };
    }
    let t = trim_text(stdout);
    let tv = chars_of(t.as_str());
    proof {
        reveal_strlit("git version ");
    }
    let version = if starts_with_str(&tv, "git version ") {
        let rest = slice_chars(&tv, 12, tv.len());
        assert(rest@ =~= tv@.skip(12));
        string_of(&rest)
    } else {
        t
    };
    GitStatus { installed: true, version: Some(version) }
}

#[derive(Clone, Debug)]
pub struct SystemTheme {
    /// "light" or "dark".
    pub theme: String,
    /// Where the theme was read from.
    pub source: String,
}

/// The places the desktop theme is read from, in the order they are tried.
#[derive(Clone, Copy, Debug, PartialEq, Eq, Structural)]
pub enum ThemeProbe {
    GnomeColorScheme,
    GtkTheme,
    XdgPortal,
    EnvGtkTheme,
}

impl ThemeProbe {
    pub open spec fn source_spec(self) -> Seq<char> {
        match self {
            ThemeProbe::GnomeColorScheme => "gnome-color-scheme"@,
            ThemeProbe::GtkTheme => "gtk-theme"@,
            ThemeProbe::XdgPortal => "xdg-portal"@,
            ThemeProbe::EnvGtkTheme => "env-gtk-theme"@,
        }
    }
}

/// Whether a probe's answer means a dark theme: the color scheme mentions
/// "dark"; the theme names mention it in any case; the portal answers
/// "uint32 1".
pub open spec fn dark_answer(probe: ThemeProbe, out: Seq<char>) -> bool {
    match probe {
        ThemeProbe::GnomeColorScheme => has_text(out, "dark"@),
        ThemeProbe::XdgPortal => has_text(out, "uint32 1"@),
        _ => has_text(lower_of(out), "dark"@),
    }
}

/// The theme that a probe's successful answer gives.
pub fn theme_from_probe(probe: ThemeProbe, output: &str) -> (r: SystemTheme)
    ensures
        r.theme@ == (if dark_answer(probe, output@) {
            "dark"@
        } else {
            "light"@
        }),
        r.source@ == probe.source_spec(),
{
    let dark = match probe {
        ThemeProbe::GnomeColorScheme => contains_str(&chars_of(output), "dark"),
        ThemeProbe::XdgPortal => contains_str(&chars_of(output), "uint32 1"),
        _ => {
            let l = lowercase(output);
            contains_str(&chars_of(l.as_str()), "dark")
        },
    };
    let source = match probe {
        ThemeProbe::GnomeColorScheme => "gnome-color-scheme",
        ThemeProbe::GtkTheme => "gtk-theme",
        ThemeProbe::XdgPortal => "xdg-portal",
        ThemeProbe::EnvGtkTheme => "env-gtk-theme",
    };
    SystemTheme {
        theme: String::from_str(if dark {
            "dark"
        } else {
            "light"
        }),
        source: String::from_str(source),
    }
}

/// The theme when no probe answers.
pub fn default_theme() -> (r: SystemTheme)
    ensures
        r.theme@ == "light"@,
        r.source@ == "default"@,
{
    SystemTheme { theme: String::from_str("light"), source: String::from_str("default") }
}

} // verus!
