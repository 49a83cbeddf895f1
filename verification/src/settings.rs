//! Persisted user preferences.
//!
//! The host stores them as TOML at `<app-config-dir>/settings.toml`; a
//! corrupt or missing file falls back to the defaults so a bad config
//! never prevents the app from starting.
use vstd::prelude::*;
use crate::text::{chars_of, str_eq, string_of};

verus! {

/// File name under the app config dir.
pub const FILE_NAME: &'static str = "settings.toml";

/// The settings directory, as handed around by the host.
#[verifier::external_type_specification]
#[verifier::external_body]
pub struct ExPathBuf(std::path::PathBuf);

/// What `Path::join` gives for directory `dir` and relative file name
/// `name` (as text) on a platform whose primary separator is `sep`.
pub uninterp spec fn joined_path(sep: char, dir: Seq<char>, name: Seq<char>) -> Seq<char>;

/// `Path::join` on text paths: `dir` with `name` appended as a further
/// component, read back as text, together with the platform's primary
/// separator `std::path::MAIN_SEPARATOR` (`/` on Unix, `\\` on
/// Windows). The joined text is named [`joined_path`] of that separator
/// and the two arguments; which separator it is, is not stated.
#[verifier::external_body]
pub(crate) fn join_file_name(dir: &str, name: &str) -> (r: (String, char))
    ensures
        r.0@ == joined_path(r.1, dir@, name@),
{
    (std::path::Path::new(dir).join(name).to_string_lossy().into_owned(), std::path::MAIN_SEPARATOR)
}

/// User settings persisted across launches.
#[derive(Debug, Clone, PartialEq, Eq)]
pub struct Settings {
    /// Configuration name of the active Hangul layout.
    pub hangul_layout_id: String,
    /// Configuration name of the active Latin layout (QWERTY / Dvorak).
    pub latin_layout_id: String,
    /// Active input mode (`hangul` / `english`).
    pub input_mode: String,
    /// Output form (`nfc` / `conjoining` / `compat`).
    pub output_form: String,
    /// Compose mode (`sequential` / `moachigi`).
    pub compose_mode: String,
    /// Whether the autocomplete suggestion popup is shown.
    pub suggestions_enabled: bool,
    /// How Backspace deletes committed text: `"syllable"` (default) or
    /// `"jamo"`.
    pub backspace_mode: String,
    /// Whether user-supplied abbreviation dictionaries are merged with
    /// the built-in one.
    pub use_user_abbrs: bool,
    /// Legacy field name from earlier builds: if present it seeds
    /// `hangul_layout_id` on read. Never written back.
    pub layout_id: Option<String>,
}

/// The mathematical content of [`Settings`].
pub struct SettingsView {
    pub hangul_layout_id: Seq<char>,
    pub latin_layout_id: Seq<char>,
    pub input_mode: Seq<char>,
    pub output_form: Seq<char>,
    pub compose_mode: Seq<char>,
    pub suggestions_enabled: bool,
    pub backspace_mode: Seq<char>,
    pub use_user_abbrs: bool,
    pub layout_id: Option<Seq<char>>,
}

impl View for Settings {
    type V = SettingsView;

    open spec fn view(&self) -> SettingsView {
        SettingsView {
            hangul_layout_id: self.hangul_layout_id@,
            latin_layout_id: self.latin_layout_id@,
            input_mode: self.input_mode@,
            output_form: self.output_form@,
            compose_mode: self.compose_mode@,
            suggestions_enabled: self.suggestions_enabled,
            backspace_mode: self.backspace_mode@,
            use_user_abbrs: self.use_user_abbrs,
            layout_id: match self.layout_id {
                Some(s) => Some(s@),
                None => None,
            },
        }
    }
}

/// The default settings: 세벌식 최종, QWERTY, Hangul mode, NFC output,
/// order-independent composition, suggestions on, syllable-wise
/// Backspace, user dictionaries merged.
pub open spec fn default_settings() -> SettingsView {
    SettingsView {
        hangul_layout_id: "sebeolsik-final"@,
        latin_layout_id: "qwerty-us"@,
        input_mode: "hangul"@,
        output_form: "nfc"@,
        compose_mode: "moachigi"@,
        suggestions_enabled: true,
        backspace_mode: "syllable"@,
        use_user_abbrs: true,
        layout_id: None,
    }
}

impl Default for Settings {
    fn default() -> (r: Self)
        ensures
            r@ == default_settings(),
    {
        Settings {
            hangul_layout_id: string_of("sebeolsik-final"),
            latin_layout_id: string_of("qwerty-us"),
            input_mode: string_of("hangul"),
            output_form: string_of("nfc"),
            compose_mode: string_of("moachigi"),
            suggestions_enabled: true,
            backspace_mode: string_of("syllable"),
            use_user_abbrs: true,
            layout_id: None,
        }
    }
}

/// Settings as read back: a legacy `layout_id` is dropped, and it
/// replaces a Hangul layout that is empty or still the default.
pub open spec fn migrated(s: SettingsView) -> SettingsView {
    match s.layout_id {
        None => s,
        Some(legacy) => SettingsView {
            layout_id: None,
            hangul_layout_id: if s.hangul_layout_id.len() == 0 || s.hangul_layout_id
                == "sebeolsik-final"@ {
                legacy
            } else {
                s.hangul_layout_id
            },
            ..s
        },
    }
}

/// Settings as an older version wrote them: the defaults, plus a legacy
/// `layout_id`.
pub open spec fn legacy_over_default(legacy: Seq<char>) -> SettingsView {
    SettingsView { layout_id: Some(legacy), ..default_settings() }
}

/// The legacy migration: it runs once (a second pass changes nothing),
/// leaves settings without a legacy field alone, and a legacy layout read
/// over the default settings becomes the Hangul layout.
pub proof fn lemma_migration_laws(s: SettingsView, legacy: Seq<char>)
    ensures
        migrated(migrated(s)) == migrated(s),
        s.layout_id is None ==> migrated(s) == s,
        migrated(legacy_over_default(legacy)).hangul_layout_id == legacy,
        migrated(legacy_over_default(legacy)).layout_id is None,
        migrated(s).layout_id is None,
{
}

impl Settings {
    /// Apply the migration of the pre-multi-layout field name (see
    /// [`migrated`]).
    pub fn migrate_legacy_layout(self) -> (r: Settings)
        ensures
            r@ == migrated(self@),
    {
        let mut s = self;
        match s.layout_id.take() {
            None => s,
            Some(legacy) => {
                if chars_of(s.hangul_layout_id.as_str()).len() == 0 || str_eq(
                    s.hangul_layout_id.as_str(),
                    "sebeolsik-final",
                ) {
                    s.hangul_layout_id = legacy;
                }
                s
            },
        }
    }
}

/// The settings directory, kept as a separate type so the host can hold
/// it as shared state.
#[derive(Debug)]
pub struct SettingsPath(pub std::path::PathBuf);

} // verus!
