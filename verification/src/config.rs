//! The persisted configuration and its defaults.

use crate::key_sounds::KeySounds;
use vstd::prelude::*;

verus! {

/// The view of an optional string.
pub open spec fn opt_view(s: Option<String>) -> Option<Seq<char>> {
    match s {
        Some(v) => Some(v@),
        None => None,
    }
}

/// The view of an optional borrowed string.
pub open spec fn opt_ref_view(s: Option<&String>) -> Option<Seq<char>> {
    match s {
        Some(v) => Some(v@),
        None => None,
    }
}

/// Bit pattern of the single-precision float 1.0.
pub const FULL_VOLUME_BITS: u32 = 0x3F80_0000u32;

/// Default limit on simultaneous sounds.
pub const DEFAULT_MAX_POLYPHONY: usize = 5usize;

/// The application's configuration, as stored in `config.json`.
#[derive(Clone, Debug)]
pub struct AppConfig {
    /// Sound file played for any key without a specific mapping.
    pub global_sound: Option<String>,
    /// Per-key sound mappings: key name (e.g. "KeyA", "Space") -> sound file path.
    pub key_sounds: KeySounds,
    /// Master volume in 0.0 ..= 1.0, held as the bit pattern of its `f32`.
    pub volume_bits: u32,
    /// Whether key presses play sounds.
    pub enabled: bool,
    /// Whether the application starts on boot.
    pub autostart: bool,
    /// Selected audio output device name; `None` is the system default.
    pub audio_device: Option<String>,
    /// Maximum number of simultaneous sounds.
    pub max_polyphony: usize,
}

/// The default master volume (full volume, 1.0), as `f32` bits.
pub fn default_volume_bits() -> (r: u32)
    ensures
        r == FULL_VOLUME_BITS,
{
    FULL_VOLUME_BITS
}

/// Key presses play sounds by default.
pub fn default_enabled() -> (r: bool)
    ensures
        r,
{
    true
}

/// At most five sounds play at once by default.
pub fn default_max_polyphony() -> (r: usize)
    ensures
        r == 5,
{
    DEFAULT_MAX_POLYPHONY
}

impl AppConfig {
    /// The sound a key plays: its own mapping if it has one, otherwise the
    /// global sound, otherwise none.
    pub open spec fn spec_sound_for_key(self, key: Seq<char>) -> Option<Seq<char>> {
        if self.key_sounds@.contains_key(key) {
            Some(self.key_sounds@[key])
        } else {
            opt_view(self.global_sound)
        }
    }

    /// Get the sound path for a given key name: the per-key sound if mapped,
    /// otherwise the global sound.
    pub fn sound_for_key(&self, key_name: &str) -> (r: Option<&String>)
        ensures
            opt_ref_view(r) == self.spec_sound_for_key(key_name@),
    {
        match self.key_sounds.get(key_name) {
            Some(s) => Some(s),
            None => self.global_sound.as_ref(),
        }
    }
}

/// A sound assigned to a key is the sound that key plays from then on, and
/// the other keys keep playing what they played before.
pub proof fn assigned_sound_plays(
    before: AppConfig,
    after: AppConfig,
    key: Seq<char>,
    path: Seq<char>,
    other: Seq<char>,
)
    requires
        after.key_sounds@ == before.key_sounds@.insert(key, path),
        after.global_sound == before.global_sound,
        other != key,
    ensures
        after.spec_sound_for_key(key) == Some(path),
        after.spec_sound_for_key(other) == before.spec_sound_for_key(other),
{
}

/// Once a key's own sound is removed, the key plays the global sound (or
/// nothing, without one), and the other keys keep playing what they played.
pub proof fn removed_sound_falls_back(
    before: AppConfig,
    after: AppConfig,
    key: Seq<char>,
    other: Seq<char>,
)
    requires
        after.key_sounds@ == before.key_sounds@.remove(key),
        after.global_sound == before.global_sound,
        other != key,
    ensures
        after.spec_sound_for_key(key) == opt_view(before.global_sound),
        after.spec_sound_for_key(other) == before.spec_sound_for_key(other),
{
}

/// A key with a sound of its own plays it whatever the global sound is; a
/// key without one plays the global sound.
pub proof fn key_sound_overrides_global(config: AppConfig, key: Seq<char>)
    ensures
        config.key_sounds@.contains_key(key) ==> config.spec_sound_for_key(key) == Some(
            config.key_sounds@[key],
        ),
        !config.key_sounds@.contains_key(key) ==> config.spec_sound_for_key(key) == opt_view(
            config.global_sound,
        ),
{
}

impl Default for AppConfig {
    fn default() -> (c: Self)
        ensures
            c.global_sound is None,
            c.key_sounds@ == Map::<Seq<char>, Seq<char>>::empty(),
            c.volume_bits == FULL_VOLUME_BITS,
            c.enabled,
            !c.autostart,
            c.audio_device is None,
            c.max_polyphony == 5,
    {
        AppConfig {
            global_sound: None,
            key_sounds: KeySounds::new(),
            volume_bits: default_volume_bits(),
            enabled: default_enabled(),
            autostart: false,
            audio_device: None,
            max_polyphony: default_max_polyphony(),
        }
    }
}

/// `dir` starts with a Windows verbatim prefix (`\\?\`), under which
/// joining also normalizes the path.
pub open spec fn verbatim_prefixed(dir: Seq<char>) -> bool {
    &&& dir.len() >= 4
    &&& dir[0] == '\\'
    &&& dir[1] == '\\'
    &&& dir[2] == '?'
    &&& dir[3] == '\\'
}

/// `path` is the file `name` placed in the directory `dir`: an empty
/// directory gives the name alone; after a trailing `/` the name follows
/// directly; after any other last character but `\` or `:` one separator,
/// `/` or `\`, comes first. After `\` or `:`, whether one comes depends on
/// the platform.
pub open spec fn joined(path: Seq<char>, dir: Seq<char>, name: Seq<char>) -> bool {
    &&& dir.len() == 0 ==> path == name
    &&& dir.len() > 0 && dir.last() == '/' ==> path == dir + name
    &&& dir.len() > 0 && dir.last() != '/' && dir.last() != '\\' && dir.last() != ':' ==> {
        ||| path == dir + seq!['/'] + name
        ||| path == dir + seq!['\\'] + name
    }
    &&& dir.len() > 0 && (dir.last() == '\\' || dir.last() == ':') ==> {
        ||| path == dir + name
        ||| path == dir + seq!['/'] + name
        ||| path == dir + seq!['\\'] + name
    }
}

/// A file name without separators or drive prefix.
pub open spec fn plain_file_name(name: Seq<char>) -> bool {
    &&& name.len() > 0
    &&& forall|i: int| 0 <= i < name.len() ==> name[i] != '/' && name[i] != '\\' && name[i] != ':'
}

/// Calls `Path::join` on a directory and a plain file name. A relative name
/// is appended after a separator where the directory does not end in one;
/// which separator is the platform's (`/`, or `\` on Windows), and that is
/// left unstated. Under a Windows verbatim prefix the directory is also
/// normalized, and nothing is stated of the result there.
#[verifier::external_body]
pub(crate) fn path_join(dir: &str, name: &str) -> (r: String)
    requires
        plain_file_name(name@),
    ensures
        !verbatim_prefixed(dir@) ==> joined(r@, dir@, name@),
{
    std::path::Path::new(dir).join(name).to_string_lossy().into_owned()
}

/// The path of the config JSON file inside the config directory.
pub fn config_path(config_dir: &str) -> (r: String)
    ensures
        !verbatim_prefixed(config_dir@) ==> joined(r@, config_dir@, "config.json"@),
{
    proof {
        reveal_strlit("config.json");
    }
    path_join(config_dir, "config.json")
}

} // verus!
