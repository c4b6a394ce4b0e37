//! The application's state between frames, and what each user action and
//! each outside event does to it. The window draws this state and carries
//! out the actions that the methods hand back (play a sound, save the
//! config, open an audio device).

use crate::config::{opt_view, AppConfig};
use crate::text::{
    contains, contains_text, lemma_lex_order, lex_lt, lowercase, string_lt, strictly_sorted,
    strings_view, strip_prefix, to_lowercase, without_prefix,
};
use vstd::prelude::*;

verus! {

/// Marks a device switch chosen in the device list and not yet carried out.
pub open spec fn switch_marker() -> Seq<char> {
    "__switch_device:"@
}

/// The device named by a pending switch in a status message, if there is one.
pub open spec fn pending_switch(status: Seq<char>) -> Option<Seq<char>> {
    without_prefix(status, switch_marker())
}

/// Whether a key is listed under the given filter text: the filter is
/// compared case-insensitively, and an empty filter lists every key.
pub open spec fn key_shown(filter: Seq<char>, key: Seq<char>) -> bool {
    passes_filter(lowercase(filter), lowercase(key))
}

/// Whether a key, by its lowercase form, passes a filter, by its lowercase
/// form: an empty filter passes every key, another one the keys that hold it.
pub open spec fn passes_filter(filter_lower: Seq<char>, key_lower: Seq<char>) -> bool {
    filter_lower.len() == 0 || contains_text(key_lower, filter_lower)
}

/// A key passes a nonempty filter exactly when the whole filter occurs in
/// the key as one contiguous run of characters; an empty filter passes
/// every key.
pub proof fn filter_needs_the_whole_text(filter_lower: Seq<char>, key_lower: Seq<char>)
    ensures
        passes_filter(filter_lower, key_lower) <==> (filter_lower.len() == 0 || exists|i: int|
            0 <= i && i + filter_lower.len() <= key_lower.len() && #[trigger] key_lower.subrange(
                i,
                i + filter_lower.len(),
            ) == filter_lower),
{
}

/// A device picked in the device list is the device of the pending switch.
pub proof fn picked_device_is_pending(device: Seq<char>)
    ensures
        pending_switch(switch_marker() + device) == Some(device),
{
    let status = switch_marker() + device;
    assert(status.subrange(0, switch_marker().len() as int) =~= switch_marker());
    assert(status.subrange(switch_marker().len() as int, status.len() as int) =~= device);
}

/// A message that does not begin with `_` holds no pending device switch.
proof fn lemma_no_pending_switch(msg: Seq<char>)
    requires
        msg.len() > 0,
        msg[0] != '_',
    ensures
        pending_switch(msg) is None,
{
    reveal_strlit("__switch_device:");
    if switch_marker().len() <= msg.len() {
        assert(msg.subrange(0, switch_marker().len() as int)[0] != switch_marker()[0]);
    }
}

/// The two states agree on what the window shows besides the status
/// message and the config: last key, capture, selection, filter, devices.
pub open spec fn same_view(a: AppState, b: AppState) -> bool {
    &&& a.last_key == b.last_key
    &&& a.capturing_key == b.capturing_key
    &&& a.selected_key == b.selected_key
    &&& a.filter_text == b.filter_text
    &&& a.available_devices == b.available_devices
}

/// The main application state.
pub struct AppState {
    pub config: AppConfig,
    /// Name of the last key pressed.
    pub last_key: String,
    /// Message shown in the status bar.
    pub status_msg: String,
    /// Whether the next key press selects a key instead of playing a sound.
    pub capturing_key: bool,
    /// Key chosen for a per-key sound assignment.
    pub selected_key: Option<String>,
    /// Filter text for the list of per-key sounds.
    pub filter_text: String,
    /// Cached list of audio output devices.
    pub available_devices: Vec<String>,
}

/// Inserts `s` into a strictly sorted list of strings that lacks it.
fn insert_sorted(v: &mut Vec<String>, s: String)
    requires
        strictly_sorted(strings_view(old(v)@)),
        !strings_view(old(v)@).contains(s@),
    ensures
        strictly_sorted(strings_view(final(v)@)),
        forall|k: Seq<char>| #[trigger] strings_view(final(v)@).contains(k)
            <==> strings_view(old(v)@).contains(k) || k == s@,
{
    let ghost old_v = strings_view(v@);
    let mut j: usize = 0;
    while j < v.len()
        invariant
            strings_view(v@) == old_v,
            strictly_sorted(old_v),
            !old_v.contains(s@),
            j <= v.len(),
            forall|i: int| 0 <= i < j ==> lex_lt(#[trigger] old_v[i], s@),
        ensures
            strings_view(v@) == old_v,
            j <= v.len(),
            forall|i: int| 0 <= i < j ==> lex_lt(#[trigger] old_v[i], s@),
            j < v.len() ==> lex_lt(s@, old_v[j as int]),
        decreases v.len() - j,
    {
        if string_lt(s.as_str(), v[j].as_str()) {
            assert(old_v[j as int] == v@[j as int]@);
            break;
        }
        proof {
            assert(old_v[j as int] == v@[j as int]@);
            lemma_lex_order(s@, old_v[j as int], s@);
        }
        j = j + 1;
    }
    let ghost sv = s@;
    v.insert(j, s);
    let ghost new_v = strings_view(v@);
    assert(new_v =~= old_v.insert(j as int, sv));
    assert forall|a: int, b: int| 0 <= a < b < new_v.len() implies lex_lt(#[trigger] new_v[a], #[trigger] new_v[b]) by {
        if b < j {
        } else if b == j {
        } else if a < j {
            assert(new_v[b] == old_v[b - 1]);
        } else if a == j {
            assert(new_v[b] == old_v[b - 1]);
            if b - 1 > j {
                lemma_lex_order(sv, old_v[j as int], old_v[b - 1]);
            }
        } else {
            assert(new_v[a] == old_v[a - 1]);
            assert(new_v[b] == old_v[b - 1]);
        }
    }
    assert forall|k: Seq<char>| #[trigger] new_v.contains(k) <==> old_v.contains(k) || k == sv by {
        if new_v.contains(k) {
            let i = choose|i: int| 0 <= i < new_v.len() && new_v[i] == k;
            if i < j {
                assert(old_v[i] == k);
            } else if i > j {
                assert(old_v[i - 1] == k);
            }
        }
        if old_v.contains(k) {
            let i = choose|i: int| 0 <= i < old_v.len() && old_v[i] == k;
            if i < j {
                assert(new_v[i] == k);
            } else {
                assert(new_v[i + 1] == k);
            }
        }
        if k == sv {
            assert(new_v[j as int] == k);
        }
    }
}

impl AppState {
    /// The state at start-up, with the loaded config and the devices found.
    pub fn new(config: AppConfig, available_devices: Vec<String>) -> (s: Self)
        ensures
            s.config == config,
            s.available_devices == available_devices,
            s.last_key@ == Seq::<char>::empty(),
            s.status_msg@ == "Ready"@,
            !s.capturing_key,
            s.selected_key is None,
            s.filter_text@ == Seq::<char>::empty(),
    {
        AppState {
            config,
            last_key: String::new(),
            status_msg: String::from_str("Ready"),
            capturing_key: false,
            selected_key: None,
            filter_text: String::new(),
            available_devices,
        }
    }

    /// A key was pressed anywhere on the system. While capturing, the key
    /// becomes the selected key and nothing plays; otherwise, if sounds are
    /// enabled, returns the sound the key plays.
    pub fn on_key_pressed(&mut self, key_name: String) -> (play: Option<String>)
        ensures
            final(self).last_key@ == key_name@,
            final(self).config == old(self).config,
            final(self).status_msg == old(self).status_msg,
            final(self).filter_text == old(self).filter_text,
            final(self).available_devices == old(self).available_devices,
            old(self).capturing_key ==> {
                &&& !final(self).capturing_key
                &&& opt_view(final(self).selected_key) == Some(key_name@)
                &&& play is None
            },
            !old(self).capturing_key ==> {
                &&& final(self).capturing_key == old(self).capturing_key
                &&& final(self).selected_key == old(self).selected_key
                &&& opt_view(play) == if old(self).config.enabled {
                    old(self).config.spec_sound_for_key(key_name@)
                } else {
                    None
                }
            },
    {
        self.last_key = key_name.clone();
        if self.capturing_key {
            self.selected_key = Some(key_name);
            self.capturing_key = false;
            None
        } else if self.config.enabled {
            match self.config.sound_for_key(key_name.as_str()) {
                Some(path) => Some(path.clone()),
                None => None,
            }
        } else {
            None
        }
    }

    /// Shows a failure to play a key's sound.
    pub fn report_playback_error(&mut self, error: &str)
        ensures
            final(self).status_msg@ == "Playback error: "@ + error@,
            final(self).config == old(self).config,
            same_view(*old(self), *final(self)),
    {
        let mut msg = String::from_str("Playback error: ");
        msg.append(error);
        self.status_msg = msg;
    }

    /// Shows a failure to play a sound from its Test button.
    pub fn report_test_playback_error(&mut self, error: &str)
        ensures
            final(self).status_msg@ == "Test playback error: "@ + error@,
            final(self).config == old(self).config,
            same_view(*old(self), *final(self)),
    {
        let mut msg = String::from_str("Test playback error: ");
        msg.append(error);
        self.status_msg = msg;
    }

    /// Shows the outcome of saving the config.
    pub fn on_save_result(&mut self, result: Result<(), String>)
        ensures
            result is Ok ==> final(self).status_msg@ == "Config saved"@,
            result matches Err(e) ==> final(self).status_msg@ == "Save failed: "@ + e@,
            pending_switch(final(self).status_msg@) is None,
            final(self).config == old(self).config,
            same_view(*old(self), *final(self)),
    {
        proof {
            reveal_strlit("Config saved");
            reveal_strlit("Save failed: ");
        }
        match result {
            Ok(()) => {
                self.status_msg = String::from_str("Config saved");
            },
            Err(e) => {
                let mut msg = String::from_str("Save failed: ");
                msg.append(e.as_str());
                self.status_msg = msg;
            },
        }
        proof {
            lemma_no_pending_switch(self.status_msg@);
        }
    }

    /// Turns sound on key presses on or off. The config is to be saved.
    pub fn toggle_enabled(&mut self)
        ensures
            final(self).config == (AppConfig { enabled: !old(self).config.enabled, ..old(self).config }),
            final(self).status_msg == old(self).status_msg,
            same_view(*old(self), *final(self)),
    {
        self.config.enabled = !self.config.enabled;
    }

    /// Sets the sound played by keys without a sound of their own. The config
    /// is to be saved.
    pub fn set_global_sound(&mut self, path: String)
        ensures
            final(self).config == (AppConfig { global_sound: Some(path), ..old(self).config }),
            final(self).status_msg == old(self).status_msg,
            same_view(*old(self), *final(self)),
    {
        self.config.global_sound = Some(path);
    }

    /// Removes the global sound. The config is to be saved.
    pub fn clear_global_sound(&mut self)
        ensures
            final(self).config == (AppConfig { global_sound: None, ..old(self).config }),
            final(self).status_msg == old(self).status_msg,
            same_view(*old(self), *final(self)),
    {
        self.config.global_sound = None;
    }

    /// Records the device picked in the device list; the switch itself is
    /// carried out after the list is drawn.
    pub fn request_device_switch(&mut self, device: &str)
        ensures
            final(self).status_msg@ == switch_marker() + device@,
            final(self).config == old(self).config,
            same_view(*old(self), *final(self)),
    {
        let mut msg = String::from_str("__switch_device:");
        msg.append(device);
        self.status_msg = msg;
    }

    /// The device of a switch that was picked and not yet carried out.
    pub fn pending_device_switch(&self) -> (r: Option<String>)
        ensures
            opt_view(r) == pending_switch(self.status_msg@),
    {
        strip_prefix(self.status_msg.as_str(), "__switch_device:")
    }

    /// Records the outcome of opening the output device `device_name`.
    /// Returns whether the config changed and is to be saved.
    pub fn on_device_switched(&mut self, device_name: &str, result: Result<(), String>) -> (save: bool)
        ensures
            save == result is Ok,
            result is Ok ==> {
                &&& opt_view(final(self).config.audio_device) == Some(device_name@)
                &&& final(self).status_msg@ == "Switched to: "@ + device_name@
            },
            result matches Err(e) ==> {
                &&& final(self).config == old(self).config
                &&& final(self).status_msg@ == "Failed to switch device: "@ + e@
            },
            pending_switch(final(self).status_msg@) is None,
            final(self).config == (AppConfig { audio_device: final(self).config.audio_device, ..old(self).config }),
            same_view(*old(self), *final(self)),
    {
        proof {
            reveal_strlit("Switched to: ");
            reveal_strlit("Failed to switch device: ");
        }
        match result {
            Ok(()) => {
                self.config.audio_device = Some(String::from_str(device_name));
                let mut msg = String::from_str("Switched to: ");
                msg.append(device_name);
                self.status_msg = msg;
                proof {
                    lemma_no_pending_switch(self.status_msg@);
                }
                true
            },
            Err(e) => {
                let mut msg = String::from_str("Failed to switch device: ");
                msg.append(e.as_str());
                self.status_msg = msg;
                proof {
                    lemma_no_pending_switch(self.status_msg@);
                }
                false
            },
        }
    }

    /// Records the outcome of turning start on boot on (`requested`) or off.
    /// On failure the setting goes back to what it was. The config is to be
    /// saved either way.
    pub fn on_autostart_toggled(&mut self, requested: bool, outcome: Result<(), String>)
        ensures
            outcome is Ok ==> final(self).config.autostart == requested,
            outcome is Err ==> final(self).config.autostart == !requested,
            outcome is Ok && requested ==> final(self).status_msg@ == "Autostart enabled"@,
            outcome is Ok && !requested ==> final(self).status_msg@ == "Autostart disabled"@,
            outcome matches Err(e) ==> final(self).status_msg@ == if requested {
                "Autostart failed: "@ + e@
            } else {
                "Failed to disable autostart: "@ + e@
            },
            final(self).config == (AppConfig { autostart: final(self).config.autostart, ..old(self).config }),
            same_view(*old(self), *final(self)),
    {
        self.config.autostart = requested;
        match outcome {
            Ok(()) => {
                if requested {
                    self.status_msg = String::from_str("Autostart enabled");
                } else {
                    self.status_msg = String::from_str("Autostart disabled");
                }
            },
            Err(e) => {
                if requested {
                    let mut msg = String::from_str("Autostart failed: ");
                    msg.append(e.as_str());
                    self.status_msg = msg;
                    self.config.autostart = false;
                } else {
                    let mut msg = String::from_str("Failed to disable autostart: ");
                    msg.append(e.as_str());
                    self.status_msg = msg;
                    self.config.autostart = true;
                }
            },
        }
    }

    /// Sets the limit on simultaneous sounds. The config is to be saved.
    pub fn set_max_polyphony(&mut self, max: usize)
        ensures
            final(self).config == (AppConfig { max_polyphony: max, ..old(self).config }),
            final(self).status_msg == old(self).status_msg,
            same_view(*old(self), *final(self)),
    {
        self.config.max_polyphony = max;
    }

    /// Starts capturing: the next key press selects a key.
    pub fn begin_capture(&mut self)
        ensures
            final(self).capturing_key,
            final(self).selected_key is None,
            final(self).config == old(self).config,
            final(self).status_msg == old(self).status_msg,
            final(self).last_key == old(self).last_key,
            final(self).filter_text == old(self).filter_text,
            final(self).available_devices == old(self).available_devices,
    {
        self.capturing_key = true;
        self.selected_key = None;
    }

    /// Stops capturing without selecting a key.
    pub fn cancel_capture(&mut self)
        ensures
            !final(self).capturing_key,
            final(self).selected_key == old(self).selected_key,
            final(self).config == old(self).config,
            final(self).status_msg == old(self).status_msg,
            final(self).last_key == old(self).last_key,
            final(self).filter_text == old(self).filter_text,
            final(self).available_devices == old(self).available_devices,
    {
        self.capturing_key = false;
    }

    /// Assigns `path` as the sound of the selected key, if a key is selected.
    /// Returns whether the config changed and is to be saved.
    pub fn assign_sound(&mut self, path: String) -> (save: bool)
        ensures
            save == old(self).selected_key is Some,
            old(self).selected_key matches Some(k) ==> final(self).config.key_sounds@
                == old(self).config.key_sounds@.insert(k@, path@),
            old(self).selected_key is None ==> final(self).config == old(self).config,
            final(self).config == (AppConfig { key_sounds: final(self).config.key_sounds, ..old(self).config }),
            final(self).status_msg == old(self).status_msg,
            same_view(*old(self), *final(self)),
    {
        match &self.selected_key {
            Some(key) => {
                let k = key.clone();
                self.config.key_sounds.insert(k, path);
                true
            },
            None => false,
        }
    }

    /// Removes the sound of `key`. The config is to be saved.
    pub fn remove_key_sound(&mut self, key: &str)
        ensures
            final(self).config.key_sounds@ == old(self).config.key_sounds@.remove(key@),
            final(self).config == (AppConfig { key_sounds: final(self).config.key_sounds, ..old(self).config }),
            final(self).status_msg == old(self).status_msg,
            same_view(*old(self), *final(self)),
    {
        let _ = self.config.key_sounds.remove(key);
    }

    /// The keys with a sound of their own that the filter lets through, in
    /// sorted order.
    pub fn visible_keys(&self) -> (r: Vec<String>)
        ensures
            strictly_sorted(strings_view(r@)),
            forall|k: Seq<char>| #[trigger] strings_view(r@).contains(k) <==> self.config.key_sounds@.contains_key(k)
                && key_shown(self.filter_text@, k),
    {
        let filter_lower = to_lowercase(self.filter_text.as_str());
        let all_keys = self.config.key_sounds.keys();
        let mut keys: Vec<(String, String)> = Vec::new();
        let mut i: usize = 0;
        while i < all_keys.len()
            invariant
                i <= all_keys@.len(),
                keys@.len() == i,
                forall|j: int| 0 <= j < i ==> (#[trigger] keys@[j]).0@ == all_keys@[j]@ && keys@[j].1@ == lowercase(
                    all_keys@[j]@,
                ),
            decreases all_keys.len() - i,
        {
            let key = all_keys[i].clone();
            let key_lower = to_lowercase(key.as_str());
            keys.push((key, key_lower));
            i = i + 1;
        }
        let r = sorted_shown_keys(&keys, filter_lower.as_str());
        assert forall|k: Seq<char>| #[trigger] strings_view(r@).contains(k) <==> self.config.key_sounds@.contains_key(k)
            && key_shown(self.filter_text@, k) by {
            if strings_view(r@).contains(k) {
                let j = choose|j: int| 0 <= j < keys@.len() && (#[trigger] keys@[j]).0@ == k && passes_filter(filter_lower@, keys@[j].1@);
                assert(all_keys@[j]@ == k);
            }
            if self.config.key_sounds@.contains_key(k) && key_shown(self.filter_text@, k) {
                let j = choose|j: int| 0 <= j < all_keys@.len() && #[trigger] all_keys@[j]@ == k;
                assert(keys@[j].0@ == k);
            }
        }
        r
    }
}

/// Whether `v` holds a string equal to `s`.
fn holds_string(v: &Vec<String>, s: &String) -> (r: bool)
    ensures
        r == strings_view(v@).contains(s@),
{
    let mut i: usize = 0;
    while i < v.len()
        invariant
            i <= v@.len(),
            forall|j: int| 0 <= j < i ==> v@[j]@ != s@,
        decreases v.len() - i,
    {
        if v[i] == *s {
            assert(strings_view(v@)[i as int] == s@);
            return true;
        }
        i = i + 1;
    }
    false
}

/// The keys that pass the filter, each once, in sorted order. Each entry of
/// `keys` is a key with its lowercase form; `filter_lower` is the lowercase
/// form of the filter text.
pub fn sorted_shown_keys(keys: &Vec<(String, String)>, filter_lower: &str) -> (r: Vec<String>)
    ensures
        strictly_sorted(strings_view(r@)),
        forall|k: Seq<char>| #[trigger] strings_view(r@).contains(k) <==> exists|j: int|
            0 <= j < keys@.len() && (#[trigger] keys@[j]).0@ == k && passes_filter(filter_lower@, keys@[j].1@),
{
    let filtering = !filter_lower.is_empty();
    let mut out: Vec<String> = Vec::new();
    let mut i: usize = 0;
    while i < keys.len()
        invariant
            filtering == (filter_lower@.len() != 0),
            i <= keys@.len(),
            strictly_sorted(strings_view(out@)),
            forall|k: Seq<char>| #[trigger] strings_view(out@).contains(k) <==> exists|j: int|
                0 <= j < i && (#[trigger] keys@[j]).0@ == k && passes_filter(filter_lower@, keys@[j].1@),
        decreases keys.len() - i,
    {
        let shown = if filtering {
            contains(keys[i].1.as_str(), filter_lower)
        } else {
            true
        };
        if shown && !holds_string(&out, &keys[i].0) {
            insert_sorted(&mut out, keys[i].0.clone());
        }
        assert forall|k: Seq<char>| #[trigger] strings_view(out@).contains(k) <==> exists|j: int|
            0 <= j < i + 1 && (#[trigger] keys@[j]).0@ == k && passes_filter(filter_lower@, keys@[j].1@) by {
            if k == keys@[i as int].0@ && passes_filter(filter_lower@, keys@[i as int].1@) {
                assert(keys@[i as int].0@ == k);
            }
            if exists|j: int| 0 <= j < i + 1 && (#[trigger] keys@[j]).0@ == k && passes_filter(filter_lower@, keys@[j].1@) {
                let j = choose|j: int| 0 <= j < i + 1 && (#[trigger] keys@[j]).0@ == k && passes_filter(filter_lower@, keys@[j].1@);
                if j < i {
                    assert(keys@[j].0@ == k);
                }
            }
        }
        i = i + 1;
    }
    out
}

} // verus!
