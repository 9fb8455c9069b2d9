//! Launcher settings: which backend, gameserver dll, redirect dll and client
//! dll are chosen, how a stored value is normalised and how one is saved.

use crate::text::{is_blank_str, lemma_trimmed_unchanged, str_eq, trimmed};
use vstd::prelude::*;

verus! {

/// The view of an optional string.
pub open spec fn opt_view(o: Option<String>) -> Option<Seq<char>> {
    match o {
        Some(s) => Some(s@),
        None => None,
    }
}

/// The settings as stored: each choice is absent or a string.
pub struct Settings {
    pub redirect: Option<String>,
    pub backend: Option<String>,
    pub gameserver: Option<String>,
    pub clientdll: Option<String>,
}

/// The mathematical content of `Settings`.
pub struct SettingsView {
    pub redirect: Option<Seq<char>>,
    pub backend: Option<Seq<char>>,
    pub gameserver: Option<Seq<char>>,
    pub clientdll: Option<Seq<char>>,
}

impl View for Settings {
    type V = SettingsView;

    open spec fn view(&self) -> SettingsView {
        SettingsView {
            redirect: opt_view(self.redirect),
            backend: opt_view(self.backend),
            gameserver: opt_view(self.gameserver),
            clientdll: opt_view(self.clientdll),
        }
    }
}

/// The settings with nothing chosen.
pub open spec fn empty_settings() -> SettingsView {
    SettingsView { redirect: None, backend: None, gameserver: None, clientdll: None }
}

impl Default for Settings {
    fn default() -> (r: Settings)
        ensures
            r@ == empty_settings(),
    {
        Settings { redirect: None, backend: None, gameserver: None, clientdll: None }
    }
}

/// A stored value counts only if it does not trim to nothing.
pub open spec fn normalize_spec(o: Option<Seq<char>>) -> Option<Seq<char>> {
    match o {
        Some(v) => if trimmed(v).len() == 0 {
            None
        } else {
            Some(v)
        },
        None => None,
    }
}

/// Every field of the settings normalised, as loading gives them.
pub open spec fn normalized_spec(s: SettingsView) -> SettingsView {
    SettingsView {
        redirect: normalize_spec(s.redirect),
        backend: normalize_spec(s.backend),
        gameserver: normalize_spec(s.gameserver),
        clientdll: normalize_spec(s.clientdll),
    }
}

/// No field holds a value that trims to nothing.
pub open spec fn is_normalized(s: SettingsView) -> bool {
    normalized_spec(s) == s
}

/// Drops a value that trims to nothing.
pub fn normalize(value: Option<String>) -> (r: Option<String>)
    ensures
        opt_view(r) == normalize_spec(opt_view(value)),
{
    match value {
        Some(v) => {
            if is_blank_str(v.as_str()) {
                None
            } else {
                Some(v)
            }
        },
        None => None,
    }
}

/// Which field a setting name designates.
pub enum SettingKind {
    Redirect,
    Backend,
    Gameserver,
    ClientDll,
}

/// The field that a setting name designates; the names are `"backend"`,
/// `"redirect"`, `"gameserver"` and `"clientdll"`.
pub open spec fn setting_kind_spec(name: Seq<char>) -> Option<SettingKind> {
    if name == "backend"@ {
        Some(SettingKind::Backend)
    } else if name == "redirect"@ {
        Some(SettingKind::Redirect)
    } else if name == "gameserver"@ {
        Some(SettingKind::Gameserver)
    } else if name == "clientdll"@ {
        Some(SettingKind::ClientDll)
    } else {
        None
    }
}

/// Decides `setting_kind_spec`.
pub fn setting_kind(name: &str) -> (r: Option<SettingKind>)
    ensures
        r == setting_kind_spec(name@),
{
    if str_eq(name, "backend") {
        Some(SettingKind::Backend)
    } else if str_eq(name, "redirect") {
        Some(SettingKind::Redirect)
    } else if str_eq(name, "gameserver") {
        Some(SettingKind::Gameserver)
    } else if str_eq(name, "clientdll") {
        Some(SettingKind::ClientDll)
    } else {
        None
    }
}

/// The value a save stores: nothing for a value that trims to nothing,
/// else the value as given (untrimmed).
pub open spec fn stored_value(value: Seq<char>) -> Option<Seq<char>> {
    if trimmed(value).len() == 0 {
        None
    } else {
        Some(value)
    }
}

/// The settings after saving `value` under the setting named `name`; an
/// unknown name changes nothing.
pub open spec fn apply_setting_spec(s: SettingsView, value: Seq<char>, name: Seq<char>) -> SettingsView {
    let v = stored_value(value);
    match setting_kind_spec(name) {
        Some(SettingKind::Backend) => SettingsView { backend: v, ..s },
        Some(SettingKind::Redirect) => SettingsView { redirect: v, ..s },
        Some(SettingKind::Gameserver) => SettingsView { gameserver: v, ..s },
        Some(SettingKind::ClientDll) => SettingsView { clientdll: v, ..s },
        None => s,
    }
}

/// The value of the field `kind`.
pub open spec fn field_of(s: SettingsView, kind: SettingKind) -> Option<Seq<char>> {
    match kind {
        SettingKind::Backend => s.backend,
        SettingKind::Redirect => s.redirect,
        SettingKind::Gameserver => s.gameserver,
        SettingKind::ClientDll => s.clientdll,
    }
}

impl Settings {
    /// Every field normalised: what loading the settings yields.
    pub fn normalized(self) -> (r: Settings)
        ensures
            r@ == normalized_spec(self@),
    {
        Settings {
            redirect: normalize(self.redirect),
            backend: normalize(self.backend),
            gameserver: normalize(self.gameserver),
            clientdll: normalize(self.clientdll),
        }
    }

    /// Saves `value` under the setting named `setting_type`.
    pub fn apply_setting(self, value: String, setting_type: &str) -> (r: Settings)
        ensures
            r@ == apply_setting_spec(self@, value@, setting_type@),
    {
        let ghost value_view = value@;
        let val = if is_blank_str(value.as_str()) {
            None
        } else {
            Some(value)
        };
        assert(opt_view(val) == stored_value(value_view));
        match setting_kind(setting_type) {
            Some(SettingKind::Backend) => Settings { backend: val, ..self },
            Some(SettingKind::Redirect) => Settings { redirect: val, ..self },
            Some(SettingKind::Gameserver) => Settings { gameserver: val, ..self },
            Some(SettingKind::ClientDll) => Settings { clientdll: val, ..self },
            None => self,
        }
    }

    /// Nothing at all is chosen: the state of a first launch.
    pub fn is_unconfigured(&self) -> (r: bool)
        ensures
            r == (self@ == empty_settings()),
    {
        self.redirect.is_none() && self.backend.is_none() && self.gameserver.is_none()
            && self.clientdll.is_none()
    }
}


/// The choices a first launch stores: the LawinServer backend, the Erbium
/// gameserver, the Tellerium redirect and the Erbium client dll.
pub open spec fn first_launch_view() -> SettingsView {
    SettingsView {
        redirect: Some("Tellerium"@),
        backend: Some("LawinServer"@),
        gameserver: Some("Erbium"@),
        clientdll: Some("Erbium"@),
    }
}

/// On a first launch (nothing chosen) the four defaults are saved, one after
/// the other; otherwise nothing is saved.
pub fn first_launch_settings(s: Settings) -> (r: Option<Settings>)
    ensures
        r is Some <==> s@ == empty_settings(),
        r matches Some(t) ==> t@ == first_launch_view(),
{
    if !s.is_unconfigured() {
        return None;
    }
    let t = s.apply_setting(String::from_str("LawinServer"), "backend");
    let t = t.apply_setting(String::from_str("Erbium"), "gameserver");
    let t = t.apply_setting(String::from_str("Tellerium"), "redirect");
    let t = t.apply_setting(String::from_str("Erbium"), "clientdll");
    proof {
        reveal_strlit("LawinServer");
        reveal_strlit("Erbium");
        reveal_strlit("Tellerium");
        reveal_strlit("backend");
        reveal_strlit("gameserver");
        reveal_strlit("redirect");
        reveal_strlit("clientdll");
        lemma_trimmed_unchanged("LawinServer"@);
        lemma_trimmed_unchanged("Erbium"@);
        lemma_trimmed_unchanged("Tellerium"@);
        assert(stored_value("LawinServer"@) == Some("LawinServer"@));
        assert(stored_value("Erbium"@) == Some("Erbium"@));
        assert(stored_value("Tellerium"@) == Some("Tellerium"@));
        assert(setting_kind_spec("backend"@) == Some(SettingKind::Backend));
        assert("gameserver"@[0] != "backend"@[0]);
        assert("redirect"@[0] != "backend"@[0]);
        assert("redirect"@[0] != "gameserver"@[0]);
        assert("clientdll"@[0] != "backend"@[0]);
        assert("clientdll"@[0] != "redirect"@[0]);
        assert("clientdll"@[0] != "gameserver"@[0]);
        assert(setting_kind_spec("gameserver"@) == Some(SettingKind::Gameserver));
        assert(setting_kind_spec("redirect"@) == Some(SettingKind::Redirect));
        assert(setting_kind_spec("clientdll"@) == Some(SettingKind::ClientDll));
    }
    Some(t)
}

/// Normalising twice is normalising once.
pub proof fn law_normalize_idempotent(o: Option<Seq<char>>)
    ensures
        normalize_spec(normalize_spec(o)) == normalize_spec(o),
{
}

/// A save stores no value that trims to nothing, so settings that were
/// normalised stay normalised after any save.
pub proof fn law_save_keeps_normalized(s: SettingsView, value: Seq<char>, name: Seq<char>)
    requires
        is_normalized(s),
    ensures
        is_normalized(apply_setting_spec(s, value, name)),
{
}

/// Saving then loading is loading then saving, and the saved field reads
/// back as the stored value: a blank value reads back as nothing, any other
/// value as itself.
pub proof fn law_saved_setting_reads_back(s: SettingsView, value: Seq<char>, name: Seq<char>)
    requires
        setting_kind_spec(name) is Some,
    ensures
        normalized_spec(apply_setting_spec(s, value, name)) == apply_setting_spec(
            normalized_spec(s),
            value,
            name,
        ),
        field_of(normalized_spec(apply_setting_spec(s, value, name)), setting_kind_spec(name)->0)
            == stored_value(value),
{
}

/// A setting name that is none of the four leaves the settings unchanged.
pub proof fn law_unknown_setting_ignored(s: SettingsView, value: Seq<char>, name: Seq<char>)
    requires
        setting_kind_spec(name) is None,
    ensures
        apply_setting_spec(s, value, name) == s,
{
}


/// The four setting names designate their fields and no other name
/// designates one.
pub proof fn law_setting_names(name: Seq<char>)
    ensures
        setting_kind_spec("backend"@) == Some(SettingKind::Backend),
        setting_kind_spec("redirect"@) == Some(SettingKind::Redirect),
        setting_kind_spec("gameserver"@) == Some(SettingKind::Gameserver),
        setting_kind_spec("clientdll"@) == Some(SettingKind::ClientDll),
        name != "backend"@ && name != "redirect"@ && name != "gameserver"@ && name != "clientdll"@
            ==> setting_kind_spec(name) is None,
{
    reveal_strlit("backend");
    reveal_strlit("gameserver");
    reveal_strlit("redirect");
    reveal_strlit("clientdll");
    assert("gameserver"@[0] != "backend"@[0]);
    assert("redirect"@[0] != "backend"@[0]);
    assert("redirect"@[0] != "gameserver"@[0]);
    assert("clientdll"@[0] != "backend"@[0]);
    assert("clientdll"@[0] != "redirect"@[0]);
    assert("clientdll"@[0] != "gameserver"@[0]);
}

/// A save stores exactly the value given, untrimmed, unless it trims to
/// nothing, and changes only the field named.
pub proof fn law_save_changes_one_field(s: SettingsView, value: Seq<char>)
    ensures
        trimmed(value).len() != 0 ==> apply_setting_spec(s, value, "backend"@)
            == (SettingsView { backend: Some(value), ..s }),
        trimmed(value).len() == 0 ==> apply_setting_spec(s, value, "backend"@)
            == (SettingsView { backend: None, ..s }),
        trimmed(value).len() != 0 ==> apply_setting_spec(s, value, "redirect"@)
            == (SettingsView { redirect: Some(value), ..s }),
        trimmed(value).len() != 0 ==> apply_setting_spec(s, value, "gameserver"@)
            == (SettingsView { gameserver: Some(value), ..s }),
        trimmed(value).len() != 0 ==> apply_setting_spec(s, value, "clientdll"@)
            == (SettingsView { clientdll: Some(value), ..s }),
{
    law_setting_names(value);
}

} // verus!
