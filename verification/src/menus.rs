//! The menus' answers and the checks on a custom backend URL and a custom
//! dll path.

use crate::outside::{file_extension, plain_ext, url_scheme, url_scheme_of};
use crate::settings::opt_view;
use crate::text::{ascii_fold, eq_ignore_ascii_case, has_substring, str_eq, str_eq_ignore_ascii_case};
use vstd::prelude::*;

verus! {

/// The main menu.
#[derive(PartialEq, Eq, Structural)]
pub enum MainMenuChoice {
    Launch,
    Configurations,
    Settings,
    Exit,
    Invalid,
}

/// `1` launch, `2` create or delete a configuration, `3` settings, `4` exit.
pub open spec fn main_menu_spec(t: Seq<char>) -> MainMenuChoice {
    if t == "1"@ {
        MainMenuChoice::Launch
    } else if t == "2"@ {
        MainMenuChoice::Configurations
    } else if t == "3"@ {
        MainMenuChoice::Settings
    } else if t == "4"@ {
        MainMenuChoice::Exit
    } else {
        MainMenuChoice::Invalid
    }
}

/// Decides `main_menu_spec` on the trimmed answer.
pub fn main_menu_choice(t: &str) -> (r: MainMenuChoice)
    ensures
        r == main_menu_spec(t@),
{
    if str_eq(t, "1") {
        MainMenuChoice::Launch
    } else if str_eq(t, "2") {
        MainMenuChoice::Configurations
    } else if str_eq(t, "3") {
        MainMenuChoice::Settings
    } else if str_eq(t, "4") {
        MainMenuChoice::Exit
    } else {
        MainMenuChoice::Invalid
    }
}

/// The configuration menu.
#[derive(PartialEq, Eq, Structural)]
pub enum ConfigMenuChoice {
    Create,
    Delete,
    Back,
    Invalid,
}

/// `1` create, `2` delete, `0` back.
pub open spec fn config_menu_spec(t: Seq<char>) -> ConfigMenuChoice {
    if t == "1"@ {
        ConfigMenuChoice::Create
    } else if t == "2"@ {
        ConfigMenuChoice::Delete
    } else if t == "0"@ {
        ConfigMenuChoice::Back
    } else {
        ConfigMenuChoice::Invalid
    }
}

/// Decides `config_menu_spec` on the trimmed answer.
pub fn config_menu_choice(t: &str) -> (r: ConfigMenuChoice)
    ensures
        r == config_menu_spec(t@),
{
    if str_eq(t, "1") {
        ConfigMenuChoice::Create
    } else if str_eq(t, "2") {
        ConfigMenuChoice::Delete
    } else if str_eq(t, "0") {
        ConfigMenuChoice::Back
    } else {
        ConfigMenuChoice::Invalid
    }
}

/// The settings menu.
#[derive(PartialEq, Eq, Structural)]
pub enum SettingsMenuChoice {
    Backend,
    Gameserver,
    Redirect,
    ClientDll,
    Back,
    Invalid,
}

/// `1` backend, `2` gameserver, `3` redirect, `4` client dll, `0` back.
pub open spec fn settings_menu_spec(t: Seq<char>) -> SettingsMenuChoice {
    if t == "1"@ {
        SettingsMenuChoice::Backend
    } else if t == "2"@ {
        SettingsMenuChoice::Gameserver
    } else if t == "3"@ {
        SettingsMenuChoice::Redirect
    } else if t == "4"@ {
        SettingsMenuChoice::ClientDll
    } else if t == "0"@ {
        SettingsMenuChoice::Back
    } else {
        SettingsMenuChoice::Invalid
    }
}

/// Decides `settings_menu_spec` on the trimmed answer.
pub fn settings_menu_choice(t: &str) -> (r: SettingsMenuChoice)
    ensures
        r == settings_menu_spec(t@),
{
    if str_eq(t, "1") {
        SettingsMenuChoice::Backend
    } else if str_eq(t, "2") {
        SettingsMenuChoice::Gameserver
    } else if str_eq(t, "3") {
        SettingsMenuChoice::Redirect
    } else if str_eq(t, "4") {
        SettingsMenuChoice::ClientDll
    } else if str_eq(t, "0") {
        SettingsMenuChoice::Back
    } else {
        SettingsMenuChoice::Invalid
    }
}

/// An answer to the backend, gameserver or redirect menu.
pub enum PresetChoice {
    /// Store this bundled choice.
    Preset(String),
    /// Ask for a custom value.
    Custom,
    Back,
    Invalid,
}

/// The mathematical content of a `PresetChoice`.
pub enum PresetChoiceView {
    Preset(Seq<char>),
    Custom,
    Back,
    Invalid,
}

impl View for PresetChoice {
    type V = PresetChoiceView;

    open spec fn view(&self) -> PresetChoiceView {
        match self {
            PresetChoice::Preset(s) => PresetChoiceView::Preset(s@),
            PresetChoice::Custom => PresetChoiceView::Custom,
            PresetChoice::Back => PresetChoiceView::Back,
            PresetChoice::Invalid => PresetChoiceView::Invalid,
        }
    }
}

/// The answer to a menu that numbers `presets` from `1`, offers a custom
/// value after them and goes back on `0`.
pub open spec fn preset_menu_spec(t: Seq<char>, presets: Seq<Seq<char>>) -> PresetChoiceView {
    if t == "0"@ {
        PresetChoiceView::Back
    } else if exists|k: int| 0 <= k < presets.len() && t == menu_key(k) {
        let k = choose|k: int| 0 <= k < presets.len() && t == menu_key(k);
        PresetChoiceView::Preset(presets[k])
    } else if t == menu_key(presets.len() as int) {
        PresetChoiceView::Custom
    } else {
        PresetChoiceView::Invalid
    }
}

/// The key of the `k`-th entry of a preset menu: `1` for the first, up to `5`.
pub open spec fn menu_key(k: int) -> Seq<char> {
    if k == 0 {
        "1"@
    } else if k == 1 {
        "2"@
    } else if k == 2 {
        "3"@
    } else if k == 3 {
        "4"@
    } else {
        "5"@
    }
}

/// The bundled backends, in menu order.
pub open spec fn backend_presets() -> Seq<Seq<char>> {
    seq!["LawinServer"@, "Neonite"@, "Nexa"@, "Voltronite"@]
}

/// The bundled gameserver dlls, in menu order.
pub open spec fn gameserver_presets() -> Seq<Seq<char>> {
    seq!["Erbium"@, "Reboot"@]
}

/// The bundled redirect dlls, in menu order.
pub open spec fn redirect_presets() -> Seq<Seq<char>> {
    seq!["Cobalt"@, "Starfall"@, "Tellerium"@]
}

/// The bundled client dlls, in menu order.
pub open spec fn client_dll_presets() -> Seq<Seq<char>> {
    seq!["Erbium"@, "Default"@]
}

proof fn lemma_menu_keys_distinct()
    ensures
        forall|a: int, b: int| 0 <= a <= 4 && 0 <= b <= 4 && a != b ==> menu_key(a) != menu_key(b),
        forall|a: int| 0 <= a <= 4 ==> menu_key(a) != "0"@,
{
    reveal_strlit("0");
    reveal_strlit("1");
    reveal_strlit("2");
    reveal_strlit("3");
    reveal_strlit("4");
    reveal_strlit("5");
    assert forall|a: int, b: int| 0 <= a <= 4 && 0 <= b <= 4 && a != b implies menu_key(a)
        != menu_key(b) by {
        assert(menu_key(a)[0] != menu_key(b)[0]);
    }
    assert forall|a: int| 0 <= a <= 4 implies menu_key(a) != "0"@ by {
        assert(menu_key(a)[0] != "0"@[0]);
    }
}

/// Decides `preset_menu_spec` for `backend_presets`.
pub fn backend_menu_choice(t: &str) -> (r: PresetChoice)
    ensures
        r@ == preset_menu_spec(t@, backend_presets()),
{
    proof {
        lemma_menu_keys_distinct();
        assert(t@ == "1"@ ==> t@ == menu_key(0));
        assert(t@ == "2"@ ==> t@ == menu_key(1));
        assert(t@ == "3"@ ==> t@ == menu_key(2));
        assert(t@ == "4"@ ==> t@ == menu_key(3));
    }
    if str_eq(t, "0") {
        PresetChoice::Back
    } else if str_eq(t, "1") {
        PresetChoice::Preset(String::from_str("LawinServer"))
    } else if str_eq(t, "2") {
        PresetChoice::Preset(String::from_str("Neonite"))
    } else if str_eq(t, "3") {
        PresetChoice::Preset(String::from_str("Nexa"))
    } else if str_eq(t, "4") {
        PresetChoice::Preset(String::from_str("Voltronite"))
    } else if str_eq(t, "5") {
        PresetChoice::Custom
    } else {
        PresetChoice::Invalid
    }
}

/// Decides `preset_menu_spec` for `gameserver_presets`.
pub fn gameserver_menu_choice(t: &str) -> (r: PresetChoice)
    ensures
        r@ == preset_menu_spec(t@, gameserver_presets()),
{
    proof {
        lemma_menu_keys_distinct();
        assert(t@ == "1"@ ==> t@ == menu_key(0));
        assert(t@ == "2"@ ==> t@ == menu_key(1));
    }
    if str_eq(t, "0") {
        PresetChoice::Back
    } else if str_eq(t, "1") {
        PresetChoice::Preset(String::from_str("Erbium"))
    } else if str_eq(t, "2") {
        PresetChoice::Preset(String::from_str("Reboot"))
    } else if str_eq(t, "3") {
        PresetChoice::Custom
    } else {
        PresetChoice::Invalid
    }
}

/// Decides `preset_menu_spec` for `client_dll_presets`.
pub fn client_dll_menu_choice(t: &str) -> (r: PresetChoice)
    ensures
        r@ == preset_menu_spec(t@, client_dll_presets()),
{
    proof {
        lemma_menu_keys_distinct();
        assert(t@ == "1"@ ==> t@ == menu_key(0));
        assert(t@ == "2"@ ==> t@ == menu_key(1));
    }
    if str_eq(t, "0") {
        PresetChoice::Back
    } else if str_eq(t, "1") {
        PresetChoice::Preset(String::from_str("Erbium"))
    } else if str_eq(t, "2") {
        PresetChoice::Preset(String::from_str("Default"))
    } else if str_eq(t, "3") {
        PresetChoice::Custom
    } else {
        PresetChoice::Invalid
    }
}

/// Decides `preset_menu_spec` for `redirect_presets`.
pub fn redirect_menu_choice(t: &str) -> (r: PresetChoice)
    ensures
        r@ == preset_menu_spec(t@, redirect_presets()),
{
    proof {
        lemma_menu_keys_distinct();
        assert(t@ == "1"@ ==> t@ == menu_key(0));
        assert(t@ == "2"@ ==> t@ == menu_key(1));
        assert(t@ == "3"@ ==> t@ == menu_key(2));
    }
    if str_eq(t, "0") {
        PresetChoice::Back
    } else if str_eq(t, "1") {
        PresetChoice::Preset(String::from_str("Cobalt"))
    } else if str_eq(t, "2") {
        PresetChoice::Preset(String::from_str("Starfall"))
    } else if str_eq(t, "3") {
        PresetChoice::Preset(String::from_str("Tellerium"))
    } else if str_eq(t, "4") {
        PresetChoice::Custom
    } else {
        PresetChoice::Invalid
    }
}


/// The schemes a backend URL may have.
pub open spec fn is_web_scheme_spec(scheme: Seq<char>) -> bool {
    scheme == "http"@ || scheme == "https"@
}

/// Decides `is_web_scheme_spec`.
pub fn is_web_scheme(scheme: &str) -> (r: bool)
    ensures
        r == is_web_scheme_spec(scheme@),
{
    str_eq(scheme, "http") || str_eq(scheme, "https")
}

/// A custom backend must parse as a URL whose scheme is `http` or `https`.
pub open spec fn backend_url_ok_spec(scheme: Option<Seq<char>>) -> bool {
    match scheme {
        Some(s) => is_web_scheme_spec(s),
        None => false,
    }
}

/// Decides `backend_url_ok_spec` for the scheme that `url_scheme` gave.
pub fn backend_url_ok(scheme: &Option<String>) -> (r: bool)
    ensures
        r == backend_url_ok_spec(opt_view(*scheme)),
{
    match scheme {
        Some(s) => is_web_scheme(s.as_str()),
        None => false,
    }
}

/// Whether the trimmed answer `t` is an acceptable custom backend URL.
pub fn is_backend_url(t: &str) -> (r: bool)
    ensures
        r == backend_url_ok_spec(url_scheme_of(t@)),
{
    let scheme = url_scheme(t);
    backend_url_ok(&scheme)
}

/// Why a custom dll path was refused.
#[derive(PartialEq, Eq, Structural)]
pub enum DllPathError {
    /// Nothing was entered.
    EmptyPath,
    /// No such file, or its extension is not `dll`.
    InvalidFile,
}

/// The extension is `dll`, in any ASCII case.
pub open spec fn is_dll_extension_spec(ext: Option<Seq<char>>) -> bool {
    match ext {
        Some(e) => eq_ignore_ascii_case(e, "dll"@),
        None => false,
    }
}

/// Decides `is_dll_extension_spec`.
pub fn is_dll_extension(ext: &Option<String>) -> (r: bool)
    ensures
        r == is_dll_extension_spec(opt_view(*ext)),
{
    match ext {
        Some(e) => str_eq_ignore_ascii_case(e.as_str(), "dll"),
        None => false,
    }
}

/// The verdict on the trimmed answer `t` for a custom dll, given whether
/// the file exists and its extension.
pub open spec fn dll_path_verdict_spec(t: Seq<char>, file_exists: bool, ext: Option<Seq<char>>) -> Result<
    (),
    DllPathError,
> {
    if t.len() == 0 {
        Err(DllPathError::EmptyPath)
    } else if !file_exists || !is_dll_extension_spec(ext) {
        Err(DllPathError::InvalidFile)
    } else {
        Ok(())
    }
}

/// Decides `dll_path_verdict_spec`.
pub fn dll_path_verdict(t: &str, file_exists: bool, ext: &Option<String>) -> (r: Result<
    (),
    DllPathError,
>)
    ensures
        r == dll_path_verdict_spec(t@, file_exists, opt_view(*ext)),
{
    if t.is_empty() {
        Err(DllPathError::EmptyPath)
    } else if !file_exists || !is_dll_extension(ext) {
        Err(DllPathError::InvalidFile)
    } else {
        Ok(())
    }
}

/// Checks the trimmed answer `t` for a custom dll, where `file_exists` says
/// whether a file of that name exists; its extension is read from the path.
pub fn check_dll_path(t: &str, file_exists: bool) -> (r: Result<(), DllPathError>)
    ensures
        exists|ext: Option<Seq<char>>| r == dll_path_verdict_spec(t@, file_exists, ext),
        r == Err::<(), DllPathError>(DllPathError::EmptyPath) <==> t@.len() == 0,
        t@.len() != 0 && !file_exists ==> r == Err::<(), DllPathError>(DllPathError::InvalidFile),
        plain_ext(t@) is Some ==> r == dll_path_verdict_spec(t@, file_exists, plain_ext(t@)),
        t@.len() != 0 && !t@.contains('.') ==> r == Err::<(), DllPathError>(
            DllPathError::InvalidFile,
        ),
        r is Ok ==> file_exists && exists|e: Seq<char>|
            eq_ignore_ascii_case(e, "dll"@) && has_substring(t@, seq!['.'] + e),
{
    let ext = file_extension(t);
    dll_path_verdict(t, file_exists, &ext)
}


proof fn lemma_digit_keys_distinct()
    ensures
        "0"@ != "1"@ && "0"@ != "2"@ && "0"@ != "3"@ && "0"@ != "4"@ && "0"@ != "5"@,
        "1"@ != "2"@ && "1"@ != "3"@ && "1"@ != "4"@ && "1"@ != "5"@,
        "2"@ != "3"@ && "2"@ != "4"@ && "2"@ != "5"@,
        "3"@ != "4"@ && "3"@ != "5"@,
        "4"@ != "5"@,
{
    reveal_strlit("0");
    reveal_strlit("1");
    reveal_strlit("2");
    reveal_strlit("3");
    reveal_strlit("4");
    reveal_strlit("5");
    assert("0"@[0] != "1"@[0] && "0"@[0] != "2"@[0] && "0"@[0] != "3"@[0] && "0"@[0] != "4"@[0]
        && "0"@[0] != "5"@[0]);
    assert("1"@[0] != "2"@[0] && "1"@[0] != "3"@[0] && "1"@[0] != "4"@[0] && "1"@[0] != "5"@[0]);
    assert("2"@[0] != "3"@[0] && "2"@[0] != "4"@[0] && "2"@[0] != "5"@[0]);
    assert("3"@[0] != "4"@[0] && "3"@[0] != "5"@[0]);
    assert("4"@[0] != "5"@[0]);
}

/// Each key of the main, configuration and settings menus picks the option
/// the menu prints next to it, and no other answer picks one.
pub proof fn law_menu_keys(t: Seq<char>)
    ensures
        main_menu_spec("1"@) == MainMenuChoice::Launch,
        main_menu_spec("2"@) == MainMenuChoice::Configurations,
        main_menu_spec("3"@) == MainMenuChoice::Settings,
        main_menu_spec("4"@) == MainMenuChoice::Exit,
        t != "1"@ && t != "2"@ && t != "3"@ && t != "4"@ ==> main_menu_spec(t)
            == MainMenuChoice::Invalid,
        config_menu_spec("1"@) == ConfigMenuChoice::Create,
        config_menu_spec("2"@) == ConfigMenuChoice::Delete,
        config_menu_spec("0"@) == ConfigMenuChoice::Back,
        t != "0"@ && t != "1"@ && t != "2"@ ==> config_menu_spec(t) == ConfigMenuChoice::Invalid,
        settings_menu_spec("1"@) == SettingsMenuChoice::Backend,
        settings_menu_spec("2"@) == SettingsMenuChoice::Gameserver,
        settings_menu_spec("3"@) == SettingsMenuChoice::Redirect,
        settings_menu_spec("4"@) == SettingsMenuChoice::ClientDll,
        settings_menu_spec("0"@) == SettingsMenuChoice::Back,
        t != "0"@ && t != "1"@ && t != "2"@ && t != "3"@ && t != "4"@ ==> settings_menu_spec(t)
            == SettingsMenuChoice::Invalid,
{
    lemma_digit_keys_distinct();
}

/// Each key of the backend, gameserver, redirect and client dll menus picks
/// the choice the menu prints next to it: the bundled names from `1`, then
/// a custom value, and `0` goes back; no other answer picks one.
pub proof fn law_preset_menu_keys(t: Seq<char>)
    ensures
        preset_menu_spec("1"@, backend_presets()) == PresetChoiceView::Preset("LawinServer"@),
        preset_menu_spec("2"@, backend_presets()) == PresetChoiceView::Preset("Neonite"@),
        preset_menu_spec("3"@, backend_presets()) == PresetChoiceView::Preset("Nexa"@),
        preset_menu_spec("4"@, backend_presets()) == PresetChoiceView::Preset("Voltronite"@),
        preset_menu_spec("5"@, backend_presets()) == PresetChoiceView::Custom,
        preset_menu_spec("0"@, backend_presets()) == PresetChoiceView::Back,
        t != "0"@ && t != "1"@ && t != "2"@ && t != "3"@ && t != "4"@ && t != "5"@
            ==> preset_menu_spec(t, backend_presets()) == PresetChoiceView::Invalid,
        preset_menu_spec("1"@, gameserver_presets()) == PresetChoiceView::Preset("Erbium"@),
        preset_menu_spec("2"@, gameserver_presets()) == PresetChoiceView::Preset("Reboot"@),
        preset_menu_spec("3"@, gameserver_presets()) == PresetChoiceView::Custom,
        preset_menu_spec("0"@, gameserver_presets()) == PresetChoiceView::Back,
        t != "0"@ && t != "1"@ && t != "2"@ && t != "3"@ ==> preset_menu_spec(t, gameserver_presets())
            == PresetChoiceView::Invalid,
        preset_menu_spec("1"@, redirect_presets()) == PresetChoiceView::Preset("Cobalt"@),
        preset_menu_spec("2"@, redirect_presets()) == PresetChoiceView::Preset("Starfall"@),
        preset_menu_spec("3"@, redirect_presets()) == PresetChoiceView::Preset("Tellerium"@),
        preset_menu_spec("4"@, redirect_presets()) == PresetChoiceView::Custom,
        preset_menu_spec("0"@, redirect_presets()) == PresetChoiceView::Back,
        t != "0"@ && t != "1"@ && t != "2"@ && t != "3"@ && t != "4"@ ==> preset_menu_spec(
            t,
            redirect_presets(),
        ) == PresetChoiceView::Invalid,
        preset_menu_spec("1"@, client_dll_presets()) == PresetChoiceView::Preset("Erbium"@),
        preset_menu_spec("2"@, client_dll_presets()) == PresetChoiceView::Preset("Default"@),
        preset_menu_spec("3"@, client_dll_presets()) == PresetChoiceView::Custom,
        preset_menu_spec("0"@, client_dll_presets()) == PresetChoiceView::Back,
        t != "0"@ && t != "1"@ && t != "2"@ && t != "3"@ ==> preset_menu_spec(t, client_dll_presets())
            == PresetChoiceView::Invalid,
{
    lemma_digit_keys_distinct();
    lemma_menu_keys_distinct();
    assert(menu_key(0) == "1"@ && menu_key(1) == "2"@ && menu_key(2) == "3"@ && menu_key(3)
        == "4"@ && menu_key(4) == "5"@);
    assert(backend_presets().len() == 4 && gameserver_presets().len() == 2);
    assert(redirect_presets().len() == 3 && client_dll_presets().len() == 2);
}

/// A dll's extension is `dll` in any mix of ASCII case: three characters
/// that fold to `d`, `l`, `l`.
pub proof fn law_dll_extension(e: Seq<char>)
    ensures
        is_dll_extension_spec(Some(e)) <==> (e.len() == 3 && ascii_fold(e[0]) == 'd' as int
            && ascii_fold(e[1]) == 'l' as int && ascii_fold(e[2]) == 'l' as int),
        !is_dll_extension_spec(None),
{
    reveal_strlit("dll");
    if e.len() == 3 && ascii_fold(e[0]) == 'd' as int && ascii_fold(e[1]) == 'l' as int
        && ascii_fold(e[2]) == 'l' as int {
        assert forall|i: int| 0 <= i < e.len() implies ascii_fold(#[trigger] e[i]) == ascii_fold(
            "dll"@[i],
        ) by {
            if i == 0 {
            } else if i == 1 {
            } else {
            }
        }
    }
    if is_dll_extension_spec(Some(e)) {
        assert(ascii_fold(e[0]) == ascii_fold("dll"@[0]));
        assert(ascii_fold(e[1]) == ascii_fold("dll"@[1]));
        assert(ascii_fold(e[2]) == ascii_fold("dll"@[2]));
    }
}

/// A custom backend is accepted exactly when its URL parses with the scheme
/// `http` or `https`.
pub proof fn law_backend_url_schemes(scheme: Option<Seq<char>>)
    ensures
        backend_url_ok_spec(scheme) <==> (scheme == Some("http"@) || scheme == Some("https"@)),
{
}

} // verus!
