//! Launch planning: where the backend listens, whether a bundled backend is
//! started, where the proxy forwards, which dlls are injected, the game's
//! binaries and command line, and what a line of the game's output means.

use crate::configuration::Configuration;
use crate::settings::{opt_view, Settings};
use crate::text::{has_substring, has_suffix, str_contains, str_ends_with, str_eq};
use vstd::prelude::*;

verus! {

/// The address the launcher waits on for the chosen backend: the bundled
/// backends have fixed addresses, anything else is taken as an address.
pub open spec fn backend_address_spec(backend: Seq<char>) -> Seq<char> {
    if backend == "LawinServer"@ {
        "localhost:3551"@
    } else if backend == "Neonite"@ {
        "127.0.0.1:5595"@
    } else if backend == "Nexa"@ {
        "127.0.0.1:5353"@
    } else if backend == "Voltronite"@ {
        "127.0.0.1:8080"@
    } else {
        backend
    }
}

/// The backends that come with the launcher and are started by it.
pub open spec fn is_bundled_backend_spec(backend: Seq<char>) -> bool {
    backend == "LawinServer"@ || backend == "Neonite"@ || backend == "Nexa"@ || backend
        == "Voltronite"@
}

/// Where the local proxy on port 3551 forwards to, if a proxy is started:
/// the bundled backends have fixed targets; a custom backend is forwarded to
/// unless it already ends with `127.0.0.1:3551`.
pub open spec fn proxy_target_spec(backend: Seq<char>) -> Option<Seq<char>> {
    if backend == "LawinServer"@ {
        Some("127.0.0.1:3552"@)
    } else if backend == "Neonite"@ {
        Some("127.0.0.1:5595"@)
    } else if backend == "Nexa"@ {
        Some("127.0.0.1:5353"@)
    } else if backend == "Voltronite"@ {
        Some("127.0.0.1:8080"@)
    } else if has_suffix(backend, "127.0.0.1:3551"@) {
        None
    } else {
        Some(backend)
    }
}

/// Decides `backend_address_spec`.
pub fn backend_address(backend: &str) -> (r: String)
    ensures
        r@ == backend_address_spec(backend@),
{
    if str_eq(backend, "LawinServer") {
        String::from_str("localhost:3551")
    } else if str_eq(backend, "Neonite") {
        String::from_str("127.0.0.1:5595")
    } else if str_eq(backend, "Nexa") {
        String::from_str("127.0.0.1:5353")
    } else if str_eq(backend, "Voltronite") {
        String::from_str("127.0.0.1:8080")
    } else {
        String::from_str(backend)
    }
}

/// Decides `is_bundled_backend_spec`.
pub fn is_bundled_backend(backend: &str) -> (r: bool)
    ensures
        r == is_bundled_backend_spec(backend@),
{
    str_eq(backend, "LawinServer") || str_eq(backend, "Neonite") || str_eq(backend, "Nexa")
        || str_eq(backend, "Voltronite")
}

/// Decides `proxy_target_spec`.
pub fn proxy_target(backend: &str) -> (r: Option<String>)
    ensures
        opt_view(r) == proxy_target_spec(backend@),
{
    if str_eq(backend, "LawinServer") {
        Some(String::from_str("127.0.0.1:3552"))
    } else if str_eq(backend, "Neonite") {
        Some(String::from_str("127.0.0.1:5595"))
    } else if str_eq(backend, "Nexa") {
        Some(String::from_str("127.0.0.1:5353"))
    } else if str_eq(backend, "Voltronite") {
        Some(String::from_str("127.0.0.1:8080"))
    } else if str_ends_with(backend, "127.0.0.1:3551") {
        None
    } else {
        Some(String::from_str(backend))
    }
}

/// Where a dll is found.
pub enum DllLocation {
    /// A dll that comes with the launcher, relative to the working folder.
    Bundled(String),
    /// A path given in the settings, taken as it is.
    Given(String),
    /// Nothing chosen: the empty path.
    Unset,
}

/// The mathematical content of a `DllLocation`.
pub enum DllLocationView {
    Bundled(Seq<char>),
    Given(Seq<char>),
    Unset,
}

impl View for DllLocation {
    type V = DllLocationView;

    open spec fn view(&self) -> DllLocationView {
        match self {
            DllLocation::Bundled(p) => DllLocationView::Bundled(p@),
            DllLocation::Given(p) => DllLocationView::Given(p@),
            DllLocation::Unset => DllLocationView::Unset,
        }
    }
}

/// A choice that is not one of the bundled names is taken as a path.
pub open spec fn given_or_unset(choice: Option<Seq<char>>) -> DllLocationView {
    match choice {
        Some(p) => DllLocationView::Given(p),
        None => DllLocationView::Unset,
    }
}

/// The redirect dll: Cobalt, Starfall and Tellerium are bundled.
pub open spec fn redirect_dll_spec(choice: Option<Seq<char>>) -> DllLocationView {
    let name = match choice {
        Some(p) => p,
        None => Seq::empty(),
    };
    if name == "Cobalt"@ {
        DllLocationView::Bundled("dlls\\redirects\\cobalt.dll"@)
    } else if name == "Starfall"@ {
        DllLocationView::Bundled("dlls\\redirects\\starfall.dll"@)
    } else if name == "Tellerium"@ {
        DllLocationView::Bundled("dlls\\redirects\\tellerium.dll"@)
    } else {
        given_or_unset(choice)
    }
}

/// The client dll: Erbium and Default are bundled.
pub open spec fn client_dll_spec(choice: Option<Seq<char>>) -> DllLocationView {
    let name = match choice {
        Some(p) => p,
        None => Seq::empty(),
    };
    if name == "Erbium"@ {
        DllLocationView::Bundled("dlls\\client\\erbiumclient.dll"@)
    } else if name == "Default"@ {
        DllLocationView::Bundled("dlls\\client\\console.dll"@)
    } else {
        given_or_unset(choice)
    }
}

/// The gameserver dll: Erbium and Reboot are bundled.
pub open spec fn gameserver_dll_spec(choice: Option<Seq<char>>) -> DllLocationView {
    let name = match choice {
        Some(p) => p,
        None => Seq::empty(),
    };
    if name == "Erbium"@ {
        DllLocationView::Bundled("dlls\\gameservers\\erbium.dll"@)
    } else if name == "Reboot"@ {
        DllLocationView::Bundled("dlls\\gameservers\\reboot.dll"@)
    } else {
        given_or_unset(choice)
    }
}

fn given_or_unset_exec(choice: &Option<String>) -> (r: DllLocation)
    ensures
        r@ == given_or_unset(opt_view(*choice)),
{
    match choice {
        Some(p) => DllLocation::Given(p.clone()),
        None => DllLocation::Unset,
    }
}

fn choice_name(choice: &Option<String>) -> (r: &str)
    ensures
        r@ == (match opt_view(*choice) {
            Some(p) => p,
            None => Seq::empty(),
        }),
{
    match choice {
        Some(p) => p.as_str(),
        None => {
            proof {
                reveal_strlit("");
                assert(""@ =~= Seq::<char>::empty());
            }
            ""
        },
    }
}

/// Decides `redirect_dll_spec`.
pub fn redirect_dll(choice: &Option<String>) -> (r: DllLocation)
    ensures
        r@ == redirect_dll_spec(opt_view(*choice)),
{
    let name = choice_name(choice);
    if str_eq(name, "Cobalt") {
        DllLocation::Bundled(String::from_str("dlls\\redirects\\cobalt.dll"))
    } else if str_eq(name, "Starfall") {
        DllLocation::Bundled(String::from_str("dlls\\redirects\\starfall.dll"))
    } else if str_eq(name, "Tellerium") {
        DllLocation::Bundled(String::from_str("dlls\\redirects\\tellerium.dll"))
    } else {
        given_or_unset_exec(choice)
    }
}

/// Decides `client_dll_spec`.
pub fn client_dll(choice: &Option<String>) -> (r: DllLocation)
    ensures
        r@ == client_dll_spec(opt_view(*choice)),
{
    let name = choice_name(choice);
    if str_eq(name, "Erbium") {
        DllLocation::Bundled(String::from_str("dlls\\client\\erbiumclient.dll"))
    } else if str_eq(name, "Default") {
        DllLocation::Bundled(String::from_str("dlls\\client\\console.dll"))
    } else {
        given_or_unset_exec(choice)
    }
}

/// Decides `gameserver_dll_spec`.
pub fn gameserver_dll(choice: &Option<String>) -> (r: DllLocation)
    ensures
        r@ == gameserver_dll_spec(opt_view(*choice)),
{
    let name = choice_name(choice);
    if str_eq(name, "Erbium") {
        DllLocation::Bundled(String::from_str("dlls\\gameservers\\erbium.dll"))
    } else if str_eq(name, "Reboot") {
        DllLocation::Bundled(String::from_str("dlls\\gameservers\\reboot.dll"))
    } else {
        given_or_unset_exec(choice)
    }
}


/// The folder of the game's binaries inside a build.
pub open spec fn binaries_suffix() -> Seq<char> {
    "\\FortniteGame\\Binaries\\Win64\\"@
}

/// The game client's executable inside the build at `path`.
pub open spec fn client_exe_spec(path: Seq<char>) -> Seq<char> {
    path + binaries_suffix() + "FortniteClient-Win64-Shipping.exe"@
}

/// The game launcher's executable inside the build at `path`.
pub open spec fn launcher_exe_spec(path: Seq<char>) -> Seq<char> {
    path + binaries_suffix() + "FortniteLauncher.exe"@
}

/// The anti-cheat client's executable inside the build at `path`.
pub open spec fn eac_exe_spec(path: Seq<char>) -> Seq<char> {
    path + binaries_suffix() + "FortniteClient-Win64-Shipping_EAC.exe"@
}

fn binary_path(path: &str, exe: &str) -> (r: String)
    ensures
        r@ == path@ + binaries_suffix() + exe@,
{
    let mut r = String::from_str(path);
    r.append("\\FortniteGame\\Binaries\\Win64\\");
    r.append(exe);
    r
}

/// The game client's executable.
pub fn client_exe(path: &str) -> (r: String)
    ensures
        r@ == client_exe_spec(path@),
{
    binary_path(path, "FortniteClient-Win64-Shipping.exe")
}

/// The game launcher's executable.
pub fn launcher_exe(path: &str) -> (r: String)
    ensures
        r@ == launcher_exe_spec(path@),
{
    binary_path(path, "FortniteLauncher.exe")
}

/// The anti-cheat client's executable.
pub fn eac_exe(path: &str) -> (r: String)
    ensures
        r@ == eac_exe_spec(path@),
{
    binary_path(path, "FortniteClient-Win64-Shipping_EAC.exe")
}

/// The game's command line before the account.
pub open spec fn args_head() -> Seq<char> {
    "-epicapp=Fortnite -epicenv=Prod -epicportal -AUTH_TYPE=epic -AUTH_LOGIN="@
}

/// The game's command line after the account.
pub open spec fn args_tail() -> Seq<char> {
    " -epiclocale=en-us -fltoken=7a848a93a74ba68876c36C1c -fromfl=none -noeac -nobe -skippatchcheck"@
}

/// What a gameserver adds: no rendering, no sound, no splash screen.
pub open spec fn args_gameserver() -> Seq<char> {
    " -nullrhi -nosound -nosplash"@
}

/// The game's command line for the account `email`/`password`; a
/// gameserver also runs headless.
pub open spec fn args_spec(email: Seq<char>, password: Seq<char>, is_gs: bool) -> Seq<char> {
    let common = args_head() + email + " -AUTH_PASSWORD="@ + password + args_tail();
    if is_gs {
        common + args_gameserver()
    } else {
        common
    }
}

/// Builds `args_spec`.
pub fn args(email: &str, password: &str, is_gs: bool) -> (r: String)
    ensures
        r@ == args_spec(email@, password@, is_gs),
{
    let mut r = String::from_str(
        "-epicapp=Fortnite -epicenv=Prod -epicportal -AUTH_TYPE=epic -AUTH_LOGIN=",
    );
    r.append(email);
    r.append(" -AUTH_PASSWORD=");
    r.append(password);
    r.append(
        " -epiclocale=en-us -fltoken=7a848a93a74ba68876c36C1c -fromfl=none -noeac -nobe -skippatchcheck",
    );
    if is_gs {
        r.append(" -nullrhi -nosound -nosplash");
    }
    r
}

/// How to launch a configuration, as the launch menu offers it.
#[derive(PartialEq, Eq, Structural)]
pub enum LaunchMenuChoice {
    ClientAndGameserver,
    ClientOnly,
    GameserverOnly,
    Back,
    Invalid,
}

/// The launch menu: `1` both, `2` the client, `3` the gameserver, `0` back.
pub open spec fn launch_menu_spec(t: Seq<char>) -> LaunchMenuChoice {
    if t == "1"@ {
        LaunchMenuChoice::ClientAndGameserver
    } else if t == "2"@ {
        LaunchMenuChoice::ClientOnly
    } else if t == "3"@ {
        LaunchMenuChoice::GameserverOnly
    } else if t == "0"@ {
        LaunchMenuChoice::Back
    } else {
        LaunchMenuChoice::Invalid
    }
}

/// Decides `launch_menu_spec` on the trimmed answer.
pub fn launch_menu_choice(t: &str) -> (r: LaunchMenuChoice)
    ensures
        r == launch_menu_spec(t@),
{
    if str_eq(t, "1") {
        LaunchMenuChoice::ClientAndGameserver
    } else if str_eq(t, "2") {
        LaunchMenuChoice::ClientOnly
    } else if str_eq(t, "3") {
        LaunchMenuChoice::GameserverOnly
    } else if str_eq(t, "0") {
        LaunchMenuChoice::Back
    } else {
        LaunchMenuChoice::Invalid
    }
}

/// The games launched, in order, each marked `true` for a gameserver: both
/// starts the client and then the gameserver; the client alone; anything
/// else the gameserver alone.
pub open spec fn sessions_spec(client: bool, gs: bool) -> Seq<bool> {
    if client && gs {
        seq![false, true]
    } else if client {
        seq![false]
    } else {
        seq![true]
    }
}

/// Everything a launch does, decided before anything is started.
pub struct LaunchPlan {
    /// The chosen backend (empty when none is chosen).
    pub backend: String,
    /// The address waited on until the backend accepts connections.
    pub backend_address: String,
    /// Whether the bundled backend of that name is started.
    pub start_bundled_backend: bool,
    /// Where the local proxy forwards, if one is started.
    pub proxy_target: Option<String>,
    pub redirect_dll: DllLocation,
    pub client_dll: DllLocation,
    pub gameserver_dll: DllLocation,
    pub client_exe: String,
    pub launcher_exe: String,
    pub eac_exe: String,
    /// The games to start, in order; `true` marks a gameserver.
    pub sessions: Vec<bool>,
}

/// `plan` is what `plan_launch` decides for these arguments.
pub open spec fn is_plan_for(
    plan: LaunchPlan,
    client: bool,
    gs: bool,
    settings: Settings,
    config: Configuration,
) -> bool {
    let backend = match opt_view(settings.backend) {
        Some(b) => b,
        None => Seq::empty(),
    };
    &&& plan.backend@ == backend
    &&& plan.backend_address@ == backend_address_spec(backend)
    &&& plan.start_bundled_backend == is_bundled_backend_spec(backend)
    &&& opt_view(plan.proxy_target) == proxy_target_spec(backend)
    &&& plan.redirect_dll@ == redirect_dll_spec(opt_view(settings.redirect))
    &&& plan.client_dll@ == client_dll_spec(opt_view(settings.clientdll))
    &&& plan.gameserver_dll@ == gameserver_dll_spec(opt_view(settings.gameserver))
    &&& plan.client_exe@ == client_exe_spec(config.path@)
    &&& plan.launcher_exe@ == launcher_exe_spec(config.path@)
    &&& plan.eac_exe@ == eac_exe_spec(config.path@)
    &&& plan.sessions@ == sessions_spec(client, gs)
}

/// Decides a launch of `config` with `settings`: the client, the gameserver
/// or both.
pub fn plan_launch(client: bool, gs: bool, settings: &Settings, config: &Configuration) -> (plan:
    LaunchPlan)
    ensures
        is_plan_for(plan, client, gs, *settings, *config),
{
    let backend = choice_name(&settings.backend);
    let mut sessions: Vec<bool> = Vec::new();
    if client && gs {
        sessions.push(false);
        sessions.push(true);
    } else if client {
        sessions.push(false);
    } else {
        sessions.push(true);
    }
    proof {
        assert(sessions@ =~= sessions_spec(client, gs));
    }
    LaunchPlan {
        backend: String::from_str(backend),
        backend_address: backend_address(backend),
        start_bundled_backend: is_bundled_backend(backend),
        proxy_target: proxy_target(backend),
        redirect_dll: redirect_dll(&settings.redirect),
        client_dll: client_dll(&settings.clientdll),
        gameserver_dll: gameserver_dll(&settings.gameserver),
        client_exe: client_exe(config.path.as_str()),
        launcher_exe: launcher_exe(config.path.as_str()),
        eac_exe: eac_exe(config.path.as_str()),
        sessions,
    }
}

/// A line that shows a gameserver could not log in to the backend.
pub open spec fn is_connect_error_line(line: Seq<char>) -> bool {
    ||| has_substring(line, "port 3551 failed: Connection refused"@)
    ||| has_substring(line, "Unable to login to Fortnite servers"@)
    ||| has_substring(line, "HTTP 400 response from "@)
    ||| has_substring(line, "Network failure when attempting to check platform restrictions"@)
    ||| has_substring(line, "UOnlineAccountCommon::ForceLogout"@)
}

/// A line that shows the game has logged in.
pub open spec fn is_logged_in_line(line: Seq<char>) -> bool {
    ||| has_substring(line, "[UOnlineAccountCommon::ContinueLoggingIn]"@)
    ||| has_substring(line, "(Completed)"@)
}

/// What a line of the game's output calls for; after either of the first
/// two, the output is no longer watched.
#[derive(PartialEq, Eq, Structural)]
pub enum OutputEvent {
    /// A gameserver failed to log in: kill the game.
    AuthFailure,
    /// The game logged in: inject its dll.
    LoggedIn,
    /// Keep watching.
    Other,
}

/// A login failure counts only for a gameserver, and is checked before a
/// login.
pub open spec fn output_event_spec(line: Seq<char>, is_gs: bool) -> OutputEvent {
    if is_gs && is_connect_error_line(line) {
        OutputEvent::AuthFailure
    } else if is_logged_in_line(line) {
        OutputEvent::LoggedIn
    } else {
        OutputEvent::Other
    }
}

/// Decides `is_connect_error_line`.
pub fn is_connect_error(line: &str) -> (r: bool)
    ensures
        r == is_connect_error_line(line@),
{
    str_contains(line, "port 3551 failed: Connection refused") || str_contains(
        line,
        "Unable to login to Fortnite servers",
    ) || str_contains(line, "HTTP 400 response from ") || str_contains(
        line,
        "Network failure when attempting to check platform restrictions",
    ) || str_contains(line, "UOnlineAccountCommon::ForceLogout")
}

/// Decides `is_logged_in_line`.
pub fn is_logged_in(line: &str) -> (r: bool)
    ensures
        r == is_logged_in_line(line@),
{
    str_contains(line, "[UOnlineAccountCommon::ContinueLoggingIn]") || str_contains(
        line,
        "(Completed)",
    )
}

/// Decides `output_event_spec`.
pub fn classify_output(line: &str, is_gs: bool) -> (r: OutputEvent)
    ensures
        r == output_event_spec(line@, is_gs),
{
    if is_gs && is_connect_error(line) {
        OutputEvent::AuthFailure
    } else if is_logged_in(line) {
        OutputEvent::LoggedIn
    } else {
        OutputEvent::Other
    }
}


proof fn lemma_not_suffix_same_len(t: Seq<char>, s: Seq<char>, k: int)
    requires
        t.len() == s.len(),
        0 <= k < t.len(),
        t[k] != s[k],
    ensures
        !has_suffix(t, s),
{
    assert(t.subrange(0, t.len() as int)[k] == t[k]);
}

/// The local proxy listens on `127.0.0.1:3551`; it is never told to forward
/// to that same address.
pub proof fn law_proxy_never_loops(backend: Seq<char>)
    ensures
        proxy_target_spec(backend) matches Some(t) ==> !has_suffix(t, "127.0.0.1:3551"@),
{
    reveal_strlit("127.0.0.1:3551");
    reveal_strlit("127.0.0.1:3552");
    reveal_strlit("127.0.0.1:5595");
    reveal_strlit("127.0.0.1:5353");
    reveal_strlit("127.0.0.1:8080");
    lemma_not_suffix_same_len("127.0.0.1:3552"@, "127.0.0.1:3551"@, 13);
    lemma_not_suffix_same_len("127.0.0.1:5595"@, "127.0.0.1:3551"@, 10);
    lemma_not_suffix_same_len("127.0.0.1:5353"@, "127.0.0.1:3551"@, 10);
    lemma_not_suffix_same_len("127.0.0.1:8080"@, "127.0.0.1:3551"@, 10);
}

/// Every bundled backend is proxied, and a backend that is not bundled is
/// both waited on and proxied at the address it names.
pub proof fn law_backend_routing(backend: Seq<char>)
    ensures
        is_bundled_backend_spec(backend) ==> proxy_target_spec(backend) is Some,
        !is_bundled_backend_spec(backend) ==> backend_address_spec(backend) == backend,
        !is_bundled_backend_spec(backend) && !has_suffix(backend, "127.0.0.1:3551"@)
            ==> proxy_target_spec(backend) == Some(backend),
{
}

/// A gameserver's command line is the client's followed by the headless
/// flags.
pub proof fn law_gameserver_args_extend_client(email: Seq<char>, password: Seq<char>)
    ensures
        args_spec(email, password, true) == args_spec(email, password, false) + args_gameserver(),
{
}

/// Only a gameserver is killed on a login failure; a client's output never
/// calls for it.
pub proof fn law_client_never_killed(line: Seq<char>)
    ensures
        output_event_spec(line, false) != OutputEvent::AuthFailure,
{
}

/// Each requested game is started exactly once: a client session exactly
/// when the client is asked for, a gameserver session exactly when the
/// gameserver is asked for or the client is not.
pub proof fn law_sessions_match_request(client: bool, gs: bool)
    ensures
        sessions_spec(client, gs).contains(false) <==> client,
        sessions_spec(client, gs).contains(true) <==> (gs || !client),
        sessions_spec(client, gs).len() == (if client && gs { 2int } else { 1int }),
{
    let s = sessions_spec(client, gs);
    if client && gs {
        assert(s[0] == false && s[1] == true);
    } else if client {
        assert(s[0] == false);
    } else {
        assert(s[0] == true);
    }
}


/// A redirect, client or gameserver choice that is none of the bundled
/// names is used as the path given; nothing chosen is the empty path; each
/// bundled name stands for its dll under `dlls`.
pub proof fn law_dll_choices(p: Seq<char>)
    ensures
        redirect_dll_spec(None) == DllLocationView::Unset,
        client_dll_spec(None) == DllLocationView::Unset,
        gameserver_dll_spec(None) == DllLocationView::Unset,
        p != "Cobalt"@ && p != "Starfall"@ && p != "Tellerium"@ ==> redirect_dll_spec(Some(p))
            == DllLocationView::Given(p),
        p != "Erbium"@ && p != "Default"@ ==> client_dll_spec(Some(p)) == DllLocationView::Given(p),
        p != "Erbium"@ && p != "Reboot"@ ==> gameserver_dll_spec(Some(p)) == DllLocationView::Given(
            p,
        ),
        redirect_dll_spec(Some("Cobalt"@)) == DllLocationView::Bundled(
            "dlls\\redirects\\cobalt.dll"@,
        ),
        redirect_dll_spec(Some("Starfall"@)) == DllLocationView::Bundled(
            "dlls\\redirects\\starfall.dll"@,
        ),
        redirect_dll_spec(Some("Tellerium"@)) == DllLocationView::Bundled(
            "dlls\\redirects\\tellerium.dll"@,
        ),
        client_dll_spec(Some("Erbium"@)) == DllLocationView::Bundled(
            "dlls\\client\\erbiumclient.dll"@,
        ),
        client_dll_spec(Some("Default"@)) == DllLocationView::Bundled("dlls\\client\\console.dll"@),
        gameserver_dll_spec(Some("Erbium"@)) == DllLocationView::Bundled(
            "dlls\\gameservers\\erbium.dll"@,
        ),
        gameserver_dll_spec(Some("Reboot"@)) == DllLocationView::Bundled(
            "dlls\\gameservers\\reboot.dll"@,
        ),
{
    reveal_strlit("Cobalt");
    reveal_strlit("Starfall");
    reveal_strlit("Tellerium");
    reveal_strlit("Erbium");
    reveal_strlit("Default");
    reveal_strlit("Reboot");
    assert("Starfall"@[0] != "Cobalt"@[0]);
    assert("Tellerium"@[0] != "Cobalt"@[0] && "Tellerium"@[0] != "Starfall"@[0]);
    assert("Default"@[0] != "Erbium"@[0]);
    assert("Reboot"@[0] != "Erbium"@[0]);
    let e = Seq::<char>::empty();
    assert(e.len() != "Cobalt"@.len() && e.len() != "Starfall"@.len() && e.len()
        != "Tellerium"@.len());
    assert(e.len() != "Erbium"@.len() && e.len() != "Default"@.len() && e.len()
        != "Reboot"@.len());
}

/// For a gameserver, a line holding any of the login failures is a login
/// failure; for any game, a line holding a login marker and no failure that
/// counts for it is a login; a line holding none of them is nothing.
pub proof fn law_output_lines(line: Seq<char>, is_gs: bool)
    ensures
        has_substring(line, "port 3551 failed: Connection refused"@) ==> output_event_spec(
            line,
            true,
        ) == OutputEvent::AuthFailure,
        has_substring(line, "Unable to login to Fortnite servers"@) ==> output_event_spec(
            line,
            true,
        ) == OutputEvent::AuthFailure,
        has_substring(line, "HTTP 400 response from "@) ==> output_event_spec(line, true)
            == OutputEvent::AuthFailure,
        has_substring(line, "Network failure when attempting to check platform restrictions"@)
            ==> output_event_spec(line, true) == OutputEvent::AuthFailure,
        has_substring(line, "UOnlineAccountCommon::ForceLogout"@) ==> output_event_spec(line, true)
            == OutputEvent::AuthFailure,
        has_substring(line, "[UOnlineAccountCommon::ContinueLoggingIn]"@) ==> output_event_spec(
            line,
            false,
        ) == OutputEvent::LoggedIn,
        has_substring(line, "(Completed)"@) ==> output_event_spec(line, false)
            == OutputEvent::LoggedIn,
        output_event_spec(line, is_gs) == OutputEvent::AuthFailure ==> is_gs,
        output_event_spec(line, is_gs) == OutputEvent::LoggedIn ==> (has_substring(
            line,
            "[UOnlineAccountCommon::ContinueLoggingIn]"@,
        ) || has_substring(line, "(Completed)"@)),
{
}

/// Each key of the launch menu picks the option the menu prints next to it
/// (`[1]` both, `[2]` the client only, `[3]` the gameserver only, `[0]`
/// back), no other answer picks one, and the client-only option starts no
/// gameserver.
pub proof fn law_launch_menu_keys(t: Seq<char>)
    ensures
        launch_menu_spec("1"@) == LaunchMenuChoice::ClientAndGameserver,
        launch_menu_spec("2"@) == LaunchMenuChoice::ClientOnly,
        launch_menu_spec("3"@) == LaunchMenuChoice::GameserverOnly,
        launch_menu_spec("0"@) == LaunchMenuChoice::Back,
        t != "0"@ && t != "1"@ && t != "2"@ && t != "3"@ ==> launch_menu_spec(t)
            == LaunchMenuChoice::Invalid,
        !sessions_spec(true, false).contains(true),
        sessions_spec(false, true) == seq![true],
        sessions_spec(true, true) == seq![false, true],
{
    reveal_strlit("0");
    reveal_strlit("1");
    reveal_strlit("2");
    reveal_strlit("3");
    assert("2"@[0] != "1"@[0]);
    assert("3"@[0] != "1"@[0] && "3"@[0] != "2"@[0]);
    assert("0"@[0] != "1"@[0] && "0"@[0] != "2"@[0] && "0"@[0] != "3"@[0]);
    assert(sessions_spec(true, false)[0] == false);
}

/// The bundled backends and where each is waited on and proxied to; any
/// other backend is waited on at the address it names.
pub proof fn law_backend_table(b: Seq<char>)
    ensures
        backend_address_spec("LawinServer"@) == "localhost:3551"@,
        proxy_target_spec("LawinServer"@) == Some("127.0.0.1:3552"@),
        backend_address_spec("Neonite"@) == "127.0.0.1:5595"@,
        proxy_target_spec("Neonite"@) == Some("127.0.0.1:5595"@),
        backend_address_spec("Nexa"@) == "127.0.0.1:5353"@,
        proxy_target_spec("Nexa"@) == Some("127.0.0.1:5353"@),
        backend_address_spec("Voltronite"@) == "127.0.0.1:8080"@,
        proxy_target_spec("Voltronite"@) == Some("127.0.0.1:8080"@),
        is_bundled_backend_spec(b) <==> (b == "LawinServer"@ || b == "Neonite"@ || b == "Nexa"@
            || b == "Voltronite"@),
        b != "LawinServer"@ && b != "Neonite"@ && b != "Nexa"@ && b != "Voltronite"@
            ==> backend_address_spec(b) == b,
{
    reveal_strlit("LawinServer");
    reveal_strlit("Neonite");
    reveal_strlit("Nexa");
    reveal_strlit("Voltronite");
    assert("Neonite"@[0] != "LawinServer"@[0]);
    assert("Nexa"@[0] != "LawinServer"@[0] && "Nexa"@[2] != "Neonite"@[2]);
    assert("Voltronite"@[0] != "LawinServer"@[0] && "Voltronite"@[0] != "Neonite"@[0]
        && "Voltronite"@[0] != "Nexa"@[0]);
}

/// The game's command line logs in with exactly the given account, and each
/// executable is the given build's path followed by the binaries folder.
pub proof fn law_args_and_paths(email: Seq<char>, password: Seq<char>, is_gs: bool, path: Seq<char>)
    ensures
        has_substring(
            args_spec(email, password, is_gs),
            "-AUTH_LOGIN="@ + email + " -AUTH_PASSWORD="@ + password + " "@,
        ),
        client_exe_spec(path).subrange(0, path.len() as int) == path,
        launcher_exe_spec(path).subrange(0, path.len() as int) == path,
        eac_exe_spec(path).subrange(0, path.len() as int) == path,
{
    reveal_strlit("-epicapp=Fortnite -epicenv=Prod -epicportal -AUTH_TYPE=epic -AUTH_LOGIN=");
    reveal_strlit("-AUTH_LOGIN=");
    reveal_strlit(" ");
    reveal_strlit(
        " -epiclocale=en-us -fltoken=7a848a93a74ba68876c36C1c -fromfl=none -noeac -nobe -skippatchcheck",
    );
    let head = "-epicapp=Fortnite -epicenv=Prod -epicportal -AUTH_TYPE=epic -AUTH_LOGIN="@;
    let tail = " -epiclocale=en-us -fltoken=7a848a93a74ba68876c36C1c -fromfl=none -noeac -nobe -skippatchcheck"@;
    let pre = head.subrange(0, head.len() - 12);
    assert(head =~= pre + "-AUTH_LOGIN="@);
    let needle = "-AUTH_LOGIN="@ + email + " -AUTH_PASSWORD="@ + password + " "@;
    let rest = tail.subrange(1, tail.len() as int);
    assert(tail =~= " "@ + rest);
    let whole = args_spec(email, password, is_gs);
    let after = if is_gs { rest + args_gameserver() } else { rest };
    assert(whole =~= pre + needle + after);
    crate::text::law_substring_in_context(pre, needle, after);
    assert(client_exe_spec(path).subrange(0, path.len() as int) =~= path);
    assert(launcher_exe_spec(path).subrange(0, path.len() as int) =~= path);
    assert(eac_exe_spec(path).subrange(0, path.len() as int) =~= path);
}

} // verus!
