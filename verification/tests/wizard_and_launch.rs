use nex::configuration::Configuration;
use nex::creator::{
    confirmation, is_valid_email, ConfigWizard, CreatorError, CreatorOutcome, CreatorStep,
};
use nex::launch::{
    args, backend_address, classify_output, client_dll, client_exe, eac_exe, gameserver_dll,
    is_bundled_backend, launch_menu_choice, launcher_exe, plan_launch, proxy_target, redirect_dll,
    DllLocation, LaunchMenuChoice, OutputEvent,
};
use nex::menus::{
    backend_menu_choice, backend_url_ok, client_dll_menu_choice, check_dll_path, config_menu_choice, dll_path_verdict,
    gameserver_menu_choice, is_backend_url, is_dll_extension, is_web_scheme, main_menu_choice,
    redirect_menu_choice, settings_menu_choice, ConfigMenuChoice, DllPathError, MainMenuChoice,
    PresetChoice, SettingsMenuChoice,
};
use nex::settings::Settings;

fn named(name: &str) -> Configuration {
    let mut c = Configuration::new();
    c.name = name.to_string();
    c
}

fn some(s: &str) -> Option<String> {
    Some(s.to_string())
}

#[test]
fn email_shapes() {
    assert!(is_valid_email("a@b.c"));
    assert!(is_valid_email("john.doe@mail.example.com"));
    assert!(!is_valid_email("a@b"));
    assert!(!is_valid_email("a@.c"));
    assert!(!is_valid_email("a@b."));
    assert!(!is_valid_email("@b.c"));
    assert!(!is_valid_email("a b@c.d"));
    assert!(!is_valid_email("a@@b.c"));
    assert!(!is_valid_email(""));
}

#[test]
fn confirmation_answers() {
    assert_eq!(confirmation(""), Some(true));
    assert_eq!(confirmation("y"), Some(true));
    assert_eq!(confirmation("Y"), Some(true));
    assert_eq!(confirmation("n"), Some(false));
    assert_eq!(confirmation("N"), Some(false));
    assert_eq!(confirmation("yes"), None);
}

#[test]
fn wizard_full_run() {
    let existing = vec![named("Old")];
    let mut w = ConfigWizard::new();
    assert!(w.submit("   ", &existing, false) == CreatorOutcome::Rejected(CreatorError::EmptyName));
    assert!(w.submit(" old ", &existing, false) == CreatorOutcome::Rejected(CreatorError::NameInUse));
    assert!(w.submit(" New ", &existing, false) == CreatorOutcome::Continue);
    assert!(w.step == CreatorStep::Email);
    assert_eq!(w.config.name, "New");
    assert!(w.submit("", &existing, false) == CreatorOutcome::Rejected(CreatorError::EmptyEmail));
    assert!(w.submit("bad", &existing, false) == CreatorOutcome::Rejected(CreatorError::InvalidEmail));
    assert!(w.submit("me@x.io", &existing, false) == CreatorOutcome::Continue);
    assert!(w.submit("  ", &existing, false) == CreatorOutcome::Continue);
    assert!(w.step == CreatorStep::Password);
    assert!(w.submit("pw", &existing, false) == CreatorOutcome::Continue);
    assert!(w.submit("nope", &existing, false) == CreatorOutcome::Rejected(CreatorError::InvalidEmail));
    assert!(w.submit("", &existing, false) == CreatorOutcome::Continue);
    assert!(w.step == CreatorStep::GsPassword);
    assert_eq!(w.config.gs_email, "");
    assert!(w.submit(" gspw ", &existing, false) == CreatorOutcome::Continue);
    assert_eq!(w.config.gs_password, "gspw");
    assert!(w.submit(" ", &existing, true) == CreatorOutcome::Rejected(CreatorError::EmptyPath));
    assert!(w.submit("C:\\build", &existing, false) == CreatorOutcome::Rejected(CreatorError::InvalidFolder));
    assert!(w.submit("C:\\build", &existing, true) == CreatorOutcome::Continue);
    assert!(w.step == CreatorStep::Confirm);
    assert!(w.submit("maybe", &existing, true) == CreatorOutcome::Rejected(CreatorError::InvalidAnswer));
    assert!(w.submit(" Y ", &existing, true) == CreatorOutcome::Save);
    assert_eq!(w.config.email, "me@x.io");
    assert_eq!(w.config.password, "pw");
    assert_eq!(w.config.path, "C:\\build");
}

#[test]
fn wizard_restart() {
    let existing: Vec<Configuration> = Vec::new();
    let mut w = ConfigWizard::new();
    for line in ["n1", "a@b.c", "p", "g@h.i", "", "D:\\b"] {
        assert!(w.submit(line, &existing, true) == CreatorOutcome::Continue);
    }
    assert_eq!(w.config.gs_email, "g@h.i");
    assert!(w.submit("n", &existing, true) == CreatorOutcome::Restart);
    assert!(w.step == CreatorStep::Name);
    assert!(w.config.name.is_empty() && w.config.path.is_empty());
}

#[test]
fn backend_routing() {
    assert_eq!(backend_address("LawinServer"), "localhost:3551");
    assert_eq!(backend_address("Neonite"), "127.0.0.1:5595");
    assert_eq!(backend_address("Nexa"), "127.0.0.1:5353");
    assert_eq!(backend_address("Voltronite"), "127.0.0.1:8080");
    assert_eq!(backend_address("http://10.0.0.2:80"), "http://10.0.0.2:80");
    assert!(is_bundled_backend("Nexa"));
    assert!(!is_bundled_backend("nexa"));
    assert_eq!(proxy_target("LawinServer"), some("127.0.0.1:3552"));
    assert_eq!(proxy_target("Voltronite"), some("127.0.0.1:8080"));
    assert_eq!(proxy_target("http://127.0.0.1:3551"), None);
    assert_eq!(proxy_target("http://1.2.3.4:9"), some("http://1.2.3.4:9"));
    assert_eq!(proxy_target(""), some(""));
}

fn bundled(d: &DllLocation) -> Option<&str> {
    match d {
        DllLocation::Bundled(p) => Some(p.as_str()),
        _ => None,
    }
}

#[test]
fn dll_locations() {
    assert_eq!(bundled(&redirect_dll(&some("Cobalt"))), Some("dlls\\redirects\\cobalt.dll"));
    assert_eq!(bundled(&redirect_dll(&some("Starfall"))), Some("dlls\\redirects\\starfall.dll"));
    assert_eq!(bundled(&redirect_dll(&some("Tellerium"))), Some("dlls\\redirects\\tellerium.dll"));
    assert_eq!(bundled(&client_dll(&some("Erbium"))), Some("dlls\\client\\erbiumclient.dll"));
    assert_eq!(bundled(&client_dll(&some("Default"))), Some("dlls\\client\\console.dll"));
    assert_eq!(bundled(&gameserver_dll(&some("Erbium"))), Some("dlls\\gameservers\\erbium.dll"));
    assert_eq!(bundled(&gameserver_dll(&some("Reboot"))), Some("dlls\\gameservers\\reboot.dll"));
    assert!(matches!(gameserver_dll(&some("C:\\gs.dll")), DllLocation::Given(p) if p == "C:\\gs.dll"));
    assert!(matches!(client_dll(&None), DllLocation::Unset));
}

#[test]
fn game_binaries() {
    assert_eq!(client_exe("C:\\b"), "C:\\b\\FortniteGame\\Binaries\\Win64\\FortniteClient-Win64-Shipping.exe");
    assert_eq!(launcher_exe("C:\\b"), "C:\\b\\FortniteGame\\Binaries\\Win64\\FortniteLauncher.exe");
    assert_eq!(eac_exe("C:\\b"), "C:\\b\\FortniteGame\\Binaries\\Win64\\FortniteClient-Win64-Shipping_EAC.exe");
}

#[test]
fn command_lines() {
    let client = args("a@b.c", "pw", false);
    assert_eq!(client, "-epicapp=Fortnite -epicenv=Prod -epicportal -AUTH_TYPE=epic -AUTH_LOGIN=a@b.c -AUTH_PASSWORD=pw -epiclocale=en-us -fltoken=7a848a93a74ba68876c36C1c -fromfl=none -noeac -nobe -skippatchcheck");
    let gs = args("a@b.c", "pw", true);
    assert_eq!(gs, format!("{} -nullrhi -nosound -nosplash", client));
}

#[test]
fn launch_plans() {
    let settings = Settings { backend: some("Nexa"), redirect: some("Starfall"), gameserver: None, clientdll: some("x.dll") };
    let mut config = Configuration::new();
    config.path = "D:\\s".to_string();
    let plan = plan_launch(true, true, &settings, &config);
    assert_eq!(plan.backend, "Nexa");
    assert_eq!(plan.backend_address, "127.0.0.1:5353");
    assert!(plan.start_bundled_backend);
    assert_eq!(plan.proxy_target, some("127.0.0.1:5353"));
    assert!(matches!(plan.gameserver_dll, DllLocation::Unset));
    assert!(matches!(plan.client_dll, DllLocation::Given(ref p) if p == "x.dll"));
    assert_eq!(plan.sessions, vec![false, true]);
    assert_eq!(plan.eac_exe, eac_exe("D:\\s"));
    assert_eq!(plan_launch(true, false, &settings, &config).sessions, vec![false]);
    assert_eq!(plan_launch(false, true, &settings, &config).sessions, vec![true]);
    assert_eq!(plan_launch(false, false, &settings, &config).sessions, vec![true]);
    let none = plan_launch(true, false, &Settings::default(), &config);
    assert_eq!(none.backend, "");
    assert!(!none.start_bundled_backend);
}

#[test]
fn output_lines() {
    let fail = "LogHttp: port 3551 failed: Connection refused";
    assert!(classify_output(fail, true) == OutputEvent::AuthFailure);
    assert!(classify_output(fail, false) == OutputEvent::Other);
    assert!(classify_output("x UOnlineAccountCommon::ForceLogout y", true) == OutputEvent::AuthFailure);
    assert!(classify_output("[UOnlineAccountCommon::ContinueLoggingIn] (Completed)", false) == OutputEvent::LoggedIn);
    assert!(classify_output("Login (Completed)", true) == OutputEvent::LoggedIn);
    assert!(classify_output("nothing here", true) == OutputEvent::Other);
}

#[test]
fn menus() {
    assert!(main_menu_choice("1") == MainMenuChoice::Launch);
    assert!(main_menu_choice("4") == MainMenuChoice::Exit);
    assert!(main_menu_choice("5") == MainMenuChoice::Invalid);
    assert!(config_menu_choice("2") == ConfigMenuChoice::Delete);
    assert!(config_menu_choice("0") == ConfigMenuChoice::Back);
    assert!(settings_menu_choice("4") == SettingsMenuChoice::ClientDll);
    assert!(settings_menu_choice("9") == SettingsMenuChoice::Invalid);
    assert!(launch_menu_choice("3") == LaunchMenuChoice::GameserverOnly);
    assert!(launch_menu_choice("") == LaunchMenuChoice::Invalid);
    assert!(matches!(backend_menu_choice("1"), PresetChoice::Preset(p) if p == "LawinServer"));
    assert!(matches!(backend_menu_choice("4"), PresetChoice::Preset(p) if p == "Voltronite"));
    assert!(matches!(backend_menu_choice("5"), PresetChoice::Custom));
    assert!(matches!(gameserver_menu_choice("2"), PresetChoice::Preset(p) if p == "Reboot"));
    assert!(matches!(gameserver_menu_choice("3"), PresetChoice::Custom));
    assert!(matches!(gameserver_menu_choice("4"), PresetChoice::Invalid));
    assert!(matches!(redirect_menu_choice("1"), PresetChoice::Preset(p) if p == "Cobalt"));
    assert!(matches!(redirect_menu_choice("0"), PresetChoice::Back));
    assert!(matches!(client_dll_menu_choice("2"), PresetChoice::Preset(p) if p == "Default"));
    assert!(matches!(client_dll_menu_choice("5"), PresetChoice::Invalid));
}

#[test]
fn backend_urls() {
    assert!(is_backend_url("http://127.0.0.1:8080"));
    assert!(is_backend_url("HTTPS://example.com"));
    assert!(!is_backend_url("ftp://example.com"));
    assert!(!is_backend_url("127.0.0.1:8080"));
    assert!(!is_backend_url(""));
    assert!(is_web_scheme("https"));
    assert!(!is_web_scheme("HTTP"));
    assert!(backend_url_ok(&some("http")));
    assert!(!backend_url_ok(&None));
}

#[test]
fn dll_paths() {
    assert!(check_dll_path("", true) == Err(DllPathError::EmptyPath));
    assert!(check_dll_path("C:\\gs.dll", false) == Err(DllPathError::InvalidFile));
    assert!(check_dll_path("gs.DLL", true) == Ok(()));
    assert!(check_dll_path("gs.exe", true) == Err(DllPathError::InvalidFile));
    assert!(check_dll_path("gs", true) == Err(DllPathError::InvalidFile));
    assert!(check_dll_path("dlls/gs.Dll", true) == Ok(()));
    assert!(check_dll_path("dlls/gs.dll.exe", true) == Err(DllPathError::InvalidFile));
    assert!(check_dll_path("dir.dll/gs", true) == Err(DllPathError::InvalidFile));
    assert!(is_dll_extension(&some("Dll")));
    assert!(!is_dll_extension(&some("dl")));
    assert!(dll_path_verdict("x", true, &some("dll")) == Ok(()));
    assert!(dll_path_verdict("x", true, &None) == Err(DllPathError::InvalidFile));
}
