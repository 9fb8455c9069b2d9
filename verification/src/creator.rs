//! The configuration wizard: the steps that ask for a name, the backend
//! account, the gameserver account and the game build, and what each answer
//! does. The caller shows the prompt of the current step, reads a line and
//! hands it to `ConfigWizard::submit`.

use crate::configuration::{
    name_taken, Configuration, ConfigurationView, empty_configuration, name_in_use,
};
use crate::outside::{email_shape, regex_is_match};
use crate::text::{lemma_trimmed_idempotent, str_eq, trim, trimmed};
use vstd::prelude::*;

verus! {

/// Where the wizard stands.
#[derive(PartialEq, Eq, Structural)]
pub enum CreatorStep {
    Name,
    Email,
    Password,
    GsEmail,
    GsPassword,
    Path,
    Confirm,
}

/// Why an answer was refused; the step stays as it was.
#[derive(PartialEq, Eq, Structural)]
pub enum CreatorError {
    EmptyName,
    NameInUse,
    EmptyEmail,
    InvalidEmail,
    EmptyPath,
    InvalidFolder,
    InvalidAnswer,
}

/// What an answer led to.
#[derive(PartialEq, Eq, Structural)]
pub enum CreatorOutcome {
    /// The answer was taken (or, for an empty password, ignored); prompt
    /// for the current step.
    Continue,
    /// The answer was refused.
    Rejected(CreatorError),
    /// The configuration is complete and confirmed: save it.
    Save,
    /// The configuration was not confirmed: the wizard starts over.
    Restart,
}

/// The wizard's state: its step and the configuration built so far.
pub struct ConfigWizard {
    pub step: CreatorStep,
    pub config: Configuration,
}

/// The mathematical content of a `ConfigWizard`.
pub struct WizardView {
    pub step: CreatorStep,
    pub config: ConfigurationView,
}

impl View for ConfigWizard {
    type V = WizardView;

    open spec fn view(&self) -> WizardView {
        WizardView { step: self.step, config: self.config@ }
    }
}

/// The wizard at its start.
pub open spec fn wizard_start() -> WizardView {
    WizardView { step: CreatorStep::Name, config: empty_configuration() }
}

/// The confirmation answer: empty, `y` or `Y` confirm; `n` or `N` decline;
/// these are the answers whose lower-case form is `""`, `"y"` or `"n"`.
pub open spec fn confirm_answer(t: Seq<char>) -> Option<bool> {
    if t == Seq::<char>::empty() || t == "y"@ || t == "Y"@ {
        Some(true)
    } else if t == "n"@ || t == "N"@ {
        Some(false)
    } else {
        None
    }
}

/// The wizard after the answer `line` (which is trimmed first), where
/// `existing` are the configurations already saved and `build_dir_ok` says
/// whether the trimmed answer names a folder holding the folders `Engine`
/// and `FortniteGame`.
pub open spec fn submit_spec(
    w: WizardView,
    line: Seq<char>,
    existing: Seq<Configuration>,
    build_dir_ok: bool,
) -> (WizardView, CreatorOutcome) {
    let t = trimmed(line);
    let c = w.config;
    match w.step {
        CreatorStep::Name => if t.len() == 0 {
            (w, CreatorOutcome::Rejected(CreatorError::EmptyName))
        } else if name_taken(existing, t) {
            (w, CreatorOutcome::Rejected(CreatorError::NameInUse))
        } else {
            (
                WizardView { step: CreatorStep::Email, config: ConfigurationView { name: t, ..c } },
                CreatorOutcome::Continue,
            )
        },
        CreatorStep::Email => if t.len() == 0 {
            (w, CreatorOutcome::Rejected(CreatorError::EmptyEmail))
        } else if !email_shape(t) {
            (w, CreatorOutcome::Rejected(CreatorError::InvalidEmail))
        } else {
            (
                WizardView {
                    step: CreatorStep::Password,
                    config: ConfigurationView { email: t, ..c },
                },
                CreatorOutcome::Continue,
            )
        },
        CreatorStep::Password => if t.len() == 0 {
            (w, CreatorOutcome::Continue)
        } else {
            (
                WizardView {
                    step: CreatorStep::GsEmail,
                    config: ConfigurationView { password: t, ..c },
                },
                CreatorOutcome::Continue,
            )
        },
        CreatorStep::GsEmail => if t.len() != 0 && !email_shape(t) {
            (w, CreatorOutcome::Rejected(CreatorError::InvalidEmail))
        } else {
            (
                WizardView {
                    step: CreatorStep::GsPassword,
                    config: ConfigurationView { gs_email: t, ..c },
                },
                CreatorOutcome::Continue,
            )
        },
        CreatorStep::GsPassword => (
            WizardView { step: CreatorStep::Path, config: ConfigurationView { gs_password: t, ..c } },
            CreatorOutcome::Continue,
        ),
        CreatorStep::Path => if t.len() == 0 {
            (w, CreatorOutcome::Rejected(CreatorError::EmptyPath))
        } else if !build_dir_ok {
            (w, CreatorOutcome::Rejected(CreatorError::InvalidFolder))
        } else {
            (
                WizardView { step: CreatorStep::Confirm, config: ConfigurationView { path: t, ..c } },
                CreatorOutcome::Continue,
            )
        },
        CreatorStep::Confirm => match confirm_answer(t) {
            Some(true) => (w, CreatorOutcome::Save),
            Some(false) => (wizard_start(), CreatorOutcome::Restart),
            None => (w, CreatorOutcome::Rejected(CreatorError::InvalidAnswer)),
        },
    }
}

/// Whether `s` has the shape of an email address.
pub fn is_valid_email(s: &str) -> (r: bool)
    ensures
        r == email_shape(s@),
{
    match regex_is_match("^[^\\s@]+@[^\\s@]+\\.[^\\s@]+$", s) {
        Some(b) => b,
        None => false,
    }
}

/// Decides `confirm_answer` on an already trimmed answer.
pub fn confirmation(t: &str) -> (r: Option<bool>)
    ensures
        r == confirm_answer(t@),
{
    proof {
        reveal_strlit("y");
        reveal_strlit("Y");
        reveal_strlit("n");
        reveal_strlit("N");
        assert("n"@[0] != "y"@[0] && "n"@[0] != "Y"@[0]);
        assert("N"@[0] != "y"@[0] && "N"@[0] != "Y"@[0]);
        if t@.len() == 0 {
            assert(t@ =~= Seq::<char>::empty());
        }
    }
    if t.is_empty() || str_eq(t, "y") || str_eq(t, "Y") {
        Some(true)
    } else if str_eq(t, "n") || str_eq(t, "N") {
        Some(false)
    } else {
        None
    }
}

impl ConfigWizard {
    /// The wizard at its start: asking for a name, nothing filled in.
    pub fn new() -> (w: ConfigWizard)
        ensures
            w@ == wizard_start(),
    {
        ConfigWizard { step: CreatorStep::Name, config: Configuration::new() }
    }

    /// Takes the answer `line` to the current step.
    pub fn submit(&mut self, line: &str, existing: &Vec<Configuration>, build_dir_ok: bool) -> (o:
        CreatorOutcome)
        ensures
            (final(self)@, o) == submit_spec(old(self)@, line@, existing@, build_dir_ok),
    {
        let t = trim(line);
        match self.step {
            CreatorStep::Name => {
                if t.is_empty() {
                    CreatorOutcome::Rejected(CreatorError::EmptyName)
                } else if name_in_use(existing, t) {
                    CreatorOutcome::Rejected(CreatorError::NameInUse)
                } else {
                    self.config.name = String::from_str(t);
                    self.step = CreatorStep::Email;
                    CreatorOutcome::Continue
                }
            },
            CreatorStep::Email => {
                if t.is_empty() {
                    CreatorOutcome::Rejected(CreatorError::EmptyEmail)
                } else if !is_valid_email(t) {
                    CreatorOutcome::Rejected(CreatorError::InvalidEmail)
                } else {
                    self.config.email = String::from_str(t);
                    self.step = CreatorStep::Password;
                    CreatorOutcome::Continue
                }
            },
            CreatorStep::Password => {
                if !t.is_empty() {
                    self.config.password = String::from_str(t);
                    self.step = CreatorStep::GsEmail;
                }
                CreatorOutcome::Continue
            },
            CreatorStep::GsEmail => {
                if !t.is_empty() && !is_valid_email(t) {
                    CreatorOutcome::Rejected(CreatorError::InvalidEmail)
                } else {
                    self.config.gs_email = String::from_str(t);
                    self.step = CreatorStep::GsPassword;
                    CreatorOutcome::Continue
                }
            },
            CreatorStep::GsPassword => {
                self.config.gs_password = String::from_str(t);
                self.step = CreatorStep::Path;
                CreatorOutcome::Continue
            },
            CreatorStep::Path => {
                if t.is_empty() {
                    CreatorOutcome::Rejected(CreatorError::EmptyPath)
                } else if !build_dir_ok {
                    CreatorOutcome::Rejected(CreatorError::InvalidFolder)
                } else {
                    self.config.path = String::from_str(t);
                    self.step = CreatorStep::Confirm;
                    CreatorOutcome::Continue
                }
            },
            CreatorStep::Confirm => {
                match confirmation(t) {
                    Some(true) => CreatorOutcome::Save,
                    Some(false) => {
                        self.step = CreatorStep::Name;
                        self.config = Configuration::new();
                        CreatorOutcome::Restart
                    },
                    None => CreatorOutcome::Rejected(CreatorError::InvalidAnswer),
                }
            },
        }
    }
}


/// The position of a step in the order the wizard asks them.
pub open spec fn step_index(s: CreatorStep) -> int {
    match s {
        CreatorStep::Name => 0,
        CreatorStep::Email => 1,
        CreatorStep::Password => 2,
        CreatorStep::GsEmail => 3,
        CreatorStep::GsPassword => 4,
        CreatorStep::Path => 5,
        CreatorStep::Confirm => 6,
    }
}

/// Every field of `c` is stored trimmed.
pub open spec fn fields_trimmed(c: ConfigurationView) -> bool {
    &&& trimmed(c.name) == c.name
    &&& trimmed(c.email) == c.email
    &&& trimmed(c.password) == c.password
    &&& trimmed(c.gs_email) == c.gs_email
    &&& trimmed(c.gs_password) == c.gs_password
    &&& trimmed(c.path) == c.path
}

/// What the steps already passed guarantee of the configuration, which
/// always holds its answers trimmed.
pub open spec fn wizard_inv(w: WizardView, existing: Seq<Configuration>) -> bool {
    let c = w.config;
    &&& fields_trimmed(c)
    &&& step_index(w.step) >= 1 ==> c.name.len() != 0 && !name_taken(existing, c.name)
    &&& step_index(w.step) >= 2 ==> email_shape(c.email)
    &&& step_index(w.step) >= 3 ==> c.password.len() != 0
    &&& step_index(w.step) >= 4 ==> c.gs_email.len() == 0 || email_shape(c.gs_email)
    &&& step_index(w.step) >= 6 ==> c.path.len() != 0
}

/// A configuration that the wizard may save: a name that is not empty and
/// that no saved configuration bears (ignoring ASCII case), an email of the
/// right shape, a password, a gameserver email that is empty or of the right
/// shape, and a build path, every field stored trimmed.
pub open spec fn savable(c: ConfigurationView, existing: Seq<Configuration>) -> bool {
    &&& fields_trimmed(c)
    &&& c.name.len() != 0
    &&& !name_taken(existing, c.name)
    &&& email_shape(c.email)
    &&& c.password.len() != 0
    &&& (c.gs_email.len() == 0 || email_shape(c.gs_email))
    &&& c.path.len() != 0
}

/// Every answer keeps what the passed steps guarantee, and the wizard asks
/// to save only a configuration that may be saved.
pub proof fn law_wizard_saves_only_valid(
    w: WizardView,
    line: Seq<char>,
    existing: Seq<Configuration>,
    build_dir_ok: bool,
)
    requires
        wizard_inv(w, existing),
    ensures
        wizard_inv(submit_spec(w, line, existing, build_dir_ok).0, existing),
        submit_spec(w, line, existing, build_dir_ok).1 == CreatorOutcome::Save ==> savable(
            w.config,
            existing,
        ),
{
    lemma_trimmed_idempotent(line);
}

/// The wizard at its start guarantees nothing yet, which its invariant
/// allows.
pub proof fn law_wizard_start_inv(existing: Seq<Configuration>)
    ensures
        wizard_inv(wizard_start(), existing),
{
}


/// Only an empty answer, `y` or `Y` confirms, and only `n` or `N` declines:
/// these are exactly the answers whose lower-case form is `""`, `"y"` or
/// `"n"`. A confirming answer is at most one character long.
pub proof fn law_confirmation_answers(t: Seq<char>)
    ensures
        confirm_answer(t) == Some(true) <==> (t.len() == 0 || t == "y"@ || t == "Y"@),
        confirm_answer(t) == Some(false) <==> (t == "n"@ || t == "N"@),
        confirm_answer(t) is None <==> (t.len() != 0 && t != "y"@ && t != "Y"@ && t != "n"@ && t
            != "N"@),
        confirm_answer(t) == Some(true) ==> t.len() <= 1 && t != "n"@ && t != "N"@,
{
    reveal_strlit("y");
    reveal_strlit("Y");
    reveal_strlit("n");
    reveal_strlit("N");
    if t.len() == 0 {
        assert(t =~= Seq::<char>::empty());
    }
    assert("n"@[0] != "y"@[0] && "n"@[0] != "Y"@[0]);
    assert("N"@[0] != "y"@[0] && "N"@[0] != "Y"@[0]);
}

/// At the confirmation step the wizard saves exactly on an answer that
/// trims to nothing, `y` or `Y`, starts over exactly on `n` or `N`, and
/// otherwise refuses the answer and keeps the configuration; it never
/// changes the configuration it saves.
pub proof fn law_confirm_step(
    w: WizardView,
    line: Seq<char>,
    existing: Seq<Configuration>,
    build_dir_ok: bool,
)
    requires
        w.step == CreatorStep::Confirm,
    ensures
        ({
            let (w2, o) = submit_spec(w, line, existing, build_dir_ok);
            let t = trimmed(line);
            &&& (o == CreatorOutcome::Save) <==> (t.len() == 0 || t == "y"@ || t == "Y"@)
            &&& (o == CreatorOutcome::Restart) <==> (t == "n"@ || t == "N"@)
            &&& o == CreatorOutcome::Save ==> w2 == w
            &&& o == CreatorOutcome::Restart ==> w2 == wizard_start()
            &&& (o != CreatorOutcome::Save && o != CreatorOutcome::Restart) ==> (w2 == w && o
                == CreatorOutcome::Rejected(CreatorError::InvalidAnswer))
        }),
{
    law_confirmation_answers(trimmed(line));
}

} // verus!
