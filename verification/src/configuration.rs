//! Launch configurations: a named game build with the accounts that log in
//! to the backend, and the list of them that the launcher keeps.

use crate::text::{ascii_fold, eq_ignore_ascii_case, is_ascii_letter, law_ignore_case_keeps_non_letters, str_eq_ignore_ascii_case};
use vstd::prelude::*;

verus! {

/// One launch configuration.
pub struct Configuration {
    pub name: String,
    pub email: String,
    pub password: String,
    pub gs_email: String,
    pub gs_password: String,
    pub path: String,
}

/// The mathematical content of a `Configuration`.
pub struct ConfigurationView {
    pub name: Seq<char>,
    pub email: Seq<char>,
    pub password: Seq<char>,
    pub gs_email: Seq<char>,
    pub gs_password: Seq<char>,
    pub path: Seq<char>,
}

impl View for Configuration {
    type V = ConfigurationView;

    open spec fn view(&self) -> ConfigurationView {
        ConfigurationView {
            name: self.name@,
            email: self.email@,
            password: self.password@,
            gs_email: self.gs_email@,
            gs_password: self.gs_password@,
            path: self.path@,
        }
    }
}

/// The configuration whose fields are all empty.
pub open spec fn empty_configuration() -> ConfigurationView {
    ConfigurationView {
        name: Seq::empty(),
        email: Seq::empty(),
        password: Seq::empty(),
        gs_email: Seq::empty(),
        gs_password: Seq::empty(),
        path: Seq::empty(),
    }
}

impl Configuration {
    /// A configuration whose fields are all empty.
    pub fn new() -> (c: Configuration)
        ensures
            c@ == empty_configuration(),
            c.name@ == Seq::<char>::empty(),
            c.email@ == Seq::<char>::empty(),
            c.password@ == Seq::<char>::empty(),
            c.gs_email@ == Seq::<char>::empty(),
            c.gs_password@ == Seq::<char>::empty(),
            c.path@ == Seq::<char>::empty(),
    {
        Configuration {
            name: String::new(),
            email: String::new(),
            password: String::new(),
            gs_email: String::new(),
            gs_password: String::new(),
            path: String::new(),
        }
    }
}

/// Configurations are looked up by name, ignoring ASCII case.
pub open spec fn name_matches(c: Configuration, name: Seq<char>) -> bool {
    eq_ignore_ascii_case(c.name@, name)
}

/// Some configuration in `cs` bears `name`, ignoring ASCII case.
pub open spec fn name_taken(cs: Seq<Configuration>, name: Seq<char>) -> bool {
    exists|i: int| 0 <= i < cs.len() && name_matches(#[trigger] cs[i], name)
}

/// `i` is the first position in `cs` whose configuration bears `name`.
pub open spec fn is_first_match(cs: Seq<Configuration>, name: Seq<char>, i: int) -> bool {
    &&& 0 <= i < cs.len()
    &&& name_matches(cs[i], name)
    &&& forall|j: int| 0 <= j < i ==> !name_matches(#[trigger] cs[j], name)
}

/// No two configurations of `cs` bear the same name up to ASCII case.
pub open spec fn names_distinct(cs: Seq<Configuration>) -> bool {
    forall|i: int, j: int|
        0 <= i < j < cs.len() ==> !eq_ignore_ascii_case(#[trigger] cs[i].name@, #[trigger] cs[j].name@)
}

/// The position of the first configuration that bears `name`, ignoring
/// ASCII case.
pub fn find_config(configs: &Vec<Configuration>, name: &str) -> (r: Option<usize>)
    ensures
        r is None <==> !name_taken(configs@, name@),
        r matches Some(i) ==> is_first_match(configs@, name@, i as int),
{
    let n = configs.len();
    let mut i: usize = 0;
    while i < n
        invariant
            n == configs.len(),
            i <= n,
            forall|j: int| 0 <= j < i ==> !name_matches(#[trigger] configs@[j], name@),
        decreases n - i,
    {
        if str_eq_ignore_ascii_case(configs[i].name.as_str(), name) {
            return Some(i);
        }
        i = i + 1;
    }
    None
}

/// Whether some configuration already bears `name`, ignoring ASCII case.
pub fn name_in_use(configs: &Vec<Configuration>, name: &str) -> (r: bool)
    ensures
        r == name_taken(configs@, name@),
{
    find_config(configs, name).is_some()
}

/// Deletes the first configuration that bears `name`, ignoring ASCII case;
/// says whether there was one.
pub fn remove_config(configs: &mut Vec<Configuration>, name: &str) -> (r: bool)
    ensures
        r == name_taken(old(configs)@, name@),
        !r ==> final(configs)@ == old(configs)@,
        r ==> exists|i: int|
            is_first_match(old(configs)@, name@, i) && final(configs)@ == old(configs)@.remove(i),
{
    match find_config(configs, name) {
        Some(pos) => {
            let _removed = configs.remove(pos);
            true
        },
        None => false,
    }
}

/// Ignoring ASCII case is transitive.
pub proof fn lemma_eq_ignore_ascii_case_transitive(a: Seq<char>, b: Seq<char>, c: Seq<char>)
    requires
        eq_ignore_ascii_case(a, b),
        eq_ignore_ascii_case(b, c),
    ensures
        eq_ignore_ascii_case(a, c),
{
    assert forall|i: int| 0 <= i < a.len() implies ascii_fold(#[trigger] a[i]) == ascii_fold(c[i]) by {
        assert(ascii_fold(a[i]) == ascii_fold(b[i]));
        assert(ascii_fold(b[i]) == ascii_fold(c[i]));
    }
}

/// A configuration added under a name that no other bears is the one that
/// its name, in any ASCII case, finds.
pub proof fn law_added_config_found(cs: Seq<Configuration>, c: Configuration, name: Seq<char>)
    requires
        !name_taken(cs, c.name@),
        eq_ignore_ascii_case(name, c.name@),
    ensures
        is_first_match(cs.push(c), name, cs.len() as int),
{
    let ext = cs.push(c);
    assert(ext[cs.len() as int] == c);
    assert forall|j: int| 0 <= j < cs.len() implies !name_matches(#[trigger] ext[j], name) by {
        assert(ext[j] == cs[j]);
        if name_matches(cs[j], name) {
            assert(eq_ignore_ascii_case(cs[j].name@, c.name@));
            assert(name_matches(cs[j], c.name@));
        }
    }
    assert(name_matches(c, name));
}

/// Adding a configuration under a name that no other bears keeps the names
/// distinct.
pub proof fn law_add_keeps_names_distinct(cs: Seq<Configuration>, c: Configuration)
    requires
        names_distinct(cs),
        !name_taken(cs, c.name@),
    ensures
        names_distinct(cs.push(c)),
{
    let ext = cs.push(c);
    assert forall|i: int, j: int| 0 <= i < j < ext.len() implies !eq_ignore_ascii_case(
        #[trigger] ext[i].name@,
        #[trigger] ext[j].name@,
    ) by {
        if j == cs.len() {
            assert(ext[i] == cs[i]);
            assert(ext[j] == c);
            if eq_ignore_ascii_case(cs[i].name@, c.name@) {
                assert(name_matches(cs[i], c.name@));
            }
        } else {
            assert(ext[i] == cs[i] && ext[j] == cs[j]);
        }
    }
}

/// Deleting a configuration keeps the names distinct, and when they were
/// distinct the deleted name no longer finds anything.
pub proof fn law_removed_name_gone(cs: Seq<Configuration>, name: Seq<char>, i: int)
    requires
        names_distinct(cs),
        is_first_match(cs, name, i),
    ensures
        names_distinct(cs.remove(i)),
        !name_taken(cs.remove(i), name),
{
    let rest = cs.remove(i);
    assert forall|a: int, b: int| 0 <= a < b < rest.len() implies !eq_ignore_ascii_case(
        #[trigger] rest[a].name@,
        #[trigger] rest[b].name@,
    ) by {
        let a2 = if a < i { a } else { a + 1 };
        let b2 = if b < i { b } else { b + 1 };
        assert(rest[a] == cs[a2] && rest[b] == cs[b2]);
        assert(eq_ignore_ascii_case(cs[a2].name@, cs[b2].name@) == false);
    }
    assert forall|k: int| 0 <= k < rest.len() implies !name_matches(#[trigger] rest[k], name) by {
        let k2 = if k < i { k } else { k + 1 };
        assert(rest[k] == cs[k2]);
        if k2 > i {
            assert(!eq_ignore_ascii_case(cs[i].name@, cs[k2].name@));
            if name_matches(cs[k2], name) {
                lemma_eq_ignore_ascii_case_transitive(cs[i].name@, name, cs[k2].name@);
            }
        }
    }
}


/// A name finds a configuration only if both have the same length and agree
/// on every character that is not an ASCII letter, so names that differ in
/// a digit or other non-letter never find each other.
pub proof fn law_lookup_keeps_non_letters(c: Configuration, name: Seq<char>, i: int)
    requires
        0 <= i < name.len(),
        c.name@.len() == name.len(),
        c.name@[i] != name[i],
        !is_ascii_letter(c.name@[i]) || !is_ascii_letter(name[i]),
    ensures
        !name_matches(c, name),
{
    if name_matches(c, name) {
        law_ignore_case_keeps_non_letters(c.name@, name, i);
    }
}

} // verus!
