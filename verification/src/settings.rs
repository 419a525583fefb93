//! The session's settings, as values. Reading and writing them is the
//! caller's business.

use crate::text::same_text;
use vstd::prelude::*;
use vstd::string::*;

verus! {

/// The settings of a session.
#[derive(Clone, Debug, PartialEq, Eq)]
pub struct Settings {
    pub headless: bool,
    pub email: String,
    pub password: String,
    pub path_to_geckodriver: String,
}

/// Whether `key` names a setting.
pub open spec fn is_setting(key: Seq<char>) -> bool {
    key == "headless"@ || key == "email"@ || key == "password"@ || key == "path_to_geckodriver"@
}

/// How a flag is written.
pub open spec fn flag_text(flag: bool) -> Seq<char> {
    if flag {
        "true"@
    } else {
        "false"@
    }
}

/// Each setting is read by its own name, and the four names are settings.
pub proof fn lemma_setting_names(settings: Settings)
    ensures
        is_setting("headless"@),
        is_setting("email"@),
        is_setting("password"@),
        is_setting("path_to_geckodriver"@),
        settings.value_of("headless"@) == flag_text(settings.headless),
        settings.value_of("email"@) == settings.email@,
        settings.value_of("password"@) == settings.password@,
        settings.value_of("path_to_geckodriver"@) == settings.path_to_geckodriver@,
{
    reveal_strlit("headless");
    reveal_strlit("email");
    reveal_strlit("password");
    reveal_strlit("path_to_geckodriver");
    assert("email"@.len() != "headless"@.len());
    assert("password"@[0] != "headless"@[0]);
    assert("password"@.len() != "email"@.len());
    assert("path_to_geckodriver"@.len() != "headless"@.len());
    assert("path_to_geckodriver"@.len() != "email"@.len());
    assert("path_to_geckodriver"@.len() != "password"@.len());
}

impl Settings {
    /// The value of the setting that `key` names, as text.
    pub open spec fn value_of(&self, key: Seq<char>) -> Seq<char> {
        if key == "headless"@ {
            flag_text(self.headless)
        } else if key == "email"@ {
            self.email@
        } else if key == "password"@ {
            self.password@
        } else {
            self.path_to_geckodriver@
        }
    }

    /// Settings with nothing filled in: not headless, and every text empty.
    pub fn new() -> (settings: Self)
        ensures
            !settings.headless,
            settings.email@ == Seq::<char>::empty(),
            settings.password@ == Seq::<char>::empty(),
            settings.path_to_geckodriver@ == Seq::<char>::empty(),
    {
        Settings {
            headless: false,
            email: String::new(),
            password: String::new(),
            path_to_geckodriver: String::new(),
        }
    }

    /// The value of a setting as text, by the setting's name.
    pub fn get(&self, key: &str) -> (value: String)
        requires
            is_setting(key@),
        ensures
            value@ == self.value_of(key@),
    {
        if same_text(key, "headless") {
            if self.headless {
                String::from_str("true")
            } else {
                String::from_str("false")
            }
        } else if same_text(key, "email") {
            self.email.clone()
        } else if same_text(key, "password") {
            self.password.clone()
        } else {
            self.path_to_geckodriver.clone()
        }
    }
}

} // verus!
