//! What the local configuration and the user settings of the remote service
//! decide: the name under which the account is shown, and the address of
//! the web interface that the links lead to.

use vstd::prelude::*;
use vstd::string::StringExecFns;
use crate::model::views;
use crate::text::same_text;

verus! {

/// One user setting of the remote service: a key and its value.
#[derive(Clone, Debug, PartialEq, Eq)]
pub struct Setting {
    pub key: String,
    pub value: String,
}

/// A setting, with its texts as sequences of characters.
pub struct SettingView {
    pub key: Seq<char>,
    pub value: Seq<char>,
}

impl View for Setting {
    type V = SettingView;

    open spec fn view(&self) -> SettingView {
        SettingView { key: self.key@, value: self.value@ }
    }
}

/// The value of the first setting with the given key, if there is one.
pub open spec fn lookup(settings: Seq<SettingView>, key: Seq<char>) -> Option<Seq<char>>
    decreases settings.len(),
{
    if settings.len() == 0 {
        None
    } else if settings[0].key == key {
        Some(settings[0].value)
    } else {
        lookup(settings.drop_first(), key)
    }
}

/// The address of the web interface: the setting "url.ui" where it is set,
/// else the host of the service itself.
pub open spec fn ui_url_of(settings: Seq<SettingView>, host: Seq<char>) -> Seq<char> {
    match lookup(settings, "url.ui"@) {
        Some(url) => url,
        None => host,
    }
}

/// The name under which the account is shown: the configured one, or "CDS" where none is.
pub open spec fn display_name_of(configured: Seq<char>) -> Seq<char> {
    if configured.len() == 0 {
        "CDS"@
    } else {
        configured
    }
}

/// The address of the web interface that the links of the display lead to.
pub fn ui_base_url(settings: &Vec<Setting>, host: &str) -> (url: String)
    ensures
        url@ == ui_url_of(views(settings@), host@),
{
    let ghost all = views(settings@);
    proof {
        assert(all.skip(0) =~= all);
    }
    let mut i: usize = 0;
    while i < settings.len()
        invariant
            i <= settings.len(),
            all == views(settings@),
            lookup(all, "url.ui"@) == lookup(all.skip(i as int), "url.ui"@),
        decreases settings.len() - i,
    {
        proof {
            assert(all.skip(i as int).drop_first() =~= all.skip(i + 1));
        }
        if same_text(settings[i].key.as_str(), "url.ui") {
            return settings[i].value.clone();
        }
        i += 1;
    }
    String::from_str(host)
}

/// The name under which the account is shown.
pub fn display_name(configured: &str) -> (name: String)
    ensures
        name@ == display_name_of(configured@),
{
    if same_text(configured, "") {
        proof {
            reveal_strlit("");
        }
        String::from_str("CDS")
    } else {
        proof {
            reveal_strlit("");
            assert(configured@.len() == 0 ==> configured@ =~= ""@);
        }
        String::from_str(configured)
    }
}

} // verus!
