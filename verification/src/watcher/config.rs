//! The configuration that the demonstration watches.
use std::sync::Arc;

use vstd::prelude::*;

verus! {

/// What a user is configured as.
pub struct UserModel {
    pub user_name: Option<Seq<char>>,
    pub user_id: Option<Seq<char>>,
}

/// What is configured.
pub struct ConfigModel {
    pub listen_addresses: Option<Seq<Seq<char>>>,
    pub user_info: Option<UserModel>,
}

/// A configured user.
#[derive(Debug, PartialEq, Eq)]
pub struct UserInfo {
    pub user_name: Option<String>,
    pub user_id: Option<String>,
}

/// The configuration.
#[derive(Debug, PartialEq, Eq)]
pub struct ConfigToml {
    pub listen_addresses: Option<Vec<String>>,
    pub user_info: Option<UserInfo>,
}

/// A watch on a configuration.
#[derive(Debug)]
pub struct ConfigWatch {
    pub config: ConfigToml,
}

/// The text in an optional string.
pub open spec fn optional_text(text: Option<String>) -> Option<Seq<char>> {
    match text {
        Some(text) => Some(text@),
        None => None,
    }
}

impl View for UserInfo {
    type V = UserModel;

    open spec fn view(&self) -> UserModel {
        UserModel {
            user_name: optional_text(self.user_name),
            user_id: optional_text(self.user_id),
        }
    }
}

impl View for ConfigToml {
    type V = ConfigModel;

    open spec fn view(&self) -> ConfigModel {
        ConfigModel {
            listen_addresses: match self.listen_addresses {
                Some(addresses) => Some(addresses@.map_values(|address: String| address@)),
                None => None,
            },
            user_info: match self.user_info {
                Some(user) => Some(user@),
                None => None,
            },
        }
    }
}

impl Default for UserInfo {
    fn default() -> (user: Self)
        ensures
            user@ == (UserModel { user_name: None, user_id: None }),
    {
        UserInfo { user_name: None, user_id: None }
    }
}

impl Default for ConfigToml {
    fn default() -> (config: Self)
        ensures
            config@ == (ConfigModel { listen_addresses: None, user_info: None }),
    {
        ConfigToml { listen_addresses: None, user_info: None }
    }
}

impl Clone for UserInfo {
    fn clone(&self) -> (copy: Self)
        ensures
            copy@ == self@,
    {
        UserInfo { user_name: self.user_name.clone(), user_id: self.user_id.clone() }
    }
}

impl Clone for ConfigToml {
    fn clone(&self) -> (copy: Self)
        ensures
            copy@ == self@,
    {
        let listen_addresses = match &self.listen_addresses {
            Some(addresses) => {
                let copy = addresses.clone();
                assert(copy@.map_values(|address: String| address@) == addresses@.map_values(
                    |address: String| address@,
                ));
                Some(copy)
            },
            None => None,
        };
        let user_info = match &self.user_info {
            Some(user) => Some(user.clone()),
            None => None,
        };
        ConfigToml { listen_addresses, user_info }
    }
}

impl Clone for ConfigWatch {
    fn clone(&self) -> (copy: Self)
        ensures
            copy.config@ == self.config@,
    {
        ConfigWatch { config: self.config.clone() }
    }
}

fn same_text(a: &Option<String>, b: &Option<String>) -> (same: bool)
    ensures
        same == (optional_text(*a) == optional_text(*b)),
{
    match (a, b) {
        (Some(a), Some(b)) => a.eq(b),
        (None, None) => true,
        _ => false,
    }
}

fn same_texts(a: &Vec<String>, b: &Vec<String>) -> (same: bool)
    ensures
        same == (a@.map_values(|text: String| text@) == b@.map_values(|text: String| text@)),
{
    let ghost left = a@.map_values(|text: String| text@);
    let ghost right = b@.map_values(|text: String| text@);
    if a.len() != b.len() {
        assert(left.len() != right.len());
        return false;
    }
    for i in 0..a.len()
        invariant
            a.len() == b.len(),
            left == a@.map_values(|text: String| text@),
            right == b@.map_values(|text: String| text@),
            forall|j: int| 0 <= j < i ==> left[j] == right[j],
    {
        if !a[i].eq(&b[i]) {
            assert(left[i as int] != right[i as int]);
            return false;
        }
    }
    assert(left == right);
    true
}

impl UserInfo {
    fn is_same(&self, other: &UserInfo) -> (same: bool)
        ensures
            same == (self@ == other@),
    {
        same_text(&self.user_name, &other.user_name) && same_text(&self.user_id, &other.user_id)
    }
}

/// How loading a configuration went.
#[derive(Debug)]
pub enum Loaded {
    /// The file could not be read.
    Unreadable,
    /// The text could not be parsed; with a description of the error.
    Unparsable(String),
    /// The text was parsed.
    Parsed(ConfigToml),
}

impl ConfigToml {
    /// The configuration, or what to say instead of it.
    pub fn reload(loaded: Loaded) -> (config: Result<ConfigToml, String>)
        ensures
            match loaded {
                Loaded::Unreadable => config matches Err(message) && message@
                    == "Failed to load config file"@,
                Loaded::Unparsable(error) => config matches Err(message) && message@
                    == "Failed to parse toml config: "@ + error@,
                Loaded::Parsed(parsed) => config == Ok::<ConfigToml, String>(parsed),
            },
    {
        match loaded {
            Loaded::Unreadable => Err("Failed to load config file".to_owned()),
            Loaded::Unparsable(error) => Err(
                "Failed to parse toml config: ".to_owned().concat(error.as_str()),
            ),
            Loaded::Parsed(parsed) => Ok(parsed),
        }
    }

    /// Whether the new configuration is the same as this one.
    pub fn is_updated(&self, new_one: &Self) -> (same: bool)
        ensures
            same == (self@ == new_one@),
    {
        let same_addresses = match (&self.listen_addresses, &new_one.listen_addresses) {
            (Some(a), Some(b)) => same_texts(a, b),
            (None, None) => true,
            _ => false,
        };
        let same_user = match (&self.user_info, &new_one.user_info) {
            (Some(a), Some(b)) => a.is_same(b),
            (None, None) => true,
            _ => false,
        };
        same_addresses && same_user
    }
}

impl ConfigWatch {
    /// The configuration that a reload finds: an empty one.
    pub fn reload(&self) -> (reloaded: Result<Option<Arc<ConfigToml>>, String>)
        ensures
            reloaded matches Ok(Some(config)) && (*config)@ == (ConfigModel {
                listen_addresses: None,
                user_info: None,
            }),
    {
        Ok(Some(Arc::new(ConfigToml { listen_addresses: None, user_info: None })))
    }
}

/// Two configurations count as the same exactly if they list the same addresses
/// in the same order and have the same user, each field of it included.
pub proof fn what_makes_configs_the_same(a: ConfigToml, b: ConfigToml)
    ensures
        a@ == b@ <==> {
            &&& match (a.listen_addresses, b.listen_addresses) {
                (Some(x), Some(y)) => x@.len() == y@.len() && forall|i: int|
                    0 <= i < x@.len() ==> (#[trigger] x@[i])@ == y@[i]@,
                (None, None) => true,
                _ => false,
            }
            &&& match (a.user_info, b.user_info) {
                (Some(x), Some(y)) => {
                    &&& match (x.user_name, y.user_name) {
                        (Some(s), Some(t)) => s@ == t@,
                        (None, None) => true,
                        _ => false,
                    }
                    &&& match (x.user_id, y.user_id) {
                        (Some(s), Some(t)) => s@ == t@,
                        (None, None) => true,
                        _ => false,
                    }
                },
                (None, None) => true,
                _ => false,
            }
        },
{
    if let (Some(x), Some(y)) = (a.listen_addresses, b.listen_addresses) {
        let left = x@.map_values(|address: String| address@);
        let right = y@.map_values(|address: String| address@);
        if a@ == b@ {
            assert(left == right);
            assert forall|i: int| 0 <= i < x@.len() implies (#[trigger] x@[i])@ == y@[i]@ by {
                assert(left[i] == right[i]);
            }
        }
        if x@.len() == y@.len() && forall|i: int|
            0 <= i < x@.len() ==> (#[trigger] x@[i])@ == y@[i]@ {
            assert(left =~= right);
        }
    }
}

} // verus!
