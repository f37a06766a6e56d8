//! The settings of a program, kept by key.
use vstd::hash_map::StringHashMap;
use vstd::prelude::*;

verus! {

/// Holds the value of every setting.
pub struct ConfigManager {
    settings: StringHashMap<String>,
}

impl ConfigManager {
    /// The value of each setting.
    pub closed spec fn values(&self) -> Map<Seq<char>, String> {
        self.settings@
    }

    /// A manager with the three settings every program starts with:
    /// `db_host` is `localhost`, `db_port` is `5432`, `api_key` is `123456`.
    pub fn new() -> (manager: Self)
        ensures
            manager.values().dom() == set!["db_host"@, "db_port"@, "api_key"@],
            manager.values()["db_host"@]@ == "localhost"@,
            manager.values()["db_port"@]@ == "5432"@,
            manager.values()["api_key"@]@ == "123456"@,
    {
        let mut settings: StringHashMap<String> = StringHashMap::new();
        settings.insert("db_host".to_string(), "localhost".to_string());
        settings.insert("db_port".to_string(), "5432".to_string());
        settings.insert("api_key".to_string(), "123456".to_string());
        proof {
            reveal_strlit("db_host");
            reveal_strlit("db_port");
            reveal_strlit("api_key");
            assert("db_host"@[3] != "db_port"@[3]);
            assert("db_host"@[0] != "api_key"@[0]);
            assert("db_port"@[0] != "api_key"@[0]);
            assert(settings@.dom() =~= set!["db_host"@, "db_port"@, "api_key"@]);
        }
        ConfigManager { settings }
    }

    /// The value of the setting `key`, or `None` if there is no such setting.
    pub fn get_setting(&self, key: &str) -> (value: Option<String>)
        ensures
            self.values().contains_key(key@) ==> value == Some(self.values()[key@]),
            !self.values().contains_key(key@) ==> value is None,
    {
        match self.settings.get(key) {
            Some(value) => Some(value.clone()),
            None => None,
        }
    }

    /// Sets the setting `key` to `value`, new or not.
    pub fn set_setting(&mut self, key: &str, value: &str)
        ensures
            final(self).values().dom() == old(self).values().dom().insert(key@),
            final(self).values()[key@]@ == value@,
            forall|other: Seq<char>|
                other != key@ && old(self).values().contains_key(other) ==> final(self).values()[other] == old(
                    self,
                ).values()[other],
    {
        self.settings.insert(key.to_string(), value.to_string());
    }
}

} // verus!
