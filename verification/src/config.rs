//! Process configuration as plain values, and the decisions taken on it:
//! the tenant selector's string form, the virtual root's normalization,
//! and the refresh-token write-back after a successful refresh.
//!
//! Loading and persisting the configuration file is the surrounding
//! runtime's part.

use vstd::prelude::*;
use vstd::string::*;

use crate::strutil::concat_str;
use crate::strutil::str_equal;

verus! {

/// The tenant/authority the upstream OAuth endpoint is addressed under.
#[derive(Debug)]
pub enum Authority {
    Consumers,
    Organizations,
    Common,
    Issuer(String),
}

impl Clone for Authority {
    fn clone(&self) -> (r: Self)
        ensures
            r == *self,
    {
        match self {
            Authority::Consumers => Authority::Consumers,
            Authority::Organizations => Authority::Organizations,
            Authority::Common => Authority::Common,
            Authority::Issuer(s) => Authority::Issuer(s.clone()),
        }
    }
}

/// The configured tenant selector.
#[derive(Debug)]
pub struct ApiType(pub Authority);

impl Clone for ApiType {
    fn clone(&self) -> (r: Self)
        ensures
            r == *self,
    {
        ApiType(self.0.clone())
    }
}

impl ApiType {
    /// The string under which this selector is written in the
    /// configuration: the three well-known tenants by name, any other
    /// issuer by its own string.
    pub fn tenant_string(&self) -> (r: String)
        ensures
            self.0 is Consumers ==> r@ == "consumers"@,
            self.0 is Organizations ==> r@ == "organizations"@,
            self.0 is Common ==> r@ == "common"@,
            self.0 matches Authority::Issuer(s) ==> r@ == s@,
    {
        match &self.0 {
            Authority::Consumers => {
                let s = "consumers";
                s.to_owned()
            },
            Authority::Organizations => {
                let s = "organizations";
                s.to_owned()
            },
            Authority::Common => {
                let s = "common";
                s.to_owned()
            },
            Authority::Issuer(s) => s.clone(),
        }
    }

    /// Reads a configured tenant string back: the three well-known names
    /// map to their tenants, anything else is kept as an issuer string.
    pub fn from_tenant_string(s: &str) -> (r: ApiType)
        ensures
            s@ == "consumers"@ ==> r.0 is Consumers,
            s@ == "organizations"@ ==> r.0 is Organizations,
            s@ == "common"@ ==> r.0 is Common,
            s@ != "consumers"@ && s@ != "organizations"@ && s@ != "common"@ ==> (
            r.0 matches Authority::Issuer(i) && i@ == s@),
    {
        proof {
            reveal_strlit("consumers");
            reveal_strlit("organizations");
            reveal_strlit("common");
            assert("consumers"@.len() == 9);
            assert("organizations"@.len() == 13);
            assert("common"@.len() == 6);
        }
        if str_equal(s, "consumers") {
            ApiType(Authority::Consumers)
        } else if str_equal(s, "organizations") {
            ApiType(Authority::Organizations)
        } else if str_equal(s, "common") {
            ApiType(Authority::Common)
        } else {
            ApiType(Authority::Issuer(s.to_owned()))
        }
    }
}

/// The credential part of the configuration.
#[derive(Debug)]
pub struct Auth {
    pub client_id: String,
    pub client_secret: String,
    pub refresh_token: Option<String>,
    pub api_type: ApiType,
}

/// The user-facing part of the configuration.
#[derive(Debug)]
pub struct UserSetting {
    pub home_dir: String,
    pub use_proxy: bool,
    pub name: String,
    pub port: u16,
}

/// The whole process configuration.
#[derive(Debug)]
pub struct Setting {
    pub auth: Auth,
    pub setting: UserSetting,
}

impl Default for Setting {
    /// The configuration written for the user to fill in when none can
    /// be read: empty credentials against the consumers tenant, and the
    /// whole drive exposed on the default port.
    fn default() -> (r: Self)
        ensures
            r.auth.client_id@.len() == 0,
            r.auth.client_secret@.len() == 0,
            r.auth.refresh_token is None,
            r.auth.api_type.0 is Consumers,
            r.setting.home_dir@ == "/"@,
            !r.setting.use_proxy,
            r.setting.name@ == "Onelist"@,
            r.setting.port == 3000,
    {
        let home = "/";
        let name = "Onelist";
        Setting {
            auth: Auth {
                client_id: String::new(),
                client_secret: String::new(),
                refresh_token: None,
                api_type: ApiType(Authority::Consumers),
            },
            setting: UserSetting {
                home_dir: home.to_owned(),
                use_proxy: false,
                name: name.to_owned(),
                port: 3000,
            },
        }
    }
}

impl Setting {
    /// Carries a refresh token obtained at runtime back into the
    /// configuration, so a restart can resume without an interactive
    /// login; without one the configuration is left as it is.
    pub fn apply_refreshed_token(&mut self, refreshed: &Option<String>)
        ensures
            match refreshed {
                Some(t) => {
                    &&& final(self).auth.refresh_token matches Some(s) && s@ == t@
                    &&& final(self).auth.client_id == old(self).auth.client_id
                    &&& final(self).auth.client_secret == old(self).auth.client_secret
                    &&& final(self).auth.api_type == old(self).auth.api_type
                    &&& final(self).setting == old(self).setting
                },
                None => *final(self) == *old(self),
            },
    {
        match refreshed {
            Some(t) => {
                self.auth.refresh_token = Some(t.clone());
            },
            None => {},
        }
    }
}

/// The configured virtual root with a leading slash guaranteed: a root
/// that already starts with one is kept, any other gets one prepended.
pub fn normalize_home_dir(home: &str) -> (r: String)
    ensures
        home@.len() > 0 && home@[0] == '/' ==> r@ == home@,
        !(home@.len() > 0 && home@[0] == '/') ==> r@ == "/"@ + home@,
{
    if home.unicode_len() > 0 && home.get_char(0) == '/' {
        home.to_owned()
    } else {
        concat_str("/", home)
    }
}

} // verus!
