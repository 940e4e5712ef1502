use vstd::prelude::*;

verus! {

/// Where the server listens.
#[derive(Debug)]
pub struct ApiSettings {
    pub host: String,
    pub port: String,
}

/// The storage that the server uses.
#[derive(Debug)]
pub struct AwsSettings {
    auth: String,
}

#[derive(Debug, Clone, PartialEq, Eq)]
pub enum SettingsError {
    /// A setting is missing; its key.
    InvalidLoadConfig(String),
    /// The server state could not be built; the reason.
    StateBuildError(String),
}

/// The key of the host setting.
pub const HOST_KEY: &'static str = "HOST";

/// The key of the port setting.
pub const PORT_KEY: &'static str = "PORT";

/// The key of the user table setting.
pub const AUTH_TABLE_KEY: &'static str = "AUTH_TABLE";

impl SettingsError {
    pub fn to_string(&self) -> (r: String)
        ensures
            r@ == match *self {
                SettingsError::InvalidLoadConfig(k) => "Cannot load env. key: "@ + k@,
                SettingsError::StateBuildError(m) => "State build error: "@ + m@,
            },
    {
        match self {
            SettingsError::InvalidLoadConfig(k) => {
                let mut r = String::from_str("Cannot load env. key: ");
                r.append(k.as_str());
                r
            },
            SettingsError::StateBuildError(m) => {
                let mut r = String::from_str("State build error: ");
                r.append(m.as_str());
                r
            },
        }
    }
}

impl ApiSettings {
    /// The listening settings from the values found for the host and port
    /// keys; the first key without a value, host before port, is the error.
    pub fn from_values(host: Option<String>, port: Option<String>) -> (r: Result<
        ApiSettings,
        SettingsError,
    >)
        ensures
            match (host, port) {
                (Some(h), Some(p)) => r matches Ok(s) && s.host == h && s.port == p,
                (None, _) => r matches Err(SettingsError::InvalidLoadConfig(k)) && k@ == HOST_KEY@,
                (Some(_), None) => r matches Err(SettingsError::InvalidLoadConfig(k)) && k@
                    == PORT_KEY@,
            },
    {
        let host = match host {
            Some(h) => h,
            None => return Err(SettingsError::InvalidLoadConfig(String::from_str(HOST_KEY))),
        };
        let port = match port {
            Some(p) => p,
            None => return Err(SettingsError::InvalidLoadConfig(String::from_str(PORT_KEY))),
        };
        Ok(ApiSettings { host, port })
    }
}

impl View for AwsSettings {
    type V = Seq<char>;

    /// The name of the user table.
    closed spec fn view(&self) -> Seq<char> {
        self.auth@
    }
}

impl AwsSettings {
    /// The storage settings from the value found for the user table key.
    pub fn from_value(auth: Option<String>) -> (r: Result<AwsSettings, SettingsError>)
        ensures
            match auth {
                Some(a) => r matches Ok(s) && s@ == a@,
                None => r matches Err(SettingsError::InvalidLoadConfig(k)) && k@ == AUTH_TABLE_KEY@,
            },
    {
        match auth {
            Some(a) => Ok(AwsSettings { auth: a }),
            None => Err(SettingsError::InvalidLoadConfig(String::from_str(AUTH_TABLE_KEY))),
        }
    }

    /// The name of the user table.
    pub fn auth(&self) -> (r: &String)
        ensures
            r@ == self@,
    {
        &self.auth
    }
}

} // verus!
