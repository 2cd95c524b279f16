//! The parameters handed to the radio controller once at startup.

use vstd::prelude::*;

verus! {

/// The one authentication scheme in use.
#[derive(Clone, Copy, Debug, PartialEq, Eq, Structural)]
pub enum AuthMethod {
    /// WPA2 with a pre-shared passphrase.
    Wpa2Personal,
}

/// The one power-save policy in use.
#[derive(Clone, Copy, Debug, PartialEq, Eq, Structural)]
pub enum PowerSave {
    /// No power saving, so that latency stays predictable.
    Disabled,
}

/// Why credentials were turned down.
#[derive(Clone, Copy, Debug, PartialEq, Eq, Structural)]
pub enum ConfigError {
    /// The network name is empty.
    EmptyNetworkName,
    /// The passphrase is empty.
    EmptyPassphrase,
}

/// What `ClientSettings::new` answers for a pair of credentials: the name
/// is looked at first.
pub open spec fn credentials_verdict(network_name: Seq<char>, passphrase: Seq<char>) -> Option<
    ConfigError,
> {
    if network_name.len() == 0 {
        Some(ConfigError::EmptyNetworkName)
    } else if passphrase.len() == 0 {
        Some(ConfigError::EmptyPassphrase)
    } else {
        None
    }
}

/// Station-mode client settings with credentials that were found usable.
#[derive(Debug)]
pub struct ClientSettings {
    network_name: String,
    passphrase: String,
}

impl ClientSettings {
    /// The network name, as characters.
    pub closed spec fn network_name_spec(&self) -> Seq<char> {
        self.network_name@
    }

    /// The passphrase, as characters.
    pub closed spec fn passphrase_spec(&self) -> Seq<char> {
        self.passphrase@
    }

    /// Neither credential is empty.
    #[verifier::type_invariant]
    spec fn usable(self) -> bool {
        self.network_name@.len() > 0 && self.passphrase@.len() > 0
    }

    /// Checks the credentials and keeps them. An empty name or passphrase
    /// is a configuration error, to be treated as fatal at startup.
    pub fn new(network_name: &str, passphrase: &str) -> (settings: Result<
        ClientSettings,
        ConfigError,
    >)
        ensures
            match credentials_verdict(network_name@, passphrase@) {
                Some(error) => settings == Err::<ClientSettings, ConfigError>(error),
                None => settings is Ok && settings->Ok_0.network_name_spec() == network_name@
                    && settings->Ok_0.passphrase_spec() == passphrase@,
            },
    {
        if network_name.is_empty() {
            Err(ConfigError::EmptyNetworkName)
        } else if passphrase.is_empty() {
            Err(ConfigError::EmptyPassphrase)
        } else {
            Ok(
                ClientSettings {
                    network_name: network_name.to_owned(),
                    passphrase: passphrase.to_owned(),
                },
            )
        }
    }

    /// The network name; never empty.
    pub fn network_name(&self) -> (name: &str)
        ensures
            name@ == self.network_name_spec(),
            name@.len() > 0,
    {
        proof {
            use_type_invariant(self);
        }
        self.network_name.as_str()
    }

    /// The passphrase; never empty.
    pub fn passphrase(&self) -> (passphrase: &str)
        ensures
            passphrase@ == self.passphrase_spec(),
            passphrase@.len() > 0,
    {
        proof {
            use_type_invariant(self);
        }
        self.passphrase.as_str()
    }

    /// The authentication scheme: always WPA2 with a passphrase.
    pub fn auth_method(&self) -> (method: AuthMethod)
        ensures
            method == AuthMethod::Wpa2Personal,
    {
        AuthMethod::Wpa2Personal
    }

    /// The power-save policy: always disabled.
    pub fn power_save(&self) -> (policy: PowerSave)
        ensures
            policy == PowerSave::Disabled,
    {
        PowerSave::Disabled
    }
}

} // verus!
