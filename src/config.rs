use vstd::prelude::*;

verus! {

/// One of the two environment variables that hold the credentials.
#[derive(Debug, Clone, Copy, PartialEq, Eq, Structural)]
pub enum CredentialVar {
    Key,
    Secret,
}

pub open spec fn var_name_spec(v: CredentialVar) -> Seq<char> {
    match v {
        CredentialVar::Key => "ALI_KEY"@,
        CredentialVar::Secret => "ALI_SECRET"@,
    }
}

impl CredentialVar {
    /// The name of the variable in the process environment.
    pub fn name(&self) -> (r: &'static str)
        ensures
            r@ == var_name_spec(*self),
    {
        match self {
            CredentialVar::Key => "ALI_KEY",
            CredentialVar::Secret => "ALI_SECRET",
        }
    }
}

/// A credential variable that is absent or empty.
#[derive(Debug, Clone, Copy, PartialEq, Eq, Structural)]
pub enum ConfigError {
    Missing(CredentialVar),
}

pub open spec fn config_message_spec(e: ConfigError) -> Seq<char> {
    match e {
        ConfigError::Missing(v) => "environment variable "@ + var_name_spec(v) + " is missing or empty"@,
    }
}

impl ConfigError {
    /// The message shown before the process stops.
    pub fn message(&self) -> (r: String)
        ensures
            r@ == config_message_spec(*self),
    {
        match self {
            ConfigError::Missing(v) => {
                let mut r = String::from_str("environment variable ");
                r.append(v.name());
                r.append(" is missing or empty");
                r
            },
        }
    }
}

/// The access key pair that signs every request.
#[derive(Debug)]
pub struct Credentials {
    pub access_key_id: String,
    pub access_key_secret: String,
}

impl Credentials {
    pub open spec fn wf(&self) -> bool {
        self.access_key_id@.len() > 0 && self.access_key_secret@.len() > 0
    }
}

/// A value that is given and not empty.
pub open spec fn present(v: Option<String>) -> bool {
    v is Some && v->0@.len() > 0
}

pub open spec fn credentials_spec(key: Option<String>, secret: Option<String>) -> Result<
    Credentials,
    ConfigError,
> {
    if !present(key) {
        Err(ConfigError::Missing(CredentialVar::Key))
    } else if !present(secret) {
        Err(ConfigError::Missing(CredentialVar::Secret))
    } else {
        Ok(Credentials { access_key_id: key->0, access_key_secret: secret->0 })
    }
}

/// Builds the credentials from the values of the two variables as read,
/// `None` standing for an absent one. The key is checked first.
pub fn load_credentials(key: Option<String>, secret: Option<String>) -> (r: Result<
    Credentials,
    ConfigError,
>)
    ensures
        r == credentials_spec(key, secret),
        r is Ok ==> r->Ok_0.wf(),
{
    match key {
        None => Err(ConfigError::Missing(CredentialVar::Key)),
        Some(k) => {
            if k.as_str().is_empty() {
                return Err(ConfigError::Missing(CredentialVar::Key));
            }
            match secret {
                None => Err(ConfigError::Missing(CredentialVar::Secret)),
                Some(s) => {
                    if s.as_str().is_empty() {
                        return Err(ConfigError::Missing(CredentialVar::Secret));
                    }
                    Ok(Credentials { access_key_id: k, access_key_secret: s })
                },
            }
        },
    }
}

} // verus!
