use vstd::prelude::*;

verus! {

/// One of the five environment variables the service needs at startup.
#[derive(PartialEq, Eq, Structural, Clone, Copy, Debug)]
pub enum ConfigVar {
    Host,
    Port,
    User,
    Password,
    Name,
}

/// The name under which each value is read from the environment.
pub open spec fn env_name_of(v: ConfigVar) -> Seq<char> {
    match v {
        ConfigVar::Host => "DATABASE_HOST"@,
        ConfigVar::Port => "DATABASE_PORT"@,
        ConfigVar::User => "DATABASE_USER"@,
        ConfigVar::Password => "DATABASE_PASSWORD"@,
        ConfigVar::Name => "DATABASE_NAME"@,
    }
}

impl ConfigVar {
    /// The variables in the order in which they are read.
    pub fn all() -> (r: [ConfigVar; 5])
        ensures
            r@ == seq![ConfigVar::Host, ConfigVar::Port, ConfigVar::User, ConfigVar::Password, ConfigVar::Name],
    {
        [ConfigVar::Host, ConfigVar::Port, ConfigVar::User, ConfigVar::Password, ConfigVar::Name]
    }

    pub fn env_name(&self) -> (r: &'static str)
        ensures
            r@ == env_name_of(*self),
    {
        match self {
            ConfigVar::Host => "DATABASE_HOST",
            ConfigVar::Port => "DATABASE_PORT",
            ConfigVar::User => "DATABASE_USER",
            ConfigVar::Password => "DATABASE_PASSWORD",
            ConfigVar::Name => "DATABASE_NAME",
        }
    }

    /// The message with which startup stops when this variable is absent.
    pub fn missing_message(&self) -> (r: String)
        ensures
            r@ == env_name_of(*self) + " must be set"@,
    {
        String::from_str(self.env_name()).concat(" must be set")
    }
}

/// What is needed to reach the database.
pub struct DbConfig {
    pub host: String,
    pub port: String,
    pub user: String,
    pub password: String,
    pub dbname: String,
}

/// The connection descriptor of a configuration; transport encryption is off.
pub open spec fn connection_string_of(c: DbConfig) -> Seq<char> {
    "host="@ + c.host@ + " port="@ + c.port@ + " user="@ + c.user@ + " password="@ + c.password@
        + " dbname="@ + c.dbname@ + " sslmode=disable"@
}

impl DbConfig {
    /// Builds a configuration from the five values as read from the
    /// environment; the first absent one, in the order of `ConfigVar::all`,
    /// is the error.
    pub fn from_values(
        host: Option<String>,
        port: Option<String>,
        user: Option<String>,
        password: Option<String>,
        dbname: Option<String>,
    ) -> (r: Result<DbConfig, ConfigVar>)
        ensures
            r is Ok <==> (host is Some && port is Some && user is Some && password is Some
                && dbname is Some),
            r matches Ok(c) ==> (Some(c.host) == host && Some(c.port) == port && Some(c.user)
                == user && Some(c.password) == password && Some(c.dbname) == dbname),
            host is None ==> r == Err::<DbConfig, ConfigVar>(ConfigVar::Host),
            host is Some && port is None ==> r == Err::<DbConfig, ConfigVar>(ConfigVar::Port),
            host is Some && port is Some && user is None ==> r == Err::<DbConfig, ConfigVar>(
                ConfigVar::User,
            ),
            host is Some && port is Some && user is Some && password is None ==> r == Err::<
                DbConfig,
                ConfigVar,
            >(ConfigVar::Password),
            host is Some && port is Some && user is Some && password is Some && dbname is None
                ==> r == Err::<DbConfig, ConfigVar>(ConfigVar::Name),
    {
        let host = match host {
            Some(v) => v,
            None => return Err(ConfigVar::Host),
        };
        let port = match port {
            Some(v) => v,
            None => return Err(ConfigVar::Port),
        };
        let user = match user {
            Some(v) => v,
            None => return Err(ConfigVar::User),
        };
        let password = match password {
            Some(v) => v,
            None => return Err(ConfigVar::Password),
        };
        let dbname = match dbname {
            Some(v) => v,
            None => return Err(ConfigVar::Name),
        };
        Ok(DbConfig { host, port, user, password, dbname })
    }

    /// The connection descriptor handed to the database driver.
    pub fn connection_string(&self) -> (r: String)
        ensures
            r@ == connection_string_of(*self),
    {
        let mut s = String::from_str("host=");
        s.append(self.host.as_str());
        s.append(" port=");
        s.append(self.port.as_str());
        s.append(" user=");
        s.append(self.user.as_str());
        s.append(" password=");
        s.append(self.password.as_str());
        s.append(" dbname=");
        s.append(self.dbname.as_str());
        s.append(" sslmode=disable");
        s
    }
}

} // verus!
