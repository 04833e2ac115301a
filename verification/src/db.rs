//! Where the database of users is found.

use crate::text::value_or;
use vstd::prelude::*;
use vstd::string::StringExecFns;

verus! {

/// How to reach the database.
#[derive(Debug, Clone, PartialEq, Eq)]
pub struct DbSettings {
    pub db_user: String,
    pub password: String,
    pub host: String,
    pub port: String,
    pub db_name: String,
}

/// The address of the database with these settings: the password is left
/// out, with its colon, where it is empty.
pub open spec fn db_url_spec(
    db_user: Seq<char>,
    password: Seq<char>,
    host: Seq<char>,
    port: Seq<char>,
    db_name: Seq<char>,
) -> Seq<char> {
    let login = if password.len() == 0 {
        db_user
    } else {
        db_user + ":"@ + password
    };
    "postgresql://"@ + login + "@"@ + host + ":"@ + port + "/"@ + db_name + "?sslmode=require"@
}

impl DbSettings {
    /// The settings from what the environment gives, each with its default
    /// where the environment gives nothing: user `postgres`, no password,
    /// host `localhost`, port `5432`, database `database_name`.
    pub fn from_values(
        db_user: Option<String>,
        password: Option<String>,
        host: Option<String>,
        port: Option<String>,
        db_name: Option<String>,
    ) -> (settings: DbSettings)
        ensures
            settings.db_user@ == (match db_user {
                Some(given) => given@,
                None => "postgres"@,
            }),
            settings.password@ == (match password {
                Some(given) => given@,
                None => ""@,
            }),
            settings.host@ == (match host {
                Some(given) => given@,
                None => "localhost"@,
            }),
            settings.port@ == (match port {
                Some(given) => given@,
                None => "5432"@,
            }),
            settings.db_name@ == (match db_name {
                Some(given) => given@,
                None => "database_name"@,
            }),
    {
        DbSettings {
            db_user: value_or(db_user, "postgres"),
            password: value_or(password, ""),
            host: value_or(host, "localhost"),
            port: value_or(port, "5432"),
            db_name: value_or(db_name, "database_name"),
        }
    }

    /// The address under which the database is reached.
    pub fn get_db_url(&self) -> (connection_url: String)
        ensures
            connection_url@ == db_url_spec(
                self.db_user@,
                self.password@,
                self.host@,
                self.port@,
                self.db_name@,
            ),
    {
        let mut connection_url = String::from_str("postgresql://");
        connection_url.append(self.db_user.as_str());
        if !self.password.as_str().is_empty() {
            connection_url.append(":");
            connection_url.append(self.password.as_str());
        }
        connection_url.append("@");
        connection_url.append(self.host.as_str());
        connection_url.append(":");
        connection_url.append(self.port.as_str());
        connection_url.append("/");
        connection_url.append(self.db_name.as_str());
        connection_url.append("?sslmode=require");
        assert(connection_url@ =~= db_url_spec(
            self.db_user@,
            self.password@,
            self.host@,
            self.port@,
            self.db_name@,
        ));
        connection_url
    }
}

} // verus!
