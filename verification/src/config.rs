//! Connection parameters and what is derived from them.

use crate::text::{decimal, push_decimal};
use vstd::prelude::*;
use vstd::string::*;

verus! {

/// The parameters of one connection, as the client supplies them.
pub struct DatabaseConfig {
    pub host: String,
    pub port: u16,
    pub user: String,
    pub connection_name: String,
    pub password: String,
    pub database: String,
    pub db_type: String,
}

/// The mathematical value of a [`DatabaseConfig`].
pub struct DatabaseConfigView {
    pub host: Seq<char>,
    pub port: u16,
    pub user: Seq<char>,
    pub connection_name: Seq<char>,
    pub password: Seq<char>,
    pub database: Seq<char>,
    pub db_type: Seq<char>,
}

impl View for DatabaseConfig {
    type V = DatabaseConfigView;

    open spec fn view(&self) -> DatabaseConfigView {
        DatabaseConfigView {
            host: self.host@,
            port: self.port,
            user: self.user@,
            connection_name: self.connection_name@,
            password: self.password@,
            database: self.database@,
            db_type: self.db_type@,
        }
    }
}

/// The identifier under which a connection to `database` on `host` is
/// registered: the host, a colon, the database.
pub open spec fn connection_id_of(host: Seq<char>, database: Seq<char>) -> Seq<char> {
    host + ":"@ + database
}

/// The keyword/value string handed to the driver to open the connection.
pub open spec fn connection_string_of(config: DatabaseConfigView) -> Seq<char> {
    "host="@ + config.host + " port="@ + decimal(config.port as nat) + " user="@ + config.user
        + " password="@ + config.password + " dbname="@ + config.database
}

impl DatabaseConfig {
    /// The identifier of the connection that these parameters describe. Two
    /// configurations with the same host and database share it.
    pub fn connection_id(&self) -> (id: String)
        ensures
            id@ == connection_id_of(self@.host, self@.database),
    {
        let mut id = self.host.clone();
        id.append(":");
        id.append(self.database.as_str());
        id
    }

    /// The connection string for the driver.
    pub fn connection_string(&self) -> (text: String)
        ensures
            text@ == connection_string_of(self@),
    {
        let mut text = String::from_str("host=");
        text.append(self.host.as_str());
        text.append(" port=");
        push_decimal(&mut text, self.port);
        text.append(" user=");
        text.append(self.user.as_str());
        text.append(" password=");
        text.append(self.password.as_str());
        text.append(" dbname=");
        text.append(self.database.as_str());
        text
    }
}

} // verus!
