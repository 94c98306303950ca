//! The backing store's connection configuration, and the connection string
//! it renders to. Reading the values from the environment is the
//! surrounding program's concern.

use vstd::prelude::*;
use vstd::string::StringExecFns;

use crate::text::{dec_digits, u32_string};

verus! {

/// The connection string in the backend's key/value form, built from the
/// five configured values.
pub open spec fn url_of(
    host: Seq<char>,
    port: nat,
    dbname: Seq<char>,
    user: Seq<char>,
    password: Seq<char>,
) -> Seq<char> {
    "host="@ + host + " port="@ + dec_digits(port) + " dbname="@ + dbname + " user="@ + user
        + " password="@ + password
}

/// Where and as whom to reach the backing store.
pub struct DbConfig {
    pub db_host: String,
    pub db_port: u32,
    pub db_name: String,
    pub db_user: String,
    pub db_password: String,
}

impl DbConfig {
    /// The connection string for this configuration.
    pub fn url(&self) -> (r: String)
        ensures
            r@ == url_of(
                self.db_host@,
                self.db_port as nat,
                self.db_name@,
                self.db_user@,
                self.db_password@,
            ),
    {
        let mut s = String::from_str("host=");
        s.append(self.db_host.as_str());
        s.append(" port=");
        let port = u32_string(self.db_port);
        s.append(port.as_str());
        s.append(" dbname=");
        s.append(self.db_name.as_str());
        s.append(" user=");
        s.append(self.db_user.as_str());
        s.append(" password=");
        s.append(self.db_password.as_str());
        s
    }
}

} // verus!
