//! An alternate connection configuration kept alongside `DbConfig`: the same
//! five values and the same rendering.

use vstd::prelude::*;
use vstd::string::StringExecFns;

use crate::config::database::url_of;
use crate::text::u32_string;

verus! {

/// Where and as whom to reach the backing store.
pub struct Config {
    pub db_host: String,
    pub db_port: u32,
    pub db_name: String,
    pub db_user: String,
    pub db_password: String,
}

impl Config {
    /// The connection string for this configuration.
    pub fn url(&self) -> (r: String)
        ensures
            r@ == url_of(
                self.db_host@,
                self.db_port as nat,
                self.db_name@,
                self.db_user@,
                self.db_password@,
            ),
    {
        let mut s = String::from_str("host=");
        s.append(self.db_host.as_str());
        s.append(" port=");
        let port = u32_string(self.db_port);
        s.append(port.as_str());
        s.append(" dbname=");
        s.append(self.db_name.as_str());
        s.append(" user=");
        s.append(self.db_user.as_str());
        s.append(" password=");
        s.append(self.db_password.as_str());
        s
    }
}

} // verus!
