use vstd::prelude::*;

use crate::text::string_of;

verus! {

pub open spec fn digit_char(d: nat) -> char {
    ((d + 48) as u8) as char
}

/// The decimal digits of `n`, most significant first, without leading zeros.
pub open spec fn decimal(n: nat) -> Seq<char>
    decreases n,
{
    if n < 10 {
        seq![digit_char(n)]
    } else {
        decimal(n / 10).push(digit_char(n % 10))
    }
}

/// The decimal digits of `n`.
pub fn decimal_chars(n: u16) -> (r: Vec<char>)
    ensures
        r@ == decimal(n as nat),
    decreases n,
{
    if n < 10 {
        let d = ((n as u8) + 48) as char;
        vec![d]
    } else {
        let mut v = decimal_chars(n / 10);
        let d = (((n % 10) as u8) + 48) as char;
        v.push(d);
        v
    }
}

/// Where the service listens and which store it reads.
pub struct AppConfig {
    host: String,
    port: u16,
    pub mongo_uri: String,
    pub mongo_db: String,
}

impl AppConfig {
    pub closed spec fn host_view(&self) -> Seq<char> {
        self.host@
    }

    pub closed spec fn port_view(&self) -> u16 {
        self.port
    }

    pub closed spec fn mongo_uri_view(&self) -> Seq<char> {
        self.mongo_uri@
    }

    pub closed spec fn mongo_db_view(&self) -> Seq<char> {
        self.mongo_db@
    }

    /// A configuration from the values given, each defaulted where it is absent:
    /// host `0.0.0.0`, port 8080, store `mongodb://localhost:27017`, database `verbumdei`.
    pub fn from_values(
        host: Option<String>,
        port: Option<u16>,
        mongo_uri: Option<String>,
        mongo_db: Option<String>,
    ) -> (r: AppConfig)
        ensures
            r.host_view() == (match host {
                Some(h) => h@,
                None => "0.0.0.0"@,
            }),
            r.port_view() == (match port {
                Some(p) => p,
                None => 8080,
            }),
            r.mongo_uri_view() == (match mongo_uri {
                Some(u) => u@,
                None => "mongodb://localhost:27017"@,
            }),
            r.mongo_db_view() == (match mongo_db {
                Some(d) => d@,
                None => "verbumdei"@,
            }),
    {
        AppConfig {
            host: match host {
                Some(h) => h,
                None => "0.0.0.0".to_owned(),
            },
            port: match port {
                Some(p) => p,
                None => 8080,
            },
            mongo_uri: match mongo_uri {
                Some(u) => u,
                None => "mongodb://localhost:27017".to_owned(),
            },
            mongo_db: match mongo_db {
                Some(d) => d,
                None => "verbumdei".to_owned(),
            },
        }
    }

    /// The address to listen on: `host:port`.
    pub fn address(&self) -> (r: String)
        ensures
            r@ == self.host_view() + ":"@ + decimal(self.port_view() as nat),
    {
        let mut s = self.host.clone();
        s.append(":");
        let digits = string_of(&decimal_chars(self.port));
        s.append(digits.as_str());
        s
    }
}

} // verus!
