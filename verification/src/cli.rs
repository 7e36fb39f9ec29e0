//! The server's settings, and the connection strings derived from them.
use vstd::prelude::*;
use crate::text::{decimal, is_ws, is_whitespace, push_decimal};

verus! {

/// The settings the server is started with.
#[derive(Debug, Clone)]
pub struct Cli {
    pub web_port: u16,
    pub mongo_address: String,
    pub mongo_login: Option<String>,
    pub mongo_password: Option<String>,
    pub mongo_port: u16,
    pub redis_login: Option<String>,
    pub redis_password: Option<String>,
    pub redis_port: u16,
    pub redis_address: String,
    pub smtp_login: String,
    pub smtp_password: String,
    pub smtp_address: String,
    pub smtp_address_from: Option<String>,
}

/// The text held by an optional string, or the empty text.
pub open spec fn or_empty(s: Option<String>) -> Seq<char> {
    match s {
        Some(v) => v@,
        None => seq![],
    }
}

/// Whether a text is empty once surrounding whitespace is removed.
pub open spec fn blank(s: Seq<char>) -> bool {
    forall|i: int| 0 <= i < s.len() ==> is_ws(#[trigger] s[i])
}

/// The MongoDB connection string for these settings; credentials appear only
/// when both login and password are non-empty.
pub open spec fn mongo_uri(c: Cli) -> Seq<char> {
    let login = or_empty(c.mongo_login);
    let password = or_empty(c.mongo_password);
    let auth = if login.len() > 0 && password.len() > 0 {
        login + ":"@ + password + "@"@
    } else {
        seq![]
    };
    "mongodb://"@ + auth + c.mongo_address@ + ":"@ + decimal(c.mongo_port as nat)
}

/// The Redis connection string with credentials.
pub open spec fn redis_uri(c: Cli) -> Seq<char> {
    "redis://"@ + or_empty(c.redis_login) + ":"@ + or_empty(c.redis_password) + "@"@
        + c.redis_address@ + ":"@ + decimal(c.redis_port as nat)
}

/// The sender address: the configured one unless it is absent or blank, in
/// which case the SMTP login.
pub open spec fn smtp_sender(c: Cli) -> Seq<char> {
    match c.smtp_address_from {
        Some(v) => if blank(v@) {
            c.smtp_login@
        } else {
            v@
        },
        None => c.smtp_login@,
    }
}

fn text_or_empty(s: &Option<String>) -> (r: String)
    ensures
        r@ == or_empty(*s),
{
    match s {
        Some(v) => v.clone(),
        None => String::new(),
    }
}

/// Whether every character of `s` is whitespace.
pub fn is_blank(s: &str) -> (b: bool)
    ensures
        b == blank(s@),
{
    let n = s.unicode_len();
    let mut i: usize = 0;
    while i < n
        invariant
            n == s@.len(),
            0 <= i <= n,
            forall|j: int| 0 <= j < i ==> is_ws(#[trigger] s@[j]),
        decreases n - i,
    {
        if !is_whitespace(s.get_char(i)) {
            return false;
        }
        i = i + 1;
    }
    true
}

impl Cli {
    /// The MongoDB connection string.
    pub fn mongo_adress(&self) -> (r: String)
        ensures
            r@ == mongo_uri(*self),
    {
        let login = text_or_empty(&self.mongo_login);
        let password = text_or_empty(&self.mongo_password);
        let mut out = String::from_str("mongodb://");
        if login.unicode_len() > 0 && password.unicode_len() > 0 {
            out.append(login.as_str());
            out.append(":");
            out.append(password.as_str());
            out.append("@");
        }
        out.append(self.mongo_address.as_str());
        out.append(":");
        push_decimal(&mut out, self.mongo_port);
        proof {
            reveal_strlit("mongodb://");
        }
        assert(out@ =~= mongo_uri(*self));
        out
    }

    /// The port the web server listens on.
    pub fn web_port(&self) -> (r: u16)
        ensures
            r == self.web_port,
    {
        self.web_port
    }

    /// The Redis connection string with credentials.
    pub fn redis_adress(&self) -> (r: String)
        ensures
            r@ == redis_uri(*self),
    {
        let mut out = String::from_str("redis://");
        let login = text_or_empty(&self.redis_login);
        let password = text_or_empty(&self.redis_password);
        out.append(login.as_str());
        out.append(":");
        out.append(password.as_str());
        out.append("@");
        out.append(self.redis_address.as_str());
        out.append(":");
        push_decimal(&mut out, self.redis_port);
        assert(out@ =~= redis_uri(*self));
        out
    }

    /// The Redis connection string without credentials.
    pub fn redis_adress_simple(&self) -> (r: String)
        ensures
            r@ == "redis://"@ + self.redis_address@ + "/"@,
    {
        let mut out = String::from_str("redis://");
        out.append(self.redis_address.as_str());
        out.append("/");
        out
    }

    /// The SMTP settings: sender, relay address, login and password.
    pub fn smtp(&self) -> (r: (String, String, String, String))
        ensures
            r.0@ == smtp_sender(*self),
            r.1 == self.smtp_address,
            r.2 == self.smtp_login,
            r.3 == self.smtp_password,
    {
        let from = match &self.smtp_address_from {
            Some(v) => if is_blank(v.as_str()) {
                self.smtp_login.clone()
            } else {
                v.clone()
            },
            None => self.smtp_login.clone(),
        };
        (from, self.smtp_address.clone(), self.smtp_login.clone(), self.smtp_password.clone())
    }
}

} // verus!
