//! The connection to the local client: what discovery published, the status
//! text shown for it, and the addresses and credentials of its REST interface.
use vstd::prelude::*;
use vstd::string::*;
use crate::text::same_text;

verus! {

/// Endpoint port and base64 credential of the running client.
#[derive(Clone, Debug)]
pub struct ConnectionInfo {
    pub port: u32,
    pub auth: String,
}

/// The character of decimal digit `d`.
pub open spec fn digit_char(d: nat) -> char {
    if d == 0 {
        '0'
    } else if d == 1 {
        '1'
    } else if d == 2 {
        '2'
    } else if d == 3 {
        '3'
    } else if d == 4 {
        '4'
    } else if d == 5 {
        '5'
    } else if d == 6 {
        '6'
    } else if d == 7 {
        '7'
    } else if d == 8 {
        '8'
    } else {
        '9'
    }
}

/// Decimal notation of `n`, without leading zeros.
pub open spec fn decimal_of(n: nat) -> Seq<char>
    decreases n,
{
    if n < 10 {
        seq![digit_char(n)]
    } else {
        decimal_of(n / 10) + seq![digit_char(n % 10)]
    }
}

fn digit_text(d: u32) -> (r: &'static str)
    requires
        d < 10,
    ensures
        r@ == seq![digit_char(d as nat)],
{
    proof {
        reveal_strlit("0");
        reveal_strlit("1");
        reveal_strlit("2");
        reveal_strlit("3");
        reveal_strlit("4");
        reveal_strlit("5");
        reveal_strlit("6");
        reveal_strlit("7");
        reveal_strlit("8");
        reveal_strlit("9");
    }
    let r = if d == 0 {
        "0"
    } else if d == 1 {
        "1"
    } else if d == 2 {
        "2"
    } else if d == 3 {
        "3"
    } else if d == 4 {
        "4"
    } else if d == 5 {
        "5"
    } else if d == 6 {
        "6"
    } else if d == 7 {
        "7"
    } else if d == 8 {
        "8"
    } else {
        "9"
    };
    assert(r@ =~= seq![digit_char(d as nat)]);
    r
}

/// Decimal notation of `n`.
pub fn decimal(n: u32) -> (r: String)
    ensures
        r@ == decimal_of(n as nat),
    decreases n,
{
    if n < 10 {
        String::from_str(digit_text(n))
    } else {
        let mut s = decimal(n / 10);
        s.append(digit_text(n % 10));
        s
    }
}

/// Base address of the client's REST interface on `port`.
pub open spec fn base_url_of(port: u32) -> Seq<char> {
    "https://127.0.0.1:"@ + decimal_of(port as nat)
}

/// The base address of the client's REST interface.
pub fn base_url(port: u32) -> (r: String)
    ensures
        r@ == base_url_of(port),
{
    let mut s = String::from_str("https://127.0.0.1:");
    let d = decimal(port);
    s.append(d.as_str());
    s
}

/// Address of resource `path` (starting with `/`) on the client.
pub fn resource_url(port: u32, path: &str) -> (r: String)
    ensures
        r@ == base_url_of(port) + path@,
{
    let mut s = base_url(port);
    s.append(path);
    s
}

/// Value of the `Authorization` header for credential `auth`.
pub fn auth_header_value(auth: &str) -> (r: String)
    ensures
        r@ == "Basic "@ + auth@,
{
    let mut s = String::from_str("Basic ");
    s.append(auth);
    s
}

/// What discovery last reported.
#[derive(Clone, Copy, PartialEq, Eq, Structural, Debug)]
pub enum ConnectionStatus {
    Connected { port: u32 },
    NotFound,
}

/// Status text shown for a connection status.
pub open spec fn connection_text(s: ConnectionStatus) -> Seq<char> {
    match s {
        ConnectionStatus::Connected { port } => "Connected to LeagueClient on "@ + base_url_of(port),
        ConnectionStatus::NotFound => "LeagueClient not found, may be closed."@,
    }
}

impl ConnectionStatus {
    /// The status text.
    pub fn text(&self) -> (r: String)
        ensures
            r@ == connection_text(*self),
    {
        match self {
            ConnectionStatus::Connected { port } => {
                let mut s = String::from_str("Connected to LeagueClient on ");
                let u = base_url(*port);
                s.append(u.as_str());
                proof {
                    assert(s@ =~= "Connected to LeagueClient on "@ + base_url_of(*port));
                }
                s
            },
            ConnectionStatus::NotFound => String::from_str("LeagueClient not found, may be closed."),
        }
    }
}

/// The connection the engine talks through, kept by the supervisor.
pub struct Connection {
    info: Option<ConnectionInfo>,
}

/// Two discoveries name the same endpoint and credential.
pub open spec fn same_info(a: ConnectionInfo, b: ConnectionInfo) -> bool {
    a.port == b.port && a.auth@ == b.auth@
}

impl Connection {
    /// The current connection, if any.
    pub closed spec fn info_view(&self) -> Option<ConnectionInfo> {
        self.info
    }

    /// No connection yet.
    pub fn new() -> (r: Connection)
        ensures
            r.info_view() is None,
    {
        Connection { info: None }
    }

    /// The current connection, if any.
    pub fn info(&self) -> (r: &Option<ConnectionInfo>)
        ensures
            *r == self.info_view(),
    {
        &self.info
    }

    /// The published status.
    pub fn status(&self) -> (r: ConnectionStatus)
        ensures
            self.info_view() is Some ==> r == (ConnectionStatus::Connected {
                port: self.info_view()->0.port,
            }),
            self.info_view() is None ==> r == ConnectionStatus::NotFound,
    {
        match &self.info {
            Some(i) => ConnectionStatus::Connected { port: i.port },
            None => ConnectionStatus::NotFound,
        }
    }

    /// Records one discovery attempt: a success replaces the connection
    /// wholesale, a failure drops it. Returns whether the endpoint or
    /// credential changed, in which case the HTTP client is rebuilt.
    pub fn on_discovery(&mut self, found: Option<ConnectionInfo>) -> (changed: bool)
        ensures
            final(self).info_view() == found,
            changed == match (old(self).info_view(), found) {
                (Some(a), Some(b)) => !same_info(a, b),
                (None, None) => false,
                _ => true,
            },
    {
        let changed = match (&self.info, &found) {
            (Some(a), Some(b)) => !(a.port == b.port && same_text(a.auth.as_str(), b.auth.as_str())),
            (None, None) => false,
            _ => true,
        };
        self.info = found;
        changed
    }
}

} // verus!
