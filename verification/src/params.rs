//! Connection parameters, and how a sandbox's parameters come from the
//! server's.

use crate::naming::SandboxIdentity;
use vstd::prelude::*;

verus! {

/// How a connection is secured. `H` is whatever performs the handshake; the
/// library only carries it.
#[derive(Debug, PartialEq, Eq)]
pub enum TlsMode<H> {
    /// No encryption.
    Plain,
    /// Encrypt if the server supports it.
    Prefer(H),
    /// Refuse to connect without encryption.
    Require(H),
}

/// A second handle on the same mode: the same variant with the same
/// handshake.
pub fn clone_tls_mode<H: Copy>(tls_mode: &TlsMode<H>) -> (copy: TlsMode<H>)
    ensures
        copy == *tls_mode,
{
    match tls_mode {
        TlsMode::Plain => TlsMode::Plain,
        TlsMode::Prefer(handshake) => TlsMode::Prefer(*handshake),
        TlsMode::Require(handshake) => TlsMode::Require(*handshake),
    }
}

/// Where and as whom to connect.
#[derive(Clone, Debug, PartialEq, Eq)]
pub struct ConnectionParams {
    pub host: String,
    pub port: u16,
    pub user: String,
    pub password: Option<String>,
    pub database: String,
    /// Connect timeout in milliseconds, if any.
    pub connect_timeout: Option<u64>,
    /// Extra options, in the order in which they were given.
    pub options: Vec<(String, String)>,
}

/// The mathematical value of a [`ConnectionParams`].
pub struct ConnectionParamsView {
    pub host: Seq<char>,
    pub port: u16,
    pub user: Seq<char>,
    pub password: Option<Seq<char>>,
    pub database: Seq<char>,
    pub connect_timeout: Option<u64>,
    pub options: Seq<(Seq<char>, Seq<char>)>,
}

/// The options as pairs of character sequences, in order.
pub open spec fn options_view(options: Seq<(String, String)>) -> Seq<(Seq<char>, Seq<char>)> {
    options.map_values(|kv: (String, String)| (kv.0@, kv.1@))
}

/// No key occurs twice among `options`.
pub open spec fn keys_unique(options: Seq<(Seq<char>, Seq<char>)>) -> bool {
    forall|i: int, j: int|
        0 <= i < j < options.len() ==> (#[trigger] options[i]).0 != (#[trigger] options[j]).0
}

/// The position of `key` among `options`, if it is there.
pub open spec fn has_key(options: Seq<(Seq<char>, Seq<char>)>, key: Seq<char>) -> bool {
    exists|i: int| 0 <= i < options.len() && (#[trigger] options[i]).0 == key
}

impl View for ConnectionParams {
    type V = ConnectionParamsView;

    open spec fn view(&self) -> ConnectionParamsView {
        ConnectionParamsView {
            host: self.host@,
            port: self.port,
            user: self.user@,
            password: match self.password {
                Some(p) => Some(p@),
                None => None,
            },
            database: self.database@,
            connect_timeout: self.connect_timeout,
            options: options_view(self.options@),
        }
    }
}

impl ConnectionParamsView {
    /// The same server, entered as the sandbox's role into the sandbox's
    /// database: host, port, timeout and options are kept.
    pub open spec fn for_sandbox(self, role: Seq<char>, password: Seq<char>, database: Seq<char>)
        -> ConnectionParamsView {
        ConnectionParamsView { user: role, password: Some(password), database, ..self }
    }
}

impl ConnectionParams {
    /// Option keys are unique.
    pub open spec fn wf(&self) -> bool {
        keys_unique(self@.options)
    }

    /// Parameters without timeout or options.
    pub fn new(host: String, port: u16, user: String, password: Option<String>, database: String)
        -> (params: ConnectionParams)
        ensures
            params.wf(),
            params.host == host,
            params.port == port,
            params.user == user,
            params.password == password,
            params.database == database,
            params.connect_timeout is None,
            params.options@.len() == 0,
    {
        ConnectionParams {
            host,
            port,
            user,
            password,
            database,
            connect_timeout: None,
            options: Vec::new(),
        }
    }

    /// The parameters with which to reach a server that was just started
    /// on this machine: the stock superuser and database, on `port`.
    pub fn local_server(port: u16) -> (params: ConnectionParams)
        ensures
            params.wf(),
            params@ == (ConnectionParamsView {
                host: "localhost"@,
                port,
                user: "postgres"@,
                password: None,
                database: "postgres"@,
                connect_timeout: None,
                options: Seq::empty(),
            }),
    {
        let params = ConnectionParams::new(
            "localhost".to_string(),
            port,
            "postgres".to_string(),
            None,
            "postgres".to_string(),
        );
        assert(params@.options =~= Seq::empty());
        params
    }

    /// Adds the option `key` with `value` at the end. Returns the parameters
    /// unchanged, as the error, where the key is already taken.
    pub fn with_option(self, key: String, value: String) -> (r: Result<
        ConnectionParams,
        ConnectionParams,
    >)
        requires
            self.wf(),
        ensures
            has_key(self@.options, key@) <==> r is Err,
            r matches Err(same) ==> same == self,
            r matches Ok(params) ==> params.wf() && params@ == (ConnectionParamsView {
                options: self@.options.push((key@, value@)),
                ..self@
            }),
    {
        let mut i: usize = 0;
        while i < self.options.len()
            invariant
                i <= self.options.len(),
                forall|k: int| 0 <= k < i ==> (#[trigger] self@.options[k]).0 != key@,
            decreases self.options.len() - i,
        {
            if self.options[i].0 == key {
                assert(self@.options[i as int].0 == key@);
                return Err(self);
            }
            i += 1;
        }
        let ghost before = self@;
        let mut params = self;
        params.options.push((key, value));
        assert(params@.options =~= before.options.push((key@, value@)));
        Ok(params)
    }

    /// The sandbox's parameters on the server that `self` leads to: the
    /// same host, port, timeout and options; user, password and database are
    /// those of `identity`.
    pub fn for_sandbox(&self, identity: &SandboxIdentity) -> (params: ConnectionParams)
        ensures
            params@ == self@.for_sandbox(identity.role@, identity.password@, identity.database@),
            self.wf() ==> params.wf(),
    {
        let mut options: Vec<(String, String)> = Vec::new();
        let mut i: usize = 0;
        while i < self.options.len()
            invariant
                i <= self.options.len(),
                options@.len() == i,
                forall|k: int|
                    0 <= k < i ==> (#[trigger] options@[k]).0@ == self.options@[k].0@
                        && options@[k].1@ == self.options@[k].1@,
            decreases self.options.len() - i,
        {
            let key = self.options[i].0.clone();
            let value = self.options[i].1.clone();
            options.push((key, value));
            i += 1;
        }
        assert(options_view(options@) =~= options_view(self.options@));
        ConnectionParams {
            host: self.host.clone(),
            port: self.port,
            user: identity.role.clone(),
            password: Some(identity.password.clone()),
            database: identity.database.clone(),
            connect_timeout: self.connect_timeout,
            options,
        }
    }
}

} // verus!
