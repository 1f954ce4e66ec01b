//! The statements that build and remove a sandbox.

use crate::naming::SandboxIdentity;
use vstd::prelude::*;
use vstd::string::StringExecFns;

verus! {

/// One statement sent over the administrative connection. Each is sent on
/// its own: a database can be neither created nor dropped inside the
/// transaction that wraps a batch of several statements.
#[derive(Clone, Copy, Debug, PartialEq, Eq, Structural)]
pub enum Statement {
    CreateRole,
    CreateDatabase,
    RevokePublic,
    DropDatabase,
    DropRole,
}

/// The text of `statement` for a sandbox with these names. Names stand in
/// double quotes, the password in single quotes, neither escaped: they are
/// meant to be plain identifiers.
pub open spec fn statement_text(
    statement: Statement,
    role: Seq<char>,
    database: Seq<char>,
    password: Seq<char>,
) -> Seq<char> {
    match statement {
        Statement::CreateRole => "CREATE ROLE \""@ + role
            + "\"\n            NOSUPERUSER NOCREATEDB NOCREATEROLE NOINHERIT\n            LOGIN ENCRYPTED PASSWORD '"@
            + password + "';"@,
        Statement::CreateDatabase => "CREATE DATABASE \""@ + database + "\" WITH OWNER=\""@ + role
            + "\";"@,
        Statement::RevokePublic => "REVOKE ALL ON DATABASE \""@ + database + "\" FROM public;"@,
        Statement::DropDatabase => "DROP DATABASE \""@ + database + "\";"@,
        Statement::DropRole => "DROP ROLE \""@ + role + "\";"@,
    }
}

impl Statement {
    /// Whether the statement removes something.
    pub open spec fn is_drop(self) -> bool {
        self == Statement::DropDatabase || self == Statement::DropRole
    }

    /// The statement's text for the sandbox `identity`.
    pub fn sql(self, identity: &SandboxIdentity) -> (text: String)
        ensures
            text@ == statement_text(self, identity.role@, identity.database@, identity.password@),
    {
        match self {
            Statement::CreateRole => {
                let mut text = "CREATE ROLE \"".to_string();
                text.append(identity.role.as_str());
                text.append(
                    "\"\n            NOSUPERUSER NOCREATEDB NOCREATEROLE NOINHERIT\n            LOGIN ENCRYPTED PASSWORD '",
                );
                text.append(identity.password.as_str());
                text.append("';");
                text
            },
            Statement::CreateDatabase => {
                let mut text = "CREATE DATABASE \"".to_string();
                text.append(identity.database.as_str());
                text.append("\" WITH OWNER=\"");
                text.append(identity.role.as_str());
                text.append("\";");
                text
            },
            Statement::RevokePublic => {
                let mut text = "REVOKE ALL ON DATABASE \"".to_string();
                text.append(identity.database.as_str());
                text.append("\" FROM public;");
                text
            },
            Statement::DropDatabase => {
                let mut text = "DROP DATABASE \"".to_string();
                text.append(identity.database.as_str());
                text.append("\";");
                text
            },
            Statement::DropRole => {
                let mut text = "DROP ROLE \"".to_string();
                text.append(identity.role.as_str());
                text.append("\";");
                text
            },
        }
    }
}

} // verus!
