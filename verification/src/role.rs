use vstd::prelude::*;
use vstd::string::StringExecFns;

use crate::error::TlsError;

verus! {

/// The two sides of a mutually authenticated session.
#[derive(Clone, Copy, Debug, PartialEq, Eq, Structural)]
pub enum Role {
    /// Accepts connections and demands a certificate from every peer.
    Server,
    /// Opens one connection and presents its own identity.
    Client,
}

/// The role that a word names: `server` and `client`, spelled exactly so.
pub open spec fn role_named(word: Seq<char>) -> Option<Role> {
    if word == "server"@ {
        Some(Role::Server)
    } else if word == "client"@ {
        Some(Role::Client)
    } else {
        None
    }
}

/// The role that a command line selects. The first entry is the program's
/// own name; the role is the entry after it.
pub open spec fn role_selected(args: Seq<Seq<char>>) -> Option<Role> {
    if args.len() < 2 {
        None
    } else {
        role_named(args[1])
    }
}

impl Role {
    /// Reads a role from one word.
    pub fn from_word(word: &String) -> (r: Option<Role>)
        ensures
            r == role_named(word@),
    {
        let server = String::from_str("server");
        let client = String::from_str("client");
        if *word == server {
            Some(Role::Server)
        } else if *word == client {
            Some(Role::Client)
        } else {
            None
        }
    }

    /// Reads the role from a command line. A missing word and a word that
    /// names no role are both refused with `UnknownRole`.
    pub fn select(args: &Vec<String>) -> (r: Result<Role, TlsError>)
        ensures
            r == match role_selected(args@.map_values(|s: String| s@)) {
                Some(role) => Ok::<Role, TlsError>(role),
                None => Err::<Role, TlsError>(TlsError::UnknownRole),
            },
    {
        if args.len() < 2 {
            return Err(TlsError::UnknownRole);
        }
        match Role::from_word(&args[1]) {
            Some(role) => Ok(role),
            None => Err(TlsError::UnknownRole),
        }
    }

    /// The side that this side authenticates.
    pub fn peer(&self) -> (r: Role)
        ensures
            r != *self,
    {
        match self {
            Role::Server => Role::Client,
            Role::Client => Role::Server,
        }
    }
}

} // verus!
