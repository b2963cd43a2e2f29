//! The configuration of one invocation: the action from the command line and
//! the two addresses from the environment. Every check here comes before any
//! command runs or any request is sent.
use vstd::prelude::*;
use crate::target::{Action, PerformOn};

verus! {

/// What one invocation is asked to do, and where to register the database.
/// Only `configure` makes one, so a value of it means both addresses were given.
pub struct Config {
    action: Action,
    backend_addr: String,
    db_addr: String,
}

impl Config {
    pub closed spec fn spec_action(&self) -> Action {
        self.action
    }

    pub closed spec fn spec_backend_addr(&self) -> Seq<char> {
        self.backend_addr@
    }

    pub closed spec fn spec_db_addr(&self) -> Seq<char> {
        self.db_addr@
    }

    pub fn action(&self) -> (r: Action)
        ensures
            r == self.spec_action(),
    {
        self.action
    }

    /// The host of the coordination backend.
    pub fn backend_addr(&self) -> (r: &str)
        ensures
            r@ == self.spec_backend_addr(),
    {
        self.backend_addr.as_str()
    }

    /// The address under which this host's database is registered.
    pub fn db_addr(&self) -> (r: &str)
        ensures
            r@ == self.spec_db_addr(),
    {
        self.db_addr.as_str()
    }
}

/// Why an invocation cannot start.
#[derive(PartialEq, Eq, Structural, Clone, Copy, Debug)]
pub enum ConfigError {
    /// `BACKEND_ADDR` is not set.
    MissingBackendAddr,
    /// `DB_ADDR` is not set.
    MissingDbAddr,
    /// The arguments are not `<setup|teardown> [postgres|mongodb|neo4j]`.
    Usage,
}

impl ConfigError {
    /// The exit status of a process that stops on this error.
    pub fn exit_code(&self) -> (r: i32)
        ensures
            r == 1,
    {
        1
    }
}

/// The action that the arguments (without the program name) name, if any.
pub open spec fn spec_parse_action(args: Seq<Seq<char>>) -> Option<Action> {
    let target = if args.len() == 1 {
        Some(PerformOn::All)
    } else if args.len() == 2 && args[1] == "postgres"@ {
        Some(PerformOn::Postgres)
    } else if args.len() == 2 && args[1] == "mongodb"@ {
        Some(PerformOn::MongoDB)
    } else if args.len() == 2 && args[1] == "neo4j"@ {
        Some(PerformOn::Neo4j)
    } else {
        None
    };
    match target {
        None => None,
        Some(t) => if args[0] == "setup"@ {
            Some(Action::Setup(t))
        } else if args[0] == "teardown"@ {
            Some(Action::Teardown(t))
        } else {
            None
        },
    }
}

/// The texts of the arguments.
pub open spec fn views(args: Seq<String>) -> Seq<Seq<char>> {
    args.map_values(|s: String| s@)
}

fn is_word(s: &String, w: &str) -> (r: bool)
    ensures
        r == (s@ == w@),
{
    let w = String::from_str(w);
    *s == w
}

/// Reads the action from the arguments that follow the program name.
pub fn parse_action(args: &Vec<String>) -> (r: Option<Action>)
    ensures
        r == spec_parse_action(views(args@)),
{
    let ghost a = views(args@);
    if args.len() == 0 || args.len() > 2 {
        return None;
    }
    assert(a[0] == args@[0]@);
    let target = if args.len() == 1 {
        PerformOn::All
    } else {
        assert(a[1] == args@[1]@);
        if is_word(&args[1], "postgres") {
            PerformOn::Postgres
        } else if is_word(&args[1], "mongodb") {
            PerformOn::MongoDB
        } else if is_word(&args[1], "neo4j") {
            PerformOn::Neo4j
        } else {
            return None;
        }
    };
    if is_word(&args[0], "setup") {
        Some(Action::Setup(target))
    } else if is_word(&args[0], "teardown") {
        Some(Action::Teardown(target))
    } else {
        None
    }
}

/// The configuration of an invocation from its environment values and its
/// arguments. A missing address is reported first, `BACKEND_ADDR` before
/// `DB_ADDR`, then an argument list that names no action.
pub fn configure(backend_addr: Option<String>, db_addr: Option<String>, args: &Vec<String>) -> (r: Result<Config, ConfigError>)
    ensures
        backend_addr is None ==> r matches Err(ConfigError::MissingBackendAddr),
        backend_addr is Some && db_addr is None ==> r matches Err(ConfigError::MissingDbAddr),
        backend_addr is Some && db_addr is Some && spec_parse_action(views(args@)) is None ==> r matches Err(ConfigError::Usage),
        r matches Ok(c) ==> Some(c.spec_action()) == spec_parse_action(views(args@)),
        r matches Ok(c) ==> (backend_addr matches Some(b) && c.spec_backend_addr() == b@),
        r matches Ok(c) ==> (db_addr matches Some(d) && c.spec_db_addr() == d@),
        (backend_addr is Some && db_addr is Some && spec_parse_action(views(args@)) is Some) ==> r is Ok,
{
    let backend_addr = match backend_addr {
        None => return Err(ConfigError::MissingBackendAddr),
        Some(b) => b,
    };
    let db_addr = match db_addr {
        None => return Err(ConfigError::MissingDbAddr),
        Some(d) => d,
    };
    match parse_action(args) {
        None => Err(ConfigError::Usage),
        Some(action) => Ok(Config { action, backend_addr, db_addr }),
    }
}

} // verus!
