//! Targets, actions and the host platform.
use vstd::prelude::*;

verus! {

/// One database service that the tool manages.
#[derive(PartialEq, Eq, Structural, Clone, Copy, Debug)]
pub enum Service {
    MongoDB,
    Neo4j,
    Postgres,
}

/// What an action applies to: every service, or one of them.
#[derive(PartialEq, Eq, Structural, Clone, Copy, Debug)]
pub enum PerformOn {
    All,
    MongoDB,
    Neo4j,
    Postgres,
}

/// The two things the tool can do to a target.
#[derive(PartialEq, Eq, Structural, Clone, Copy, Debug)]
pub enum Action {
    Setup(PerformOn),
    Teardown(PerformOn),
}

/// The platform of the host, which selects the shell convention.
#[derive(PartialEq, Eq, Structural, Clone, Copy, Debug)]
pub enum OS {
    Windows,
    Unix,
}

/// The services that a target stands for, in the order they are visited.
pub open spec fn spec_services(t: PerformOn) -> Seq<Service> {
    match t {
        PerformOn::All => seq![Service::MongoDB, Service::Neo4j, Service::Postgres],
        PerformOn::MongoDB => seq![Service::MongoDB],
        PerformOn::Neo4j => seq![Service::Neo4j],
        PerformOn::Postgres => seq![Service::Postgres],
    }
}

/// The services of a target.
pub fn services(t: PerformOn) -> (r: Vec<Service>)
    ensures
        r@ == spec_services(t),
{
    match t {
        PerformOn::All => vec![Service::MongoDB, Service::Neo4j, Service::Postgres],
        PerformOn::MongoDB => vec![Service::MongoDB],
        PerformOn::Neo4j => vec![Service::Neo4j],
        PerformOn::Postgres => vec![Service::Postgres],
    }
}

/// `All` stands for every service exactly once; any other target for its own service.
pub proof fn lemma_services_of_target(t: PerformOn, s: Service)
    ensures
        spec_services(t).no_duplicates(),
        t == PerformOn::All ==> spec_services(t).contains(s),
        t == PerformOn::All ==> spec_services(t).len() == 3,
        t != PerformOn::All ==> spec_services(t).len() == 1,
{
    let q = spec_services(t);
    if t == PerformOn::All {
        assert(q[0] == Service::MongoDB && q[1] == Service::Neo4j && q[2] == Service::Postgres);
        match s {
            Service::MongoDB => assert(q[0] == s),
            Service::Neo4j => assert(q[1] == s),
            Service::Postgres => assert(q[2] == s),
        }
    }
}

/// The shell program of a platform and the flag that makes it run one string and exit.
pub open spec fn spec_shell(os: OS) -> (Seq<char>, Seq<char>) {
    match os {
        OS::Windows => ("cmd"@, "/C"@),
        OS::Unix => ("sh"@, "-c"@),
    }
}

/// The shell program and its run-string flag for a platform: `cmd /C` or `sh -c`.
pub fn shell_program(os: OS) -> (r: (String, String))
    ensures
        r.0@ == spec_shell(os).0,
        r.1@ == spec_shell(os).1,
{
    match os {
        OS::Windows => (String::from_str("cmd"), String::from_str("/C")),
        OS::Unix => (String::from_str("sh"), String::from_str("-c")),
    }
}

} // verus!
