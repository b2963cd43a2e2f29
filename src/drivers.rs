//! Service drivers: the fixed container commands of each service.
//!
//! Setup and teardown of a service are each a list of steps. A step is a shell
//! command line, the opening of a connection to the new Postgres instance, or
//! one statement of the schema script over that connection.
use vstd::prelude::*;
use crate::schema::{schema_script, spec_schema_script, SchemaOp};
use crate::target::Service;

verus! {

/// The secrets that the service commands need, loaded once per run.
pub struct Credentials {
    pub postgres_password: String,
    pub neo4j_password: String,
}

/// One step of a service's setup or teardown.
#[derive(Debug)]
pub enum Step {
    /// Run a command line through the host's shell.
    Command(String),
    /// Connect to the Postgres instance at this URL.
    Connect(String),
    /// Execute one statement of the schema script on the open connection.
    Execute(SchemaOp),
}

/// The kind of a step, which is all the run's decisions read of it.
#[derive(PartialEq, Eq, Structural, Clone, Copy, Debug)]
pub enum StepKind {
    Command,
    Connect,
    Execute,
}

/// The kind of a step.
pub open spec fn kind_of(s: Step) -> StepKind {
    match s {
        Step::Command(_) => StepKind::Command,
        Step::Connect(_) => StepKind::Connect,
        Step::Execute(_) => StepKind::Execute,
    }
}

/// The steps of one service, under the service they belong to.
pub struct Job {
    pub service: Service,
    pub steps: Vec<Step>,
}

/// The container name under which a service runs; teardown finds it by this name.
pub open spec fn container_name(s: Service) -> Seq<char> {
    match s {
        Service::MongoDB => "polyglot-mongodb"@,
        Service::Neo4j => "polyglot-neo4j"@,
        Service::Postgres => "polyglot-postgres"@,
    }
}

pub open spec fn mongodb_pull() -> Seq<char> {
    "docker pull mongodb/mongodb-community-server:latest"@
}

pub open spec fn mongodb_run() -> Seq<char> {
    "docker run --name polyglot-mongodb -p 27017:27017 -d mongodb/mongodb-community-server:latest"@
}

pub open spec fn neo4j_run(password: Seq<char>) -> Seq<char> {
    "docker run --name=polyglot-neo4j --publish=7474:7474 --publish=7687:7687 --env NEO4J_AUTH=neo4j/"@
        + password + " -d neo4j:5.24.1"@
}

pub open spec fn postgres_run(password: Seq<char>) -> Seq<char> {
    "docker run --name=polyglot-postgres -e POSTGRES_PASSWORD="@ + password + " -d postgres"@
}

/// The URL of the administrative database of the local Postgres instance.
pub open spec fn postgres_url(password: Seq<char>) -> Seq<char> {
    "postgres://postgres:"@ + password + "@localhost:5432/postgres"@
}

pub open spec fn stop_command(s: Service) -> Seq<char> {
    "docker stop "@ + container_name(s)
}

pub open spec fn remove_command(s: Service) -> Seq<char> {
    "docker rm "@ + container_name(s)
}

/// Whether `steps` is exactly the setup of service `s` with these credentials.
pub open spec fn is_setup_steps(s: Service, c: Credentials, steps: Seq<Step>) -> bool {
    match s {
        Service::MongoDB => {
            &&& steps.len() == 2
            &&& steps[0] matches Step::Command(l) && l@ == mongodb_pull()
            &&& steps[1] matches Step::Command(l) && l@ == mongodb_run()
        },
        Service::Neo4j => {
            &&& steps.len() == 1
            &&& steps[0] matches Step::Command(l) && l@ == neo4j_run(c.neo4j_password@)
        },
        Service::Postgres => {
            &&& steps.len() == 2 + spec_schema_script().len()
            &&& steps[0] matches Step::Command(l) && l@ == postgres_run(c.postgres_password@)
            &&& steps[1] matches Step::Connect(u) && u@ == postgres_url(c.postgres_password@)
            &&& forall|i: int|
                0 <= i < spec_schema_script().len() ==> #[trigger] steps[i + 2] == Step::Execute(
                    spec_schema_script()[i],
                )
        },
    }
}

/// Whether `steps` is exactly the teardown of service `s`: stop, then remove, its container.
pub open spec fn is_teardown_steps(s: Service, steps: Seq<Step>) -> bool {
    &&& steps.len() == 2
    &&& steps[0] matches Step::Command(l) && l@ == stop_command(s)
    &&& steps[1] matches Step::Command(l) && l@ == remove_command(s)
}

/// The kinds of the setup steps of a service.
pub open spec fn setup_kinds(s: Service) -> Seq<StepKind> {
    match s {
        Service::MongoDB => seq![StepKind::Command, StepKind::Command],
        Service::Neo4j => seq![StepKind::Command],
        Service::Postgres => seq![StepKind::Command, StepKind::Connect].add(
            Seq::new(spec_schema_script().len(), |i: int| StepKind::Execute),
        ),
    }
}

/// The kinds of the teardown steps of a service.
pub open spec fn teardown_kinds(s: Service) -> Seq<StepKind> {
    seq![StepKind::Command, StepKind::Command]
}

/// The kinds of a service's setup steps are `setup_kinds` of the service.
pub proof fn lemma_setup_kinds(s: Service, c: Credentials, steps: Seq<Step>)
    requires
        is_setup_steps(s, c, steps),
    ensures
        steps.map_values(|st: Step| kind_of(st)) =~= setup_kinds(s),
{
    if s == Service::Postgres {
        assert forall|i: int| 2 <= i < steps.len() implies kind_of(steps[i]) == StepKind::Execute by {
            assert(steps[(i - 2) + 2] == Step::Execute(spec_schema_script()[i - 2]));
        }
    }
}

/// The index of the first line feed at or after `i`, or the length if there is none.
pub open spec fn line_end(s: Seq<char>, i: int) -> int
    decreases s.len() - i,
{
    if i >= s.len() || i < 0 {
        s.len() as int
    } else if s[i] == '\n' {
        i
    } else {
        line_end(s, i + 1)
    }
}

/// The first line of a text, without its line terminator (`\n` or `\r\n`).
pub open spec fn first_line(s: Seq<char>) -> Seq<char> {
    let e = line_end(s, 0);
    if e > 0 && s[e - 1] == '\r' && e < s.len() {
        s.take(e - 1)
    } else {
        s.take(e)
    }
}

/// A credential as stored in its file: the first line of the file's text.
pub fn credential_line(text: &str) -> (r: String)
    ensures
        r@ == first_line(text@),
{
    let n = text.unicode_len();
    let mut i: usize = 0;
    while i < n && text.get_char(i) != '\n'
        invariant
            n == text@.len(),
            i <= n,
            line_end(text@, 0) == line_end(text@, i as int),
        decreases n - i,
    {
        i = i + 1;
    }
    let mut e = i;
    if e > 0 && e < n && text.get_char(e - 1) == '\r' {
        e = e - 1;
    }
    String::from_str(text.substring_char(0, e))
}

fn concat3(a: &str, b: &str, c: &str) -> (r: String)
    ensures
        r@ == a@ + b@ + c@,
{
    let mut r = String::from_str(a);
    r.append(b);
    r.append(c);
    r
}

fn container(s: Service) -> (r: &'static str)
    ensures
        r@ == container_name(s),
{
    match s {
        Service::MongoDB => "polyglot-mongodb",
        Service::Neo4j => "polyglot-neo4j",
        Service::Postgres => "polyglot-postgres",
    }
}

/// The setup steps of a service: pull and run its container, and for Postgres
/// then connect and apply the schema script.
pub fn setup_steps(s: Service, c: &Credentials) -> (r: Vec<Step>)
    ensures
        is_setup_steps(s, *c, r@),
{
    match s {
        Service::MongoDB => {
            let pull = String::from_str("docker pull mongodb/mongodb-community-server:latest");
            let run = String::from_str(
                "docker run --name polyglot-mongodb -p 27017:27017 -d mongodb/mongodb-community-server:latest",
            );
            vec![Step::Command(pull), Step::Command(run)]
        },
        Service::Neo4j => {
            let run = concat3(
                "docker run --name=polyglot-neo4j --publish=7474:7474 --publish=7687:7687 --env NEO4J_AUTH=neo4j/",
                c.neo4j_password.as_str(),
                " -d neo4j:5.24.1",
            );
            vec![Step::Command(run)]
        },
        Service::Postgres => {
            let pw = c.postgres_password.as_str();
            let run = concat3("docker run --name=polyglot-postgres -e POSTGRES_PASSWORD=", pw, " -d postgres");
            let url = concat3("postgres://postgres:", pw, "@localhost:5432/postgres");
            let mut r = vec![Step::Command(run), Step::Connect(url)];
            let script = schema_script();
            let mut i: usize = 0;
            while i < script.len()
                invariant
                    script@ == spec_schema_script(),
                    i <= script.len(),
                    r@.len() == 2 + i,
                    r@[0] matches Step::Command(l) && l@ == postgres_run(c.postgres_password@),
                    r@[1] matches Step::Connect(u) && u@ == postgres_url(c.postgres_password@),
                    forall|j: int| 0 <= j < i ==> #[trigger] r@[j + 2] == Step::Execute(script@[j]),
                decreases script.len() - i,
            {
                r.push(Step::Execute(script[i]));
                i = i + 1;
            }
            r
        },
    }
}

/// The teardown steps of a service: stop, then remove, its container.
pub fn teardown_steps(s: Service) -> (r: Vec<Step>)
    ensures
        is_teardown_steps(s, r@),
{
    let name = container(s);
    let stop = concat3("docker stop ", name, "");
    let rm = concat3("docker rm ", name, "");
    proof {
        reveal_strlit("");
        assert("docker stop "@ + name@ + ""@ =~= stop_command(s));
        assert("docker rm "@ + name@ + ""@ =~= remove_command(s));
    }
    vec![Step::Command(stop), Step::Command(rm)]
}

} // verus!
