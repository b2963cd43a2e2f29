//! The two host platforms as capabilities: each runs the actions through its
//! own shell convention.
use vstd::prelude::*;
use crate::drivers::{is_setup_steps, is_teardown_steps, Credentials};
use crate::orchestrator::{initial_view, setup, teardown, Run};
use crate::target::{spec_services, Action, PerformOn, OS};

verus! {

/// A Unix host, whose commands run through `sh -c`.
pub struct Unix;

/// A Windows host, whose commands run through `cmd /C`.
pub struct Windows;

impl Unix {
    pub fn os() -> (r: OS)
        ensures
            r == OS::Unix,
    {
        OS::Unix
    }

    /// The run that sets up a target on this host.
    pub fn setup(perform_on: PerformOn, credentials: &Credentials) -> (r: Run)
        ensures
            r.wf(),
            r@ == initial_view(Action::Setup(perform_on)),
            r.spec_os() == OS::Unix,
            r.plan().len() == spec_services(perform_on).len(),
            forall|i: int|
                0 <= i < r.plan().len() ==> is_setup_steps(
                    spec_services(perform_on)[i],
                    *credentials,
                    #[trigger] r.plan()[i],
                ),
    {
        setup(perform_on, OS::Unix, credentials)
    }

    /// The run that tears down a target on this host.
    pub fn teardown(perform_on: PerformOn) -> (r: Run)
        ensures
            r.wf(),
            r@ == initial_view(Action::Teardown(perform_on)),
            r.spec_os() == OS::Unix,
            r.plan().len() == spec_services(perform_on).len(),
            forall|i: int|
                0 <= i < r.plan().len() ==> is_teardown_steps(
                    spec_services(perform_on)[i],
                    #[trigger] r.plan()[i],
                ),
    {
        teardown(perform_on, OS::Unix)
    }
}

impl Windows {
    pub fn os() -> (r: OS)
        ensures
            r == OS::Windows,
    {
        OS::Windows
    }

    /// The run that sets up a target on this host.
    pub fn setup(perform_on: PerformOn, credentials: &Credentials) -> (r: Run)
        ensures
            r.wf(),
            r@ == initial_view(Action::Setup(perform_on)),
            r.spec_os() == OS::Windows,
            r.plan().len() == spec_services(perform_on).len(),
            forall|i: int|
                0 <= i < r.plan().len() ==> is_setup_steps(
                    spec_services(perform_on)[i],
                    *credentials,
                    #[trigger] r.plan()[i],
                ),
    {
        setup(perform_on, OS::Windows, credentials)
    }

    /// The run that tears down a target on this host.
    pub fn teardown(perform_on: PerformOn) -> (r: Run)
        ensures
            r.wf(),
            r@ == initial_view(Action::Teardown(perform_on)),
            r.spec_os() == OS::Windows,
            r.plan().len() == spec_services(perform_on).len(),
            forall|i: int|
                0 <= i < r.plan().len() ==> is_teardown_steps(
                    spec_services(perform_on)[i],
                    #[trigger] r.plan()[i],
                ),
    {
        teardown(perform_on, OS::Windows)
    }
}

} // verus!
