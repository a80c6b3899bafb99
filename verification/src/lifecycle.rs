//! Making sure that a service runs and creating a hidden service on it, as
//! one operation of several steps.
//!
//! The steps are taken by the host. After each it reports the outcome and
//! is told the next: the library is initialized; the status of the service
//! is asked for; a service is started if the status was `Unavailable`, and
//! only then; the hidden service is created, whatever the status was.

use crate::ffi::{
    status_number, HiddenServiceResponse, StartTorResponse, StartTorResponseView,
    STATUS_UNAVAILABLE,
};
use crate::service::BootstrapStatus;
use vstd::prelude::*;
use vstd::string::StringExecFns;

verus! {

/// The step whose outcome is awaited.
#[derive(Debug, Clone, Copy, PartialEq, Eq)]
pub enum Stage {
    Library,
    Status,
    Service,
    HiddenService,
    Done,
}

/// What the host is to do next.
#[derive(Debug)]
pub enum Step {
    InitializeLibrary,
    QueryStatus,
    InitializeService { socks_port: u16, data_dir: String, timeout_ms: u64 },
    CreateHiddenService { port: u16, target_port: u16, key: Option<[u8; 64]>, has_key: bool },
    Finish(StartTorResponse),
}

/// A `Step` as plain values.
pub enum StepView {
    InitializeLibrary,
    QueryStatus,
    InitializeService { socks_port: u16, data_dir: Seq<char>, timeout_ms: u64 },
    CreateHiddenService { port: u16, target_port: u16, key: Option<[u8; 64]>, has_key: bool },
    Finish(StartTorResponseView),
}

impl View for Step {
    type V = StepView;

    open spec fn view(&self) -> StepView {
        match *self {
            Step::InitializeLibrary => StepView::InitializeLibrary,
            Step::QueryStatus => StepView::QueryStatus,
            Step::InitializeService { socks_port, data_dir, timeout_ms } => {
                StepView::InitializeService { socks_port, data_dir: data_dir@, timeout_ms }
            },
            Step::CreateHiddenService { port, target_port, key, has_key } => {
                StepView::CreateHiddenService { port, target_port, key, has_key }
            },
            Step::Finish(response) => StepView::Finish(response@),
        }
    }
}

/// What a step came to.
#[derive(Debug)]
pub enum Outcome {
    /// Whether the library is initialized.
    Library(bool),
    /// The status of the service, as its number.
    Status(i32),
    /// Whether a service was started and put into the slot.
    Service(bool),
    /// What creating the hidden service came to.
    HiddenService(HiddenServiceResponse),
}

/// The operation under way: the step whose outcome is awaited, and what
/// the caller asked for.
pub struct Orchestrator {
    stage: Stage,
    data_dir: String,
    key: Option<[u8; 64]>,
    has_key: bool,
    socks_port: u16,
    target_port: u16,
    timeout_ms: u64,
}

/// An `Orchestrator` as plain values.
pub struct OrchestratorView {
    pub stage: Stage,
    pub data_dir: Seq<char>,
    pub key: Option<[u8; 64]>,
    pub has_key: bool,
    /// The port at which the service listens, and under which the hidden
    /// service is reached.
    pub socks_port: u16,
    pub target_port: u16,
    pub timeout_ms: u64,
}

impl View for Orchestrator {
    type V = OrchestratorView;

    closed spec fn view(&self) -> OrchestratorView {
        OrchestratorView {
            stage: self.stage,
            data_dir: self.data_dir@,
            key: self.key,
            has_key: self.has_key,
            socks_port: self.socks_port,
            target_port: self.target_port,
            timeout_ms: self.timeout_ms,
        }
    }
}

/// The response of an operation that failed at the step that `message`
/// names.
pub open spec fn failure(message: Seq<char>) -> StartTorResponseView {
    StartTorResponseView {
        is_success: false,
        onion_address: Seq::empty(),
        control: Seq::empty(),
        error_message: message,
    }
}

/// The response of the whole operation, from what creating the hidden
/// service came to.
pub open spec fn summed_up(created: HiddenServiceResponse) -> StartTorResponseView {
    if created.is_success {
        StartTorResponseView {
            is_success: true,
            onion_address: created.onion_address@,
            control: created.control@,
            error_message: Seq::empty(),
        }
    } else {
        failure("Failed to create hidden service"@)
    }
}

/// The end of the operation with `response`.
pub open spec fn finish(state: OrchestratorView, response: StartTorResponseView) -> (
    OrchestratorView,
    StepView,
) {
    (OrchestratorView { stage: Stage::Done, ..state }, StepView::Finish(response))
}

/// The order to create the hidden service.
pub open spec fn create(state: OrchestratorView) -> (OrchestratorView, StepView) {
    (
        OrchestratorView { stage: Stage::HiddenService, ..state },
        StepView::CreateHiddenService {
            port: state.socks_port,
            target_port: state.target_port,
            key: state.key,
            has_key: state.has_key,
        },
    )
}

/// The state after `outcome` and the step that follows it.
///
/// A library that is not initialized ends the operation. A status of
/// `Unavailable` has a service started; any other status, in progress
/// or ready, leaves the service alone. A service that was not started ends
/// the operation. In every other case the hidden service is created next,
/// and what that comes to is what the operation comes to. An outcome that
/// is not the awaited one ends the operation.
pub open spec fn advanced(state: OrchestratorView, outcome: Outcome) -> (
    OrchestratorView,
    StepView,
) {
    match (state.stage, outcome) {
        (Stage::Library, Outcome::Library(ready)) => if ready {
            (OrchestratorView { stage: Stage::Status, ..state }, StepView::QueryStatus)
        } else {
            finish(state, failure("Failed to initialize Tor library"@))
        },
        (Stage::Status, Outcome::Status(number)) => if number == STATUS_UNAVAILABLE {
            (
                OrchestratorView { stage: Stage::Service, ..state },
                StepView::InitializeService {
                    socks_port: state.socks_port,
                    data_dir: state.data_dir,
                    timeout_ms: state.timeout_ms,
                },
            )
        } else {
            create(state)
        },
        (Stage::Service, Outcome::Service(started)) => if started {
            create(state)
        } else {
            finish(state, failure("Failed to initialize Tor service"@))
        },
        (Stage::HiddenService, Outcome::HiddenService(created)) => finish(
            state,
            summed_up(created),
        ),
        _ => finish(state, failure("Unexpected outcome"@)),
    }
}

/// A service is started for the status `Unavailable` and for no other.
pub proof fn law_only_unavailable_starts(state: OrchestratorView, status: BootstrapStatus)
    requires
        state.stage == Stage::Status,
    ensures
        advanced(state, Outcome::Status(status_number(status))).1 is InitializeService <==> status
            == BootstrapStatus::Unavailable,
{
}

/// The hidden service is asked for after every status: one that is not
/// `Unavailable` leads to it at once, and `Unavailable` by way of a started
/// service. Only a service that did not start keeps it from being asked
/// for.
pub proof fn law_create_follows_status(state: OrchestratorView, number: i32)
    requires
        state.stage == Stage::Status,
    ensures
        number != STATUS_UNAVAILABLE ==> advanced(state, Outcome::Status(number)) == create(state),
        number == STATUS_UNAVAILABLE ==> advanced(state, Outcome::Status(number)).1
            is InitializeService && advanced(
            advanced(state, Outcome::Status(number)).0,
            Outcome::Service(true),
        ) == create(state),
        number == STATUS_UNAVAILABLE ==> advanced(
            advanced(state, Outcome::Status(number)).0,
            Outcome::Service(false),
        ).1 is Finish,
{
    let next = advanced(state, Outcome::Status(number)).0;
    if number == STATUS_UNAVAILABLE {
        assert(OrchestratorView { stage: Stage::HiddenService, ..next } == OrchestratorView {
            stage: Stage::HiddenService,
            ..state
        });
    }
}

/// The response of an operation that failed.
pub fn failed(message: &str) -> (r: StartTorResponse)
    ensures
        r@ == failure(message@),
{
    StartTorResponse {
        is_success: false,
        onion_address: String::new(),
        control: String::new(),
        error_message: String::from_str(message),
    }
}

/// Sums up the operation from what creating the hidden service came to.
pub fn sum_up(created: HiddenServiceResponse) -> (r: StartTorResponse)
    ensures
        r@ == summed_up(created),
{
    if created.is_success {
        StartTorResponse {
            is_success: true,
            onion_address: created.onion_address,
            control: created.control,
            error_message: String::new(),
        }
    } else {
        failed("Failed to create hidden service")
    }
}

/// Begins the operation. The first step is to initialize the library.
pub fn start_tor_if_not_running(
    data_dir: String,
    key: Option<[u8; 64]>,
    has_key: bool,
    socks_port: u16,
    target_port: u16,
    timeout_ms: u64,
) -> (r: (Orchestrator, Step))
    ensures
        r.0@ == (OrchestratorView {
            stage: Stage::Library,
            data_dir: data_dir@,
            key,
            has_key,
            socks_port,
            target_port,
            timeout_ms,
        }),
        r.1@ == StepView::InitializeLibrary,
{
    let orchestrator = Orchestrator {
        stage: Stage::Library,
        data_dir,
        key,
        has_key,
        socks_port,
        target_port,
        timeout_ms,
    };
    (orchestrator, Step::InitializeLibrary)
}

impl Orchestrator {
    /// The step whose outcome is awaited.
    pub fn stage(&self) -> (r: Stage)
        ensures
            r == self@.stage,
    {
        self.stage
    }

    /// Ends the operation with `response`.
    fn end(&mut self, response: StartTorResponse) -> (r: Step)
        ensures
            (final(self)@, r@) == finish(old(self)@, response@),
    {
        self.stage = Stage::Done;
        Step::Finish(response)
    }

    /// Orders the hidden service.
    fn order_hidden_service(&mut self) -> (r: Step)
        ensures
            (final(self)@, r@) == create(old(self)@),
    {
        self.stage = Stage::HiddenService;
        Step::CreateHiddenService {
            port: self.socks_port,
            target_port: self.target_port,
            key: self.key,
            has_key: self.has_key,
        }
    }

    /// Takes in what a step came to and says which step is next.
    pub fn advance(&mut self, outcome: Outcome) -> (r: Step)
        ensures
            (final(self)@, r@) == advanced(old(self)@, outcome),
    {
        match self.stage {
            Stage::Library => match outcome {
                Outcome::Library(true) => {
                    self.stage = Stage::Status;
                    Step::QueryStatus
                },
                Outcome::Library(false) => self.end(failed("Failed to initialize Tor library")),
                _ => self.end(failed("Unexpected outcome")),
            },
            Stage::Status => match outcome {
                Outcome::Status(number) => {
                    if number == STATUS_UNAVAILABLE {
                        self.stage = Stage::Service;
                        Step::InitializeService {
                            socks_port: self.socks_port,
                            data_dir: self.data_dir.clone(),
                            timeout_ms: self.timeout_ms,
                        }
                    } else {
                        self.order_hidden_service()
                    }
                },
                _ => self.end(failed("Unexpected outcome")),
            },
            Stage::Service => match outcome {
                Outcome::Service(true) => self.order_hidden_service(),
                Outcome::Service(false) => self.end(failed("Failed to initialize Tor service")),
                _ => self.end(failed("Unexpected outcome")),
            },
            Stage::HiddenService => match outcome {
                Outcome::HiddenService(created) => self.end(sum_up(created)),
                _ => self.end(failed("Unexpected outcome")),
            },
            Stage::Done => self.end(failed("Unexpected outcome")),
        }
    }
}

} // verus!
