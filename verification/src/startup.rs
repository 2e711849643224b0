//! The order of the startup steps, and the settings they work on.
//!
//! The program reads the environment once and hands the values over. From
//! then on it performs the pending step and reports how it went; this
//! module says which step comes next.

use vstd::prelude::*;
use vstd::string::*;
use crate::filter::chosen;
use crate::filter::text_of;
use crate::filter::verdict_on;
use crate::filter::LogFilter;
use crate::port::decimal;
use crate::port::lemma_port_round_trip;
use crate::port::listen_address;
use crate::port::listen_address_of;
use crate::port::parse_port;
use crate::port::port_of;

verus! {

/// Why startup was given up.
#[derive(Clone, Copy, Debug, PartialEq, Eq, Structural)]
pub enum StartupError {
    /// No port was configured.
    MissingPort,
    /// The configured port is not a number from 0 to 65535.
    InvalidPort,
    /// No collector endpoint was configured.
    MissingEndpoint,
}

/// The exit status after an error that the program returns from its entry
/// point.
pub const EXIT_FAILURE: u8 = 1;

/// The exit status after a failure that aborts the program.
pub const EXIT_ABORTED: u8 = 101;

impl StartupError {
    /// The exit status for this error: a missing or invalid port is
    /// returned as an error, a missing endpoint aborts.
    pub open spec fn code(self) -> u8 {
        match self {
            StartupError::MissingPort => EXIT_FAILURE,
            StartupError::InvalidPort => EXIT_FAILURE,
            StartupError::MissingEndpoint => EXIT_ABORTED,
        }
    }

    /// The exit status for this error. It is never zero.
    pub fn exit_code(&self) -> (r: u8)
        ensures
            r == self.code(),
            r != 0,
    {
        match self {
            StartupError::MissingPort => EXIT_FAILURE,
            StartupError::InvalidPort => EXIT_FAILURE,
            StartupError::MissingEndpoint => EXIT_ABORTED,
        }
    }
}

/// What the process was configured with; fixed once startup has begun.
pub struct Settings {
    pub port: u16,
    pub endpoint: String,
    pub filter: LogFilter,
}

/// The port and endpoint that the configured texts give, or the first thing
/// wrong with them: the port is looked at before the endpoint.
pub open spec fn configured(port: Option<Seq<char>>, endpoint: Option<Seq<char>>) -> Result<
    (u16, Seq<char>),
    StartupError,
> {
    match port {
        None => Err(StartupError::MissingPort),
        Some(text) => match port_of(text) {
            None => Err(StartupError::InvalidPort),
            Some(number) => match endpoint {
                None => Err(StartupError::MissingEndpoint),
                Some(url) => Ok((number, url)),
            },
        },
    }
}

/// The step that the program has to perform next.
#[derive(Clone, Copy, Debug, PartialEq, Eq, Structural)]
pub enum Step {
    /// Build the trace pipeline for the configured endpoint and take a
    /// tracer from it.
    BuildPipeline,
    /// Compose the log filter, the format layer and the tracer layer, in
    /// that order, and install them as the process-wide registry.
    InstallRegistry,
    /// Announce the start and bind the listener.
    Bind,
    /// Serve requests on the bound listener.
    Serve,
    /// Leave with the given exit status.
    Exit(u8),
}

/// How the step that was pending went.
#[derive(Clone, Copy, Debug, PartialEq, Eq, Structural)]
pub enum Event {
    PipelineBuilt,
    PipelineFailed,
    RegistryInstalled,
    RegistryFailed,
    Bound,
    BindFailed,
    ServerReturned,
    ServerFailed,
}

/// The step after `step`, once `event` has come in. A failure aborts; the
/// server returning ends the process cleanly; an event that does not
/// belong to the pending step changes nothing.
pub open spec fn next_step(step: Step, event: Event) -> Step {
    match (step, event) {
        (Step::BuildPipeline, Event::PipelineBuilt) => Step::InstallRegistry,
        (Step::BuildPipeline, Event::PipelineFailed) => Step::Exit(EXIT_ABORTED),
        (Step::InstallRegistry, Event::RegistryInstalled) => Step::Bind,
        (Step::InstallRegistry, Event::RegistryFailed) => Step::Exit(EXIT_ABORTED),
        (Step::Bind, Event::Bound) => Step::Serve,
        (Step::Bind, Event::BindFailed) => Step::Exit(EXIT_ABORTED),
        (Step::Serve, Event::ServerReturned) => Step::Exit(0),
        (Step::Serve, Event::ServerFailed) => Step::Exit(EXIT_ABORTED),
        _ => step,
    }
}

/// The step reached from `step` after the events of `events`, in order.
pub open spec fn step_after(step: Step, events: Seq<Event>) -> Step
    decreases events.len(),
{
    if events.len() == 0 {
        step
    } else {
        next_step(step_after(step, events.drop_last()), events.last())
    }
}

/// How far along a step is: the steps are taken in this order.
pub open spec fn progress(step: Step) -> nat {
    match step {
        Step::BuildPipeline => 0,
        Step::InstallRegistry => 1,
        Step::Bind => 2,
        Step::Serve => 3,
        Step::Exit(_) => 4,
    }
}

/// A startup in progress: the settings and the pending step. Only `begin`
/// makes one and only `advance` moves it on.
pub struct Startup {
    settings: Settings,
    step: Step,
}

impl Startup {
    /// The step that is pending.
    pub closed spec fn pending(self) -> Step {
        self.step
    }

    /// The settings that startup began with.
    pub closed spec fn config(self) -> Settings {
        self.settings
    }

    /// The step that is pending.
    pub fn step(&self) -> (r: Step)
        ensures
            r == self.pending(),
    {
        self.step
    }

    /// The settings that startup began with.
    pub fn settings(&self) -> (r: &Settings)
        ensures
            *r == self.config(),
    {
        &self.settings
    }

    /// Begins startup from the values found in the environment: the port,
    /// the collector endpoint and the log filter expression, each `None`
    /// where the variable is not set.
    ///
    /// Fails exactly where `configured` names an error, with that error.
    /// Otherwise the settings hold the port, the endpoint as given and the
    /// chosen filter, and the pending step is `BuildPipeline`.
    pub fn begin(port: Option<&str>, endpoint: Option<&str>, log_filter: Option<&str>) -> (r:
        Result<Startup, StartupError>)
        ensures
            match configured(text_of(port), text_of(endpoint)) {
                Ok((number, url)) => {
                    &&& r is Ok
                    &&& r->Ok_0.pending() == Step::BuildPipeline
                    &&& r->Ok_0.config().port == number
                    &&& r->Ok_0.config().endpoint@ == url
                    &&& (r->Ok_0.config().filter.expression@, r->Ok_0.config().filter.ceiling)
                        == chosen(text_of(log_filter), verdict_on(text_of(log_filter)))
                },
                Err(error) => r == Err::<Startup, StartupError>(error),
            },
    {
        let text = match port {
            Some(text) => text,
            None => return Err(StartupError::MissingPort),
        };
        let number = match parse_port(text) {
            Some(number) => number,
            None => return Err(StartupError::InvalidPort),
        };
        let url = match endpoint {
            Some(url) => url,
            None => return Err(StartupError::MissingEndpoint),
        };
        let filter = LogFilter::resolve(log_filter);
        Ok(
            Startup {
                settings: Settings { port: number, endpoint: String::from_str(url), filter },
                step: Step::BuildPipeline,
            },
        )
    }

    /// Takes note of how the pending step went and moves to the next one.
    /// The settings stay as they are.
    pub fn advance(&mut self, event: Event)
        ensures
            final(self).pending() == next_step(old(self).pending(), event),
            final(self).config() == old(self).config(),
    {
        let next = match (self.step, event) {
            (Step::BuildPipeline, Event::PipelineBuilt) => Step::InstallRegistry,
            (Step::BuildPipeline, Event::PipelineFailed) => Step::Exit(EXIT_ABORTED),
            (Step::InstallRegistry, Event::RegistryInstalled) => Step::Bind,
            (Step::InstallRegistry, Event::RegistryFailed) => Step::Exit(EXIT_ABORTED),
            (Step::Bind, Event::Bound) => Step::Serve,
            (Step::Bind, Event::BindFailed) => Step::Exit(EXIT_ABORTED),
            (Step::Serve, Event::ServerReturned) => Step::Exit(0),
            (Step::Serve, Event::ServerFailed) => Step::Exit(EXIT_ABORTED),
            (step, _) => step,
        };
        self.step = next;
    }

    /// The address to bind the listener on: every interface, at the
    /// configured port.
    pub fn bind_address(&self) -> (r: String)
        ensures
            r@ == listen_address_of(self.config().port),
    {
        listen_address(self.settings.port)
    }
}

/// The line logged once the diagnostics are installed, before binding.
pub fn greeting() -> (r: &'static str)
    ensures
        r@ == "Hello world!"@,
{
    "Hello world!"
}

/// Every port number, written in decimal and configured together with an
/// endpoint, is accepted as that port, and the listener is bound on it once
/// the pipeline is built and the registry installed.
pub proof fn lemma_valid_port_is_bound(port: u16, endpoint: Seq<char>)
    ensures
        configured(Some(decimal(port as nat)), Some(endpoint)) == Ok::<
            (u16, Seq<char>),
            StartupError,
        >((port, endpoint)),
        step_after(
            Step::BuildPipeline,
            seq![Event::PipelineBuilt, Event::RegistryInstalled],
        ) == Step::Bind,
        step_after(
            Step::BuildPipeline,
            seq![Event::PipelineBuilt, Event::RegistryInstalled, Event::Bound],
        ) == Step::Serve,
{
    lemma_port_round_trip(port);
    let two = seq![Event::PipelineBuilt, Event::RegistryInstalled];
    let three = seq![Event::PipelineBuilt, Event::RegistryInstalled, Event::Bound];
    assert(two.drop_last() =~= seq![Event::PipelineBuilt]);
    assert(two.drop_last().drop_last() =~= Seq::<Event>::empty());
    assert(three.drop_last() =~= two);
    reveal_with_fuel(step_after, 4);
}

/// With the port missing or not a port number, startup fails with a
/// non-zero exit status, whatever else is configured.
pub proof fn lemma_bad_port_is_fatal(port: Option<Seq<char>>, endpoint: Option<Seq<char>>)
    requires
        port is None || port_of(port->Some_0) is None,
    ensures
        configured(port, endpoint) is Err,
        configured(port, endpoint)->Err_0.code() == EXIT_FAILURE,
        configured(port, endpoint)->Err_0.code() != 0,
{
}

/// An event leaves the pending step as it is or moves to the one that
/// follows it, or to an exit. So the registry is installed only after the
/// pipeline was built, the listener is bound only after the registry was
/// installed, and requests are served only on a bound listener.
pub proof fn lemma_steps_in_order(step: Step, event: Event)
    ensures
        next_step(step, event) == step || next_step(step, event) is Exit || progress(
            next_step(step, event),
        ) == progress(step) + 1,
        step is Exit ==> next_step(step, event) == step,
        next_step(step, event) == Step::Exit(0) ==> step == Step::Exit(0) || (step == Step::Serve
            && event == Event::ServerReturned),
{
}

/// Over any run of events the steps never go back, and an exit is final.
/// So the registry is installed at most once: when its step has been left,
/// it is never pending again.
pub proof fn lemma_steps_never_go_back(step: Step, events: Seq<Event>)
    ensures
        progress(step_after(step, events)) >= progress(step),
        step is Exit ==> step_after(step, events) == step,
    decreases events.len(),
{
    if events.len() > 0 {
        lemma_steps_never_go_back(step, events.drop_last());
        lemma_steps_in_order(step_after(step, events.drop_last()), events.last());
    }
}

} // verus!
