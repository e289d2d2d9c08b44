use vstd::prelude::*;

verus! {

/// Relative path at which the installed package holds the server script.
pub const SERVER_PATH: &'static str = "node_modules/naive-ui-language-server/dist/server.js";

/// Package that provides the language server.
pub const PACKAGE_NAME: &'static str = "naive-ui-language-server";

/// Progress shown to the user while the server is being prepared.
#[derive(Clone, Copy, Debug, PartialEq, Eq, Structural)]
pub enum InstallStatus {
    CheckingForUpdate,
    Downloading,
}

/// Why the server script could not be provided.
#[derive(Clone, Debug)]
pub enum ResolveError {
    /// The registry could not tell the latest published version.
    RegistryQuery(String),
    /// The installer reported success, yet the script is not on disk.
    InstallIncomplete,
    /// The installer failed and the script is not on disk either.
    Installer(String),
    /// The host answered something other than the pending request.
    OutOfSequence,
}

pub enum ResolveErrorV {
    RegistryQuery(Seq<char>),
    InstallIncomplete,
    Installer(Seq<char>),
    OutOfSequence,
}

impl View for ResolveError {
    type V = ResolveErrorV;

    open spec fn view(&self) -> ResolveErrorV {
        match self {
            ResolveError::RegistryQuery(e) => ResolveErrorV::RegistryQuery(e@),
            ResolveError::InstallIncomplete => ResolveErrorV::InstallIncomplete,
            ResolveError::Installer(e) => ResolveErrorV::Installer(e@),
            ResolveError::OutOfSequence => ResolveErrorV::OutOfSequence,
        }
    }
}

/// Work that the host is asked to do next.
#[derive(Clone, Debug)]
pub enum Request {
    /// Tell whether the server script exists as a file.
    CheckServerExists,
    /// Show the status to the user, then answer `StatusReported`.
    ReportStatus(InstallStatus),
    /// Ask the registry for the latest published version of the package.
    FetchLatestVersion,
    /// Install the package at the given version.
    InstallPackage(String),
}

pub enum RequestV {
    CheckServerExists,
    ReportStatus(InstallStatus),
    FetchLatestVersion,
    InstallPackage(Seq<char>),
}

impl View for Request {
    type V = RequestV;

    open spec fn view(&self) -> RequestV {
        match self {
            Request::CheckServerExists => RequestV::CheckServerExists,
            Request::ReportStatus(s) => RequestV::ReportStatus(*s),
            Request::FetchLatestVersion => RequestV::FetchLatestVersion,
            Request::InstallPackage(v) => RequestV::InstallPackage(v@),
        }
    }
}

/// What the resolver hands back after each event.
#[derive(Debug)]
pub enum Step {
    Perform(Request),
    /// Resolution is over: the script path, or why there is none.
    Finish(Result<String, ResolveError>),
}

pub enum StepV {
    Perform(RequestV),
    Finish(Result<Seq<char>, ResolveErrorV>),
}

impl View for Step {
    type V = StepV;

    open spec fn view(&self) -> StepV {
        match self {
            Step::Perform(r) => StepV::Perform(r@),
            Step::Finish(Ok(p)) => StepV::Finish(Ok(p@)),
            Step::Finish(Err(e)) => StepV::Finish(Err(e@)),
        }
    }
}

/// The host's answer to the pending request (or `Begin`, to start).
#[derive(Debug)]
pub enum Event {
    Begin,
    ServerExists(bool),
    StatusReported,
    LatestVersion(Result<String, String>),
    InstallFinished(Result<(), String>),
}

pub enum EventV {
    Begin,
    ServerExists(bool),
    StatusReported,
    LatestVersion(Result<Seq<char>, Seq<char>>),
    InstallFinished(Result<(), Seq<char>>),
}

impl View for Event {
    type V = EventV;

    open spec fn view(&self) -> EventV {
        match self {
            Event::Begin => EventV::Begin,
            Event::ServerExists(b) => EventV::ServerExists(*b),
            Event::StatusReported => EventV::StatusReported,
            Event::LatestVersion(Ok(v)) => EventV::LatestVersion(Ok(v@)),
            Event::LatestVersion(Err(e)) => EventV::LatestVersion(Err(e@)),
            Event::InstallFinished(Ok(())) => EventV::InstallFinished(Ok(())),
            Event::InstallFinished(Err(e)) => EventV::InstallFinished(Err(e@)),
        }
    }
}

/// Where a resolution stands: which answer it waits for.
#[derive(Debug)]
pub enum Phase {
    Idle,
    CheckingExistence,
    ReportingCheck,
    FetchingLatest,
    ReportingDownload(String),
    Installing,
    Rechecking(Result<(), String>),
    Done,
}

pub enum PhaseV {
    Idle,
    CheckingExistence,
    ReportingCheck,
    FetchingLatest,
    ReportingDownload(Seq<char>),
    Installing,
    Rechecking(Result<(), Seq<char>>),
    Done,
}

impl View for Phase {
    type V = PhaseV;

    open spec fn view(&self) -> PhaseV {
        match self {
            Phase::Idle => PhaseV::Idle,
            Phase::CheckingExistence => PhaseV::CheckingExistence,
            Phase::ReportingCheck => PhaseV::ReportingCheck,
            Phase::FetchingLatest => PhaseV::FetchingLatest,
            Phase::ReportingDownload(v) => PhaseV::ReportingDownload(v@),
            Phase::Installing => PhaseV::Installing,
            Phase::Rechecking(Ok(())) => PhaseV::Rechecking(Ok(())),
            Phase::Rechecking(Err(e)) => PhaseV::Rechecking(Err(e@)),
            Phase::Done => PhaseV::Done,
        }
    }
}

/// One transition: from a phase and the host's answer to the next phase and
/// what the host is asked for (or the final result).
///
/// An existing script ends resolution at once. Otherwise the latest version
/// is fetched and installed, whatever version is installed locally, and the
/// file is checked again: present, it is the result even where the installer
/// failed; absent, the installer's error (or, where it claimed success, an
/// incomplete install) is the result.
pub open spec fn next(p: PhaseV, e: EventV, path: Seq<char>) -> (PhaseV, StepV) {
    match (p, e) {
        (PhaseV::Idle, EventV::Begin) => (
            PhaseV::CheckingExistence,
            StepV::Perform(RequestV::CheckServerExists),
        ),
        (PhaseV::CheckingExistence, EventV::ServerExists(exists)) => if exists {
            (PhaseV::Done, StepV::Finish(Ok(path)))
        } else {
            (
                PhaseV::ReportingCheck,
                StepV::Perform(RequestV::ReportStatus(InstallStatus::CheckingForUpdate)),
            )
        },
        (PhaseV::ReportingCheck, EventV::StatusReported) => (
            PhaseV::FetchingLatest,
            StepV::Perform(RequestV::FetchLatestVersion),
        ),
        (PhaseV::FetchingLatest, EventV::LatestVersion(latest)) => match latest {
            Ok(v) => (
                PhaseV::ReportingDownload(v),
                StepV::Perform(RequestV::ReportStatus(InstallStatus::Downloading)),
            ),
            Err(err) => (PhaseV::Done, StepV::Finish(Err(ResolveErrorV::RegistryQuery(err)))),
        },
        (PhaseV::ReportingDownload(v), EventV::StatusReported) => (
            PhaseV::Installing,
            StepV::Perform(RequestV::InstallPackage(v)),
        ),
        (PhaseV::Installing, EventV::InstallFinished(r)) => (
            PhaseV::Rechecking(r),
            StepV::Perform(RequestV::CheckServerExists),
        ),
        (PhaseV::Rechecking(r), EventV::ServerExists(exists)) => (
            PhaseV::Done,
            StepV::Finish(settle(r, exists, path)),
        ),
        _ => (PhaseV::Done, StepV::Finish(Err(ResolveErrorV::OutOfSequence))),
    }
}

/// The result once the installer has run and the file has been checked again.
pub open spec fn settle(installed: Result<(), Seq<char>>, exists: bool, path: Seq<char>) -> Result<
    Seq<char>,
    ResolveErrorV,
> {
    if exists {
        Ok(path)
    } else {
        match installed {
            Ok(()) => Err(ResolveErrorV::InstallIncomplete),
            Err(err) => Err(ResolveErrorV::Installer(err)),
        }
    }
}

/// Decides, one host answer at a time, how the server script is obtained.
pub struct ServerResolver {
    server_path: String,
    phase: Phase,
}

impl ServerResolver {
    pub closed spec fn path(&self) -> Seq<char> {
        self.server_path@
    }

    pub closed spec fn phase(&self) -> PhaseV {
        self.phase@
    }

    /// A resolver for the script at `server_path`, waiting for `Begin`.
    pub fn new(server_path: String) -> (r: Self)
        ensures
            r.path() == server_path@,
            r.phase() == PhaseV::Idle,
    {
        ServerResolver { server_path, phase: Phase::Idle }
    }

    /// The script path that a successful resolution returns.
    pub fn server_path(&self) -> (r: &str)
        ensures
            r@ == self.path(),
    {
        self.server_path.as_str()
    }

    /// Takes the host's answer and says what the host must do next.
    pub fn step(&mut self, event: Event) -> (r: Step)
        ensures
            final(self).path() == old(self).path(),
            (final(self).phase(), r@) == next(old(self).phase(), event@, old(self).path()),
    {
        let path = self.server_path.clone();
        let (phase, step) = match (&self.phase, event) {
            (Phase::Idle, Event::Begin) => (
                Phase::CheckingExistence,
                Step::Perform(Request::CheckServerExists),
            ),
            (Phase::CheckingExistence, Event::ServerExists(exists)) => if exists {
                (Phase::Done, Step::Finish(Ok(path)))
            } else {
                (
                    Phase::ReportingCheck,
                    Step::Perform(Request::ReportStatus(InstallStatus::CheckingForUpdate)),
                )
            },
            (Phase::ReportingCheck, Event::StatusReported) => (
                Phase::FetchingLatest,
                Step::Perform(Request::FetchLatestVersion),
            ),
            (Phase::FetchingLatest, Event::LatestVersion(latest)) => match latest {
                Ok(v) => (
                    Phase::ReportingDownload(v),
                    Step::Perform(Request::ReportStatus(InstallStatus::Downloading)),
                ),
                Err(err) => (Phase::Done, Step::Finish(Err(ResolveError::RegistryQuery(err)))),
            },
            (Phase::ReportingDownload(v), Event::StatusReported) => (
                Phase::Installing,
                Step::Perform(Request::InstallPackage(v.clone())),
            ),
            (Phase::Installing, Event::InstallFinished(r)) => (
                Phase::Rechecking(r),
                Step::Perform(Request::CheckServerExists),
            ),
            (Phase::Rechecking(r), Event::ServerExists(exists)) => {
                let result = if exists {
                    Ok(path)
                } else {
                    match r {
                        Ok(()) => Err(ResolveError::InstallIncomplete),
                        Err(err) => Err(ResolveError::Installer(err.clone())),
                    }
                };
                (Phase::Done, Step::Finish(result))
            },
            _ => (Phase::Done, Step::Finish(Err(ResolveError::OutOfSequence))),
        };
        self.phase = phase;
        step
    }
}

} // verus!
