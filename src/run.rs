use vstd::prelude::*;
use crate::resolver::{next, InstallStatus, PhaseV, EventV, RequestV, ResolveErrorV, StepV};

verus! {

/// What the host answers during one resolution: whether the script exists
/// before and after the install, what the registry says, and how the
/// installer ends.
pub struct HostAnswers {
    pub exists_before: bool,
    pub latest: Result<Seq<char>, Seq<char>>,
    pub install: Result<(), Seq<char>>,
    pub exists_after: bool,
}

/// The requests a resolution made, in order, and its result once it finished.
pub struct Trace {
    pub requests: Seq<RequestV>,
    pub outcome: Option<Result<Seq<char>, ResolveErrorV>>,
}

/// The host's answer to request `r` made on entering phase `p`. The file is
/// checked before the install until the resolver is rechecking after it.
pub open spec fn answer(h: HostAnswers, p: PhaseV, r: RequestV) -> EventV {
    match r {
        RequestV::CheckServerExists => EventV::ServerExists(
            if p is Rechecking {
                h.exists_after
            } else {
                h.exists_before
            },
        ),
        RequestV::ReportStatus(_) => EventV::StatusReported,
        RequestV::FetchLatestVersion => EventV::LatestVersion(h.latest),
        RequestV::InstallPackage(_) => EventV::InstallFinished(h.install),
    }
}

/// Feeds event `e` to a resolver in phase `p`, then the host's answers, for at
/// most `fuel` steps.
pub open spec fn drive(p: PhaseV, e: EventV, h: HostAnswers, path: Seq<char>, fuel: nat) -> Trace
    decreases fuel,
{
    if fuel == 0 {
        Trace { requests: seq![], outcome: None }
    } else {
        let (p2, s) = next(p, e, path);
        match s {
            StepV::Finish(r) => Trace { requests: seq![], outcome: Some(r) },
            StepV::Perform(q) => {
                let t = drive(p2, answer(h, p2, q), h, path, (fuel - 1) as nat);
                Trace { requests: seq![q] + t.requests, outcome: t.outcome }
            },
        }
    }
}

/// A whole resolution of the script at `path`, from `Begin` on.
pub open spec fn resolve(h: HostAnswers, path: Seq<char>) -> Trace {
    drive(PhaseV::Idle, EventV::Begin, h, path, 8)
}

pub open spec fn asks_registry(t: Trace) -> bool {
    exists|i: int| 0 <= i < t.requests.len() && t.requests[i] is FetchLatestVersion
}

pub open spec fn installs(t: Trace) -> bool {
    exists|i: int| 0 <= i < t.requests.len() && t.requests[i] is InstallPackage
}

/// The requests and result of a resolution, step by step, for each shape of
/// the host's answers.
proof fn lemma_resolve_unfolds(h: HostAnswers, path: Seq<char>)
    ensures
        h.exists_before ==> resolve(h, path) == (Trace {
            requests: seq![RequestV::CheckServerExists],
            outcome: Some(Ok(path)),
        }),
        !h.exists_before && h.latest is Err ==> resolve(h, path) == (Trace {
            requests: seq![
                RequestV::CheckServerExists,
                RequestV::ReportStatus(InstallStatus::CheckingForUpdate),
                RequestV::FetchLatestVersion,
            ],
            outcome: Some(Err(ResolveErrorV::RegistryQuery(h.latest->Err_0))),
        }),
        !h.exists_before && h.latest is Ok ==> resolve(h, path) == (Trace {
            requests: seq![
                RequestV::CheckServerExists,
                RequestV::ReportStatus(InstallStatus::CheckingForUpdate),
                RequestV::FetchLatestVersion,
                RequestV::ReportStatus(InstallStatus::Downloading),
                RequestV::InstallPackage(h.latest->Ok_0),
                RequestV::CheckServerExists,
            ],
            outcome: Some(
                if h.exists_after {
                    Ok(path)
                } else {
                    match h.install {
                        Ok(()) => Err(ResolveErrorV::InstallIncomplete),
                        Err(e) => Err(ResolveErrorV::Installer(e)),
                    }
                },
            ),
        }),
{
    reveal_with_fuel(drive, 9);
    let t = resolve(h, path);
    if h.exists_before {
        assert(t.requests =~= seq![RequestV::CheckServerExists]);
    } else if h.latest is Err {
        assert(t.requests =~= seq![
            RequestV::CheckServerExists,
            RequestV::ReportStatus(InstallStatus::CheckingForUpdate),
            RequestV::FetchLatestVersion,
        ]);
    } else {
        assert(t.requests =~= seq![
            RequestV::CheckServerExists,
            RequestV::ReportStatus(InstallStatus::CheckingForUpdate),
            RequestV::FetchLatestVersion,
            RequestV::ReportStatus(InstallStatus::Downloading),
            RequestV::InstallPackage(h.latest->Ok_0),
            RequestV::CheckServerExists,
        ]);
    }
}

/// When the script exists beforehand, resolution returns its path at once,
/// without asking the registry or installing anything.
pub proof fn lemma_existing_script_short_circuits(h: HostAnswers, path: Seq<char>)
    requires
        h.exists_before,
    ensures
        resolve(h, path).outcome == Some(Ok::<Seq<char>, ResolveErrorV>(path)),
        !asks_registry(resolve(h, path)),
        !installs(resolve(h, path)),
{
    lemma_resolve_unfolds(h, path);
}

/// When the script is absent and the registry query fails, resolution fails
/// with that registry error and never installs.
pub proof fn lemma_registry_failure_aborts(h: HostAnswers, path: Seq<char>)
    requires
        !h.exists_before,
        h.latest is Err,
    ensures
        resolve(h, path).outcome == Some(
            Err::<Seq<char>, ResolveErrorV>(ResolveErrorV::RegistryQuery(h.latest->Err_0)),
        ),
        !installs(resolve(h, path)),
{
    lemma_resolve_unfolds(h, path);
    let t = resolve(h, path);
    assert forall|i: int| 0 <= i < t.requests.len() implies !(t.requests[i] is InstallPackage) by {
        assert(i == 0 || i == 1 || i == 2);
    }
}

/// When the script is absent and the registry answers, the latest version is
/// installed: the file's absence decides, whatever version is installed
/// locally, even one equal to the latest.
pub proof fn lemma_absent_script_installs_latest(h: HostAnswers, path: Seq<char>)
    requires
        !h.exists_before,
        h.latest is Ok,
    ensures
        resolve(h, path).requests.contains(RequestV::InstallPackage(h.latest->Ok_0)),
{
    lemma_resolve_unfolds(h, path);
    assert(resolve(h, path).requests[4] == RequestV::InstallPackage(h.latest->Ok_0));
}

/// When the installer reports success but the script is still absent,
/// resolution fails as an incomplete install.
pub proof fn lemma_install_without_script_is_incomplete(h: HostAnswers, path: Seq<char>)
    requires
        !h.exists_before,
        h.latest is Ok,
        h.install is Ok,
        !h.exists_after,
    ensures
        resolve(h, path).outcome == Some(
            Err::<Seq<char>, ResolveErrorV>(ResolveErrorV::InstallIncomplete),
        ),
{
    lemma_resolve_unfolds(h, path);
}

/// When the installer fails but the script is present afterwards, the error
/// is dropped and resolution returns the path.
pub proof fn lemma_failed_install_with_script_succeeds(h: HostAnswers, path: Seq<char>)
    requires
        !h.exists_before,
        h.latest is Ok,
        h.install is Err,
        h.exists_after,
    ensures
        resolve(h, path).outcome == Some(Ok::<Seq<char>, ResolveErrorV>(path)),
{
    lemma_resolve_unfolds(h, path);
}

/// When the installer fails and the script is still absent, resolution fails
/// with the installer's own error.
pub proof fn lemma_failed_install_without_script_fails(h: HostAnswers, path: Seq<char>)
    requires
        !h.exists_before,
        h.latest is Ok,
        h.install is Err,
        !h.exists_after,
    ensures
        resolve(h, path).outcome == Some(
            Err::<Seq<char>, ResolveErrorV>(ResolveErrorV::Installer(h.install->Err_0)),
        ),
{
    lemma_resolve_unfolds(h, path);
}

/// Every resolution finishes, and it returns a path only where the last check
/// of the file found the script: before any install, or after it.
pub proof fn lemma_success_means_script_present(h: HostAnswers, path: Seq<char>)
    ensures
        resolve(h, path).outcome is Some,
        resolve(h, path).outcome matches Some(Ok(p)) ==> p == path && (h.exists_before || (
        h.latest is Ok && h.exists_after)),
{
    lemma_resolve_unfolds(h, path);
}

} // verus!
