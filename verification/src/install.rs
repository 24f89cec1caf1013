//! Installing a component that ships as a zip archive in a GitHub release.
//!
//! The installer is a state machine. It never performs work itself: in each
//! state it names one request (check a file, show a status, fetch a release,
//! download an archive, mark a file executable, resolve a path, or finish),
//! and the answer to that request moves it on. The caller performs the
//! request and hands the answer back.

use vstd::prelude::*;
use crate::text::text_result;
use crate::github::{
    asset_missing, asset_missing_message, download_failed, download_failed_message, find_asset,
    first_named, Release, ReleaseView,
};

verus! {

/// The installation status shown to the user for the language server.
#[derive(Clone, Debug, PartialEq, Eq)]
pub enum InstallStatus {
    /// The component is being downloaded.
    Downloading,
    /// The installation failed with this message.
    Failed(String),
    /// Nothing to report: the component is in place.
    Ready,
}

/// What to install and how.
#[derive(Debug, PartialEq, Eq)]
pub struct InstallPlan {
    /// The file whose presence means that the component is installed.
    pub target: String,
    /// The directory that the archive is extracted into.
    pub install_dir: String,
    /// The GitHub repository (`owner/name`) whose latest release holds the archive.
    pub repo: String,
    /// The name of the archive, or why there is none for this machine.
    pub asset: Result<String, String>,
    /// The project name used when the release lacks the archive.
    pub project: String,
    /// The error given when the target is still missing after extraction.
    pub missing_error: String,
    /// Whether the target must be marked executable after extraction.
    pub make_executable: bool,
    /// Whether progress and failure are shown to the user.
    pub report_status: bool,
    /// What precedes the cause when the target's absolute path cannot be resolved.
    pub resolve_error_prefix: String,
}

/// Where the installer stands.
#[derive(Debug, PartialEq, Eq)]
pub enum InstallState {
    CheckingInstalled,
    AnnouncingDownload,
    FetchingRelease,
    /// Downloading the named asset from the url.
    Downloading(String, String),
    CheckingExtracted,
    MakingExecutable,
    AnnouncingFailure(String),
    AnnouncingReady,
    Resolving,
    Finished(Result<String, String>),
}

/// The answer to the request of the installer.
#[derive(Debug, PartialEq, Eq)]
pub enum InstallEvent {
    /// Whether the file exists.
    FileChecked(bool),
    /// The status was shown.
    StatusShown,
    /// The latest release, or why it could not be fetched.
    ReleaseFetched(Result<Release, String>),
    /// The outcome of the download and extraction.
    Downloaded(Result<(), String>),
    /// The outcome of marking the file executable.
    MadeExecutable(Result<(), String>),
    /// The absolute path of the file, or why it could not be resolved.
    PathResolved(Result<String, String>),
}

/// The request of the installer.
#[derive(Debug, PartialEq, Eq)]
pub enum InstallAction {
    /// Check whether this file exists.
    CheckFile(String),
    /// Show this installation status.
    ShowStatus(InstallStatus),
    /// Fetch the latest release of this repository (releases with assets, no
    /// pre-releases).
    FetchLatestRelease(String),
    /// Download the zip archive at the url and extract it into the directory.
    DownloadZip(String, String),
    /// Mark this file executable.
    MakeExecutable(String),
    /// Resolve this relative path against the working directory.
    ResolvePath(String),
    /// The installation is over: the absolute path of the target, or the error.
    Finish(Result<String, String>),
}

/// An installer: what it installs and where it stands.
pub struct Installer {
    pub plan: InstallPlan,
    pub state: InstallState,
}

pub enum StatusView {
    Downloading,
    Failed(Seq<char>),
    Ready,
}

pub struct PlanView {
    pub target: Seq<char>,
    pub install_dir: Seq<char>,
    pub repo: Seq<char>,
    pub asset: Result<Seq<char>, Seq<char>>,
    pub project: Seq<char>,
    pub missing_error: Seq<char>,
    pub make_executable: bool,
    pub report_status: bool,
    pub resolve_error_prefix: Seq<char>,
}

pub enum StateView {
    CheckingInstalled,
    AnnouncingDownload,
    FetchingRelease,
    Downloading(Seq<char>, Seq<char>),
    CheckingExtracted,
    MakingExecutable,
    AnnouncingFailure(Seq<char>),
    AnnouncingReady,
    Resolving,
    Finished(Result<Seq<char>, Seq<char>>),
}

pub enum EventView {
    FileChecked(bool),
    StatusShown,
    ReleaseFetched(Result<ReleaseView, Seq<char>>),
    Downloaded(Result<(), Seq<char>>),
    MadeExecutable(Result<(), Seq<char>>),
    PathResolved(Result<Seq<char>, Seq<char>>),
}

pub enum ActionView {
    CheckFile(Seq<char>),
    ShowStatus(StatusView),
    FetchLatestRelease(Seq<char>),
    DownloadZip(Seq<char>, Seq<char>),
    MakeExecutable(Seq<char>),
    ResolvePath(Seq<char>),
    Finish(Result<Seq<char>, Seq<char>>),
}

pub open spec fn unit_result(r: Result<(), String>) -> Result<(), Seq<char>> {
    match r {
        Ok(()) => Ok(()),
        Err(e) => Err(e@),
    }
}

impl View for InstallStatus {
    type V = StatusView;

    open spec fn view(&self) -> StatusView {
        match self {
            InstallStatus::Downloading => StatusView::Downloading,
            InstallStatus::Failed(m) => StatusView::Failed(m@),
            InstallStatus::Ready => StatusView::Ready,
        }
    }
}

impl View for InstallPlan {
    type V = PlanView;

    open spec fn view(&self) -> PlanView {
        PlanView {
            target: self.target@,
            install_dir: self.install_dir@,
            repo: self.repo@,
            asset: text_result(self.asset),
            project: self.project@,
            missing_error: self.missing_error@,
            make_executable: self.make_executable,
            report_status: self.report_status,
            resolve_error_prefix: self.resolve_error_prefix@,
        }
    }
}

impl View for InstallState {
    type V = StateView;

    open spec fn view(&self) -> StateView {
        match self {
            InstallState::CheckingInstalled => StateView::CheckingInstalled,
            InstallState::AnnouncingDownload => StateView::AnnouncingDownload,
            InstallState::FetchingRelease => StateView::FetchingRelease,
            InstallState::Downloading(a, u) => StateView::Downloading(a@, u@),
            InstallState::CheckingExtracted => StateView::CheckingExtracted,
            InstallState::MakingExecutable => StateView::MakingExecutable,
            InstallState::AnnouncingFailure(m) => StateView::AnnouncingFailure(m@),
            InstallState::AnnouncingReady => StateView::AnnouncingReady,
            InstallState::Resolving => StateView::Resolving,
            InstallState::Finished(r) => StateView::Finished(text_result(*r)),
        }
    }
}

impl View for InstallEvent {
    type V = EventView;

    open spec fn view(&self) -> EventView {
        match self {
            InstallEvent::FileChecked(b) => EventView::FileChecked(*b),
            InstallEvent::StatusShown => EventView::StatusShown,
            InstallEvent::ReleaseFetched(r) => EventView::ReleaseFetched(
                match r {
                    Ok(rel) => Ok(rel@),
                    Err(e) => Err(e@),
                },
            ),
            InstallEvent::Downloaded(r) => EventView::Downloaded(unit_result(*r)),
            InstallEvent::MadeExecutable(r) => EventView::MadeExecutable(unit_result(*r)),
            InstallEvent::PathResolved(r) => EventView::PathResolved(text_result(*r)),
        }
    }
}

impl View for InstallAction {
    type V = ActionView;

    open spec fn view(&self) -> ActionView {
        match self {
            InstallAction::CheckFile(p) => ActionView::CheckFile(p@),
            InstallAction::ShowStatus(s) => ActionView::ShowStatus(s@),
            InstallAction::FetchLatestRelease(r) => ActionView::FetchLatestRelease(r@),
            InstallAction::DownloadZip(u, d) => ActionView::DownloadZip(u@, d@),
            InstallAction::MakeExecutable(p) => ActionView::MakeExecutable(p@),
            InstallAction::ResolvePath(p) => ActionView::ResolvePath(p@),
            InstallAction::Finish(r) => ActionView::Finish(text_result(*r)),
        }
    }
}

/// The state after a failure with `cause`: shown to the user first where the
/// plan reports status, else final at once.
pub open spec fn failing(plan: PlanView, cause: Seq<char>) -> StateView {
    if plan.report_status {
        StateView::AnnouncingFailure(cause)
    } else {
        StateView::Finished(Err(cause))
    }
}

/// The state once the target is known to be missing and the user was told.
pub open spec fn fetching_or_failing(plan: PlanView) -> StateView {
    match plan.asset {
        Ok(_) => StateView::FetchingRelease,
        Err(why) => failing(plan, why),
    }
}

/// The state once the target is in place.
pub open spec fn in_place(plan: PlanView) -> StateView {
    if plan.report_status {
        StateView::AnnouncingReady
    } else {
        StateView::Resolving
    }
}

/// The state that an answer leads to. An answer that does not answer the
/// pending request leaves the state as it is.
pub open spec fn next_state(plan: PlanView, s: StateView, e: EventView) -> StateView {
    match (s, e) {
        (StateView::CheckingInstalled, EventView::FileChecked(exists)) => if exists {
            in_place(plan)
        } else if plan.report_status {
            StateView::AnnouncingDownload
        } else {
            fetching_or_failing(plan)
        },
        (StateView::AnnouncingDownload, EventView::StatusShown) => fetching_or_failing(plan),
        (StateView::FetchingRelease, EventView::ReleaseFetched(fetched)) => match fetched {
            Err(why) => failing(plan, why),
            Ok(release) => match plan.asset {
                Err(why) => failing(plan, why),
                Ok(name) => match first_named(release.assets, name) {
                    Some(i) => StateView::Downloading(name, release.assets[i].download_url),
                    None => failing(plan, asset_missing_message(name, plan.project, release.version)),
                },
            },
        },
        (StateView::Downloading(name, _), EventView::Downloaded(outcome)) => match outcome {
            Ok(()) => StateView::CheckingExtracted,
            Err(why) => failing(plan, download_failed_message(name, why)),
        },
        (StateView::CheckingExtracted, EventView::FileChecked(exists)) => if !exists {
            failing(plan, plan.missing_error)
        } else if plan.make_executable {
            StateView::MakingExecutable
        } else {
            in_place(plan)
        },
        (StateView::MakingExecutable, EventView::MadeExecutable(outcome)) => match outcome {
            Ok(()) => in_place(plan),
            Err(why) => failing(plan, why),
        },
        (StateView::AnnouncingFailure(message), EventView::StatusShown) => StateView::Finished(
            Err(message),
        ),
        (StateView::AnnouncingReady, EventView::StatusShown) => StateView::Resolving,
        (StateView::Resolving, EventView::PathResolved(resolved)) => match resolved {
            Ok(path) => StateView::Finished(Ok(path)),
            Err(why) => StateView::Finished(Err(plan.resolve_error_prefix + why)),
        },
        _ => s,
    }
}

/// The request pending in a state.
pub open spec fn pending(plan: PlanView, s: StateView) -> ActionView {
    match s {
        StateView::CheckingInstalled => ActionView::CheckFile(plan.target),
        StateView::AnnouncingDownload => ActionView::ShowStatus(StatusView::Downloading),
        StateView::FetchingRelease => ActionView::FetchLatestRelease(plan.repo),
        StateView::Downloading(_, url) => ActionView::DownloadZip(url, plan.install_dir),
        StateView::CheckingExtracted => ActionView::CheckFile(plan.target),
        StateView::MakingExecutable => ActionView::MakeExecutable(plan.target),
        StateView::AnnouncingFailure(m) => ActionView::ShowStatus(StatusView::Failed(m)),
        StateView::AnnouncingReady => ActionView::ShowStatus(StatusView::Ready),
        StateView::Resolving => ActionView::ResolvePath(plan.target),
        StateView::Finished(r) => ActionView::Finish(r),
    }
}

/// The state after a sequence of answers.
pub open spec fn after(plan: PlanView, s: StateView, answers: Seq<EventView>) -> StateView
    decreases answers.len(),
{
    if answers.len() == 0 {
        s
    } else {
        after(plan, next_state(plan, s, answers[0]), answers.drop_first())
    }
}

/// Whether an answer is of the kind that the request pending in `s` asks for.
pub open spec fn answers_request(s: StateView, e: EventView) -> bool {
    match (s, e) {
        (StateView::CheckingInstalled, EventView::FileChecked(_)) => true,
        (StateView::CheckingExtracted, EventView::FileChecked(_)) => true,
        (StateView::AnnouncingDownload, EventView::StatusShown) => true,
        (StateView::AnnouncingFailure(_), EventView::StatusShown) => true,
        (StateView::AnnouncingReady, EventView::StatusShown) => true,
        (StateView::FetchingRelease, EventView::ReleaseFetched(_)) => true,
        (StateView::Downloading(_, _), EventView::Downloaded(_)) => true,
        (StateView::MakingExecutable, EventView::MadeExecutable(_)) => true,
        (StateView::Resolving, EventView::PathResolved(_)) => true,
        _ => false,
    }
}

/// How many answered requests a state is at most away from the end.
pub open spec fn distance_to_end(s: StateView) -> nat {
    match s {
        StateView::CheckingInstalled => 9,
        StateView::AnnouncingDownload => 8,
        StateView::FetchingRelease => 7,
        StateView::Downloading(_, _) => 6,
        StateView::CheckingExtracted => 5,
        StateView::MakingExecutable => 4,
        StateView::AnnouncingFailure(_) => 3,
        StateView::AnnouncingReady => 2,
        StateView::Resolving => 1,
        StateView::Finished(_) => 0,
    }
}

/// Every answer to the pending request brings the installer closer to its
/// end, so that it finishes after at most nine answered requests; any other
/// answer leaves it where it is.
pub proof fn law_answers_move_forward(plan: PlanView, s: StateView, e: EventView)
    ensures
        answers_request(s, e) ==> distance_to_end(next_state(plan, s, e)) < distance_to_end(s),
        !answers_request(s, e) ==> next_state(plan, s, e) == s,
{
}

/// A finished installer stays finished with the same outcome.
pub proof fn law_finished_is_final(plan: PlanView, outcome: Result<Seq<char>, Seq<char>>, answers: Seq<EventView>)
    ensures
        after(plan, StateView::Finished(outcome), answers) == StateView::Finished(outcome),
    decreases answers.len(),
{
    if answers.len() > 0 {
        law_finished_is_final(plan, outcome, answers.drop_first());
    }
}

/// The states that follow a target found in place.
pub open spec fn past_installation(s: StateView) -> bool {
    s is AnnouncingReady || s is Resolving || s is Finished
}

proof fn lemma_past_installation_closed(plan: PlanView, s: StateView, answers: Seq<EventView>)
    requires
        past_installation(s),
    ensures
        past_installation(after(plan, s, answers)),
    decreases answers.len(),
{
    if answers.len() > 0 {
        lemma_past_installation_closed(plan, next_state(plan, s, answers[0]), answers.drop_first());
    }
}

/// A component found in place is never fetched nor downloaded again: after
/// the first check finds the target, no later request fetches a release or
/// downloads an archive, whatever the answers.
pub proof fn law_present_target_is_not_downloaded(plan: PlanView, answers: Seq<EventView>)
    ensures
        ({
            let s = after(
                plan,
                next_state(plan, StateView::CheckingInstalled, EventView::FileChecked(true)),
                answers,
            );
            !(pending(plan, s) is FetchLatestRelease) && !(pending(plan, s) is DownloadZip)
        }),
{
    lemma_past_installation_closed(
        plan,
        next_state(plan, StateView::CheckingInstalled, EventView::FileChecked(true)),
        answers,
    );
}

/// When the plan reports status, every failure before the path resolution is
/// shown to the user, with its message, before the installer finishes with it.
pub proof fn law_failures_are_shown(plan: PlanView, s: StateView, e: EventView, message: Seq<char>)
    requires
        plan.report_status,
        !(s is Finished),
        next_state(plan, s, e) == StateView::Finished(Err(message)),
    ensures
        s == StateView::AnnouncingFailure(message) || s is Resolving,
        s is AnnouncingFailure ==> pending(plan, s) == ActionView::ShowStatus(StatusView::Failed(message)),
{
}

/// A missing target is fetched: once the first check misses it (and the
/// user was told, where the plan reports status), the installer asks for the
/// latest release of the plan's repository.
pub proof fn law_missing_target_is_fetched(plan: PlanView)
    requires
        plan.asset is Ok,
    ensures
        ({
            let s1 = next_state(plan, StateView::CheckingInstalled, EventView::FileChecked(false));
            if plan.report_status {
                &&& pending(plan, s1) == ActionView::ShowStatus(StatusView::Downloading)
                &&& pending(plan, next_state(plan, s1, EventView::StatusShown))
                    == ActionView::FetchLatestRelease(plan.repo)
            } else {
                pending(plan, s1) == ActionView::FetchLatestRelease(plan.repo)
            }
        }),
{
}

/// The statuses shown along a run: the status requested in each state whose
/// request the answer answers.
pub open spec fn shown(plan: PlanView, s: StateView, answers: Seq<EventView>) -> Seq<StatusView>
    decreases answers.len(),
{
    if answers.len() == 0 {
        Seq::empty()
    } else {
        let rest = shown(plan, next_state(plan, s, answers[0]), answers.drop_first());
        match pending(plan, s) {
            ActionView::ShowStatus(status) => if answers_request(s, answers[0]) {
                seq![status] + rest
            } else {
                rest
            },
            _ => rest,
        }
    }
}

/// The status that closes an installation shown to the user, and how it
/// matches the outcome: `Ready` before a success or a failed path
/// resolution, `Failed(m)` before the failure `m`.
pub open spec fn closes(plan: PlanView, statuses: Seq<StatusView>, outcome: Result<Seq<char>, Seq<char>>) -> bool {
    ||| statuses == seq![StatusView::Ready] && (outcome is Ok || exists|cause: Seq<char>|
        outcome == Err::<Seq<char>, Seq<char>>(plan.resolve_error_prefix + cause))
    ||| exists|m: Seq<char>| statuses == seq![StatusView::Failed(m)] && outcome == Err::<Seq<char>, Seq<char>>(m)
}

proof fn lemma_resolving_shows_nothing(plan: PlanView, s: StateView, answers: Seq<EventView>)
    requires
        s is Resolving || s is Finished,
    ensures
        shown(plan, s, answers) == Seq::<StatusView>::empty(),
        s is Resolving && after(plan, s, answers) is Finished ==> ({
            let outcome = after(plan, s, answers)->Finished_0;
            outcome is Ok || exists|cause: Seq<char>|
                outcome == Err::<Seq<char>, Seq<char>>(plan.resolve_error_prefix + cause)
        }),
    decreases answers.len(),
{
    if answers.len() > 0 {
        let s1 = next_state(plan, s, answers[0]);
        lemma_resolving_shows_nothing(plan, s1, answers.drop_first());
        if s is Resolving && s1 is Finished {
            law_finished_is_final(plan, s1->Finished_0, answers.drop_first());
            match answers[0] {
                EventView::PathResolved(Err(why)) => {
                    assert(s1->Finished_0 == Err::<Seq<char>, Seq<char>>(plan.resolve_error_prefix + why));
                },
                _ => {},
            }
        }
    }
}

/// The states of a reporting plan between the announced download (or the
/// found target) and the closing status.
pub open spec fn before_closing(s: StateView) -> bool {
    ||| s is FetchingRelease
    ||| s is Downloading
    ||| s is CheckingExtracted
    ||| s is MakingExecutable
    ||| s is AnnouncingFailure
    ||| s is AnnouncingReady
}

proof fn lemma_closing(plan: PlanView, s: StateView, answers: Seq<EventView>)
    requires
        plan.report_status,
        before_closing(s),
        after(plan, s, answers) is Finished,
    ensures
        closes(plan, shown(plan, s, answers), after(plan, s, answers)->Finished_0),
    decreases answers.len(),
{
    let s1 = next_state(plan, s, answers[0]);
    let rest = answers.drop_first();
    if before_closing(s1) {
        lemma_closing(plan, s1, rest);
    } else {
        lemma_resolving_shows_nothing(plan, s1, rest);
        if s1 is Finished {
            law_finished_is_final(plan, s1->Finished_0, rest);
        }
        assert(shown(plan, s, answers) == seq![pending(plan, s)->ShowStatus_0] + shown(plan, s1, rest));
        assert(seq![pending(plan, s)->ShowStatus_0] + Seq::<StatusView>::empty()
            =~= seq![pending(plan, s)->ShowStatus_0]);
        if s is AnnouncingFailure {
            let m = s->AnnouncingFailure_0;
            assert(shown(plan, s, answers) == seq![StatusView::Failed(m)]);
        }
    }
}

/// The statuses of a reporting installer, over every run that finishes and
/// whose first answer is the check of the target: `Downloading` is shown
/// exactly when the target was missing, first; then exactly one closing
/// status is shown, last: `Ready` before a success (or a failed path
/// resolution), `Failed(m)` before the failure `m`.
pub proof fn law_statuses_of_a_run(plan: PlanView, present: bool, answers: Seq<EventView>)
    requires
        plan.report_status,
        answers.len() > 0,
        answers[0] == EventView::FileChecked(present),
        after(plan, StateView::CheckingInstalled, answers) is Finished,
    ensures
        ({
            let statuses = shown(plan, StateView::CheckingInstalled, answers);
            let outcome = after(plan, StateView::CheckingInstalled, answers)->Finished_0;
            &&& statuses.contains(StatusView::Downloading) <==> !present
            &&& present ==> closes(plan, statuses, outcome)
            &&& !present ==> statuses[0] == StatusView::Downloading && closes(plan, statuses.drop_first(), outcome)
            &&& statuses.last() is Ready || statuses.last() is Failed
            &&& statuses.last() matches StatusView::Failed(m) ==> outcome == Err::<Seq<char>, Seq<char>>(m)
            &&& outcome is Ok ==> statuses.last() == StatusView::Ready
        }),
{
    let s1 = next_state(plan, StateView::CheckingInstalled, answers[0]);
    let rest = answers.drop_first();
    let statuses = shown(plan, StateView::CheckingInstalled, answers);
    let outcome = after(plan, StateView::CheckingInstalled, answers)->Finished_0;
    assert(statuses == shown(plan, s1, rest));
    if present {
        lemma_closing(plan, s1, rest);
        lemma_closing_status(plan, statuses, outcome);
        assert(statuses.last() == statuses[0]);
    } else {
        assert(s1 == StateView::AnnouncingDownload);
        lemma_announced(plan, rest);
        let tail = statuses.drop_first();
        lemma_closing_status(plan, tail, outcome);
        assert(statuses.len() == 2);
        assert(statuses.last() == tail[0]);
        assert(statuses[0] == StatusView::Downloading);
    }
}

proof fn lemma_closing_status(plan: PlanView, t: Seq<StatusView>, outcome: Result<Seq<char>, Seq<char>>)
    requires
        closes(plan, t, outcome),
    ensures
        t.len() == 1,
        t[0] is Ready || t[0] is Failed,
        t[0] matches StatusView::Failed(m) ==> outcome == Err::<Seq<char>, Seq<char>>(m),
        outcome is Ok ==> t[0] == StatusView::Ready,
        !t.contains(StatusView::Downloading),
{
    if t.contains(StatusView::Downloading) {
        let i = choose|i: int| 0 <= i < t.len() && t[i] == StatusView::Downloading;
        assert(i == 0);
    }
}

proof fn lemma_announced(plan: PlanView, answers: Seq<EventView>)
    requires
        plan.report_status,
        after(plan, StateView::AnnouncingDownload, answers) is Finished,
    ensures
        ({
            let statuses = shown(plan, StateView::AnnouncingDownload, answers);
            let outcome = after(plan, StateView::AnnouncingDownload, answers)->Finished_0;
            &&& statuses.len() > 0
            &&& statuses[0] == StatusView::Downloading
            &&& closes(plan, statuses.drop_first(), outcome)
        }),
    decreases answers.len(),
{
    let s1 = next_state(plan, StateView::AnnouncingDownload, answers[0]);
    let rest = answers.drop_first();
    if answers[0] == EventView::StatusShown {
        lemma_closing(plan, s1, rest);
        let statuses = shown(plan, StateView::AnnouncingDownload, answers);
        assert(statuses == seq![StatusView::Downloading] + shown(plan, s1, rest));
        assert(statuses.drop_first() =~= shown(plan, s1, rest));
    } else {
        lemma_announced(plan, rest);
    }
}

/// States that keep to the plan: no status is shown for a quiet plan, and
/// nothing is marked executable unless the plan asks for it.
pub open spec fn keeps_to_plan(plan: PlanView, s: StateView) -> bool {
    &&& !plan.report_status ==> !(s is AnnouncingDownload || s is AnnouncingFailure || s is AnnouncingReady)
    &&& !plan.make_executable ==> !(s is MakingExecutable)
}

proof fn lemma_keeps_to_plan(plan: PlanView, s: StateView, answers: Seq<EventView>)
    requires
        keeps_to_plan(plan, s),
    ensures
        keeps_to_plan(plan, after(plan, s, answers)),
    decreases answers.len(),
{
    if answers.len() > 0 {
        lemma_keeps_to_plan(plan, next_state(plan, s, answers[0]), answers.drop_first());
    }
}

/// Whatever the answers, an installer started on a plan asks to show a
/// status only when the plan reports status, and to mark the target
/// executable only when the plan asks for it.
pub proof fn law_requests_follow_plan(plan: PlanView, answers: Seq<EventView>)
    ensures
        ({
            let s = after(plan, StateView::CheckingInstalled, answers);
            &&& !plan.report_status ==> !(pending(plan, s) is ShowStatus)
            &&& !plan.make_executable ==> !(pending(plan, s) is MakeExecutable)
        }),
{
    lemma_keeps_to_plan(plan, StateView::CheckingInstalled, answers);
}

/// The states reached only once the target was seen in place.
pub open spec fn target_confirmed(s: StateView) -> bool {
    ||| s is MakingExecutable
    ||| s is AnnouncingReady
    ||| s is Resolving
    ||| (s matches StateView::Finished(Ok(_)))
}

proof fn lemma_confirmation(plan: PlanView, s: StateView, answers: Seq<EventView>)
    requires
        !target_confirmed(s),
        target_confirmed(after(plan, s, answers)),
    ensures
        exists|k: int| 0 <= k < answers.len() && answers[k] == EventView::FileChecked(true),
    decreases answers.len(),
{
    let s1 = next_state(plan, s, answers[0]);
    if target_confirmed(s1) {
        assert(answers[0] == EventView::FileChecked(true));
    } else {
        lemma_confirmation(plan, s1, answers.drop_first());
        let k = choose|k: int|
            0 <= k < answers.drop_first().len() && answers.drop_first()[k] == EventView::FileChecked(true);
        assert(answers[k + 1] == EventView::FileChecked(true));
    }
}

proof fn lemma_resolution(plan: PlanView, s: StateView, answers: Seq<EventView>, path: Seq<char>)
    requires
        s != StateView::Finished(Ok(path)),
        after(plan, s, answers) == StateView::Finished(Ok(path)),
    ensures
        exists|k: int| 0 <= k < answers.len() && answers[k] == EventView::PathResolved(Ok(path)),
    decreases answers.len(),
{
    let s1 = next_state(plan, s, answers[0]);
    if s1 == StateView::Finished(Ok(path)) {
        assert(answers[0] == EventView::PathResolved(Ok(path)));
    } else {
        lemma_resolution(plan, s1, answers.drop_first(), path);
        let k = choose|k: int|
            0 <= k < answers.drop_first().len() && answers.drop_first()[k] == EventView::PathResolved(
                Ok(path),
            );
        assert(answers[k + 1] == EventView::PathResolved(Ok(path)));
    }
}

/// An installation succeeds only with a target that was seen in place, and
/// with the very path that the resolution gave.
pub proof fn law_success_needs_target(plan: PlanView, answers: Seq<EventView>, path: Seq<char>)
    requires
        after(plan, StateView::CheckingInstalled, answers) == StateView::Finished(Ok(path)),
    ensures
        exists|k: int| 0 <= k < answers.len() && answers[k] == EventView::FileChecked(true),
        exists|k: int| 0 <= k < answers.len() && answers[k] == EventView::PathResolved(Ok(path)),
{
    lemma_confirmation(plan, StateView::CheckingInstalled, answers);
    lemma_resolution(plan, StateView::CheckingInstalled, answers, path);
}

/// Once the check after extraction finds the target, the installation goes
/// on and never fails there: to marking the target executable when the plan
/// asks for it, else to showing `Ready` when the plan reports status, else
/// straight to resolving the target's path.
pub proof fn law_extracted_target_goes_on(plan: PlanView)
    ensures
        next_state(plan, StateView::CheckingExtracted, EventView::FileChecked(true)) == (if plan.make_executable {
            StateView::MakingExecutable
        } else if plan.report_status {
            StateView::AnnouncingReady
        } else {
            StateView::Resolving
        }),
        !(next_state(plan, StateView::CheckingExtracted, EventView::FileChecked(true)) is Finished),
        !(next_state(plan, StateView::CheckingExtracted, EventView::FileChecked(true)) is AnnouncingFailure),
{
}

/// The download is the release's first asset of the plan's archive name:
/// when the release holds an asset of that name, the installer downloads it
/// from the url of the first such asset into the plan's directory.
pub proof fn law_download_takes_named_asset(plan: PlanView, release: ReleaseView)
    requires
        plan.asset is Ok,
        exists|i: int| 0 <= i < release.assets.len() && release.assets[i].name == plan.asset->Ok_0,
    ensures
        ({
            let s = next_state(plan, StateView::FetchingRelease, EventView::ReleaseFetched(Ok(release)));
            exists|i: int|
                0 <= i < release.assets.len() && release.assets[i].name == plan.asset->Ok_0
                    && (forall|k: int| 0 <= k < i ==> release.assets[k].name != plan.asset->Ok_0)
                    && s == StateView::Downloading(plan.asset->Ok_0, release.assets[i].download_url)
                    && pending(plan, s) == ActionView::DownloadZip(
                        release.assets[i].download_url,
                        plan.install_dir,
                    )
        }),
{
    crate::github::law_first_named(release.assets, plan.asset->Ok_0);
    let i = first_named(release.assets, plan.asset->Ok_0)->0;
    assert(release.assets[i].name == plan.asset->Ok_0);
}

proof fn lemma_after_first(plan: PlanView, s: StateView, e: EventView, rest: Seq<EventView>)
    ensures
        after(plan, s, seq![e] + rest) == after(plan, next_state(plan, s, e), rest),
{
    assert((seq![e] + rest).drop_first() =~= rest);
}

/// A fresh installation succeeds with the resolved path. For a plan whose
/// archive the release holds, the answers "target missing", (status shown),
/// the release, a successful download, "target found", (successful chmod),
/// (status shown) and the resolved path `p` finish with `Ok(p)`; the
/// parenthesised answers are there exactly when the plan reports status or
/// marks the target executable.
pub proof fn law_fresh_install_succeeds(plan: PlanView, release: ReleaseView, p: Seq<char>)
    requires
        plan.asset is Ok,
        exists|i: int| 0 <= i < release.assets.len() && release.assets[i].name == plan.asset->Ok_0,
    ensures
        after(
            plan,
            StateView::CheckingInstalled,
            fresh_install_answers(plan, release, p),
        ) == StateView::Finished(Ok::<Seq<char>, Seq<char>>(p)),
{
    let shown = if plan.report_status { seq![EventView::StatusShown] } else { Seq::empty() };
    let chmod = if plan.make_executable { seq![EventView::MadeExecutable(Ok(()))] } else { Seq::empty() };
    law_download_takes_named_asset(plan, release);
    let s_fetch = StateView::FetchingRelease;
    let s_down = next_state(plan, s_fetch, EventView::ReleaseFetched(Ok(release)));
    let tail = seq![EventView::PathResolved(Ok(p))];
    let t5 = shown + tail;
    let t4 = chmod + t5;
    let t3 = seq![EventView::FileChecked(true)] + t4;
    let t2 = seq![EventView::Downloaded(Ok(()))] + t3;
    let t1 = seq![EventView::ReleaseFetched(Ok(release))] + t2;
    let t0 = shown + t1;
    let all = seq![EventView::FileChecked(false)] + t0;
    assert(fresh_install_answers(plan, release, p) =~= all);
    lemma_after_first(plan, StateView::CheckingInstalled, EventView::FileChecked(false), t0);
    let s0 = next_state(plan, StateView::CheckingInstalled, EventView::FileChecked(false));
    if plan.report_status {
        assert(t0 =~= seq![EventView::StatusShown] + t1);
        lemma_after_first(plan, s0, EventView::StatusShown, t1);
    } else {
        assert(t0 =~= t1);
    }
    lemma_after_first(plan, s_fetch, EventView::ReleaseFetched(Ok(release)), t2);
    lemma_after_first(plan, s_down, EventView::Downloaded(Ok(())), t3);
    lemma_after_first(plan, StateView::CheckingExtracted, EventView::FileChecked(true), t4);
    let s_found = next_state(plan, StateView::CheckingExtracted, EventView::FileChecked(true));
    if plan.make_executable {
        assert(t4 =~= seq![EventView::MadeExecutable(Ok(()))] + t5);
        lemma_after_first(plan, s_found, EventView::MadeExecutable(Ok(())), t5);
    } else {
        assert(t4 =~= t5);
    }
    let s_ready = if plan.report_status { StateView::AnnouncingReady } else { StateView::Resolving };
    if plan.report_status {
        assert(t5 =~= seq![EventView::StatusShown] + tail);
        lemma_after_first(plan, s_ready, EventView::StatusShown, tail);
    } else {
        assert(t5 =~= tail);
    }
    assert(tail =~= seq![EventView::PathResolved(Ok(p))] + Seq::<EventView>::empty());
    lemma_after_first(plan, StateView::Resolving, EventView::PathResolved(Ok(p)), Seq::empty());
}

/// The answers of a fresh installation that goes well.
pub open spec fn fresh_install_answers(plan: PlanView, release: ReleaseView, p: Seq<char>) -> Seq<EventView> {
    let shown = if plan.report_status { seq![EventView::StatusShown] } else { Seq::empty() };
    let chmod = if plan.make_executable { seq![EventView::MadeExecutable(Ok(()))] } else { Seq::empty() };
    seq![EventView::FileChecked(false)] + shown + seq![
        EventView::ReleaseFetched(Ok(release)),
        EventView::Downloaded(Ok(())),
        EventView::FileChecked(true),
    ] + chmod + shown + seq![EventView::PathResolved(Ok(p))]
}

/// Every request names what the plan names: file checks, the chmod and the
/// path resolution are about the plan's target, the release is fetched from
/// the plan's repository, and archives are extracted into the plan's
/// directory.
pub proof fn law_requests_name_the_plan(plan: PlanView, s: StateView)
    ensures
        pending(plan, s) matches ActionView::CheckFile(p) ==> p == plan.target,
        pending(plan, s) matches ActionView::MakeExecutable(p) ==> p == plan.target,
        pending(plan, s) matches ActionView::ResolvePath(p) ==> p == plan.target,
        pending(plan, s) matches ActionView::FetchLatestRelease(r) ==> r == plan.repo,
        pending(plan, s) matches ActionView::DownloadZip(_, d) ==> d == plan.install_dir,
{
}

fn text(s: &String) -> (r: String)
    ensures
        r@ == s@,
{
    s.clone()
}

fn failing_with(plan: &InstallPlan, cause: String) -> (r: InstallState)
    ensures
        r@ == failing(plan@, cause@),
{
    if plan.report_status {
        InstallState::AnnouncingFailure(cause)
    } else {
        InstallState::Finished(Err(cause))
    }
}

fn fetching_or_failing_exec(plan: &InstallPlan) -> (r: InstallState)
    ensures
        r@ == fetching_or_failing(plan@),
{
    match &plan.asset {
        Ok(_) => InstallState::FetchingRelease,
        Err(why) => failing_with(plan, text(why)),
    }
}

fn in_place_exec(plan: &InstallPlan) -> (r: InstallState)
    ensures
        r@ == in_place(plan@),
{
    if plan.report_status {
        InstallState::AnnouncingReady
    } else {
        InstallState::Resolving
    }
}

fn after_release(plan: &InstallPlan, release: Release) -> (r: InstallState)
    ensures
        r@ == next_state(plan@, StateView::FetchingRelease, EventView::ReleaseFetched(Ok(release@))),
{
    match &plan.asset {
        Err(why) => failing_with(plan, text(why)),
        Ok(name) => {
            let found = find_asset(&release.assets, name.as_str());
            proof {
                crate::github::law_first_named(release@.assets, name@);
            }
            match found {
                Some(i) => {
                    assert(release@.assets[i as int] == release.assets@[i as int]@);
                    let url = text(&release.assets[i].download_url);
                    InstallState::Downloading(text(name), url)
                },
                None => failing_with(
                    plan,
                    asset_missing(name.as_str(), plan.project.as_str(), release.version.as_str()),
                ),
            }
        },
    }
}

fn next(plan: &InstallPlan, s: InstallState, e: InstallEvent) -> (r: InstallState)
    ensures
        r@ == next_state(plan@, s@, e@),
{
    match (s, e) {
        (InstallState::CheckingInstalled, InstallEvent::FileChecked(exists)) => {
            if exists {
                in_place_exec(plan)
            } else if plan.report_status {
                InstallState::AnnouncingDownload
            } else {
                fetching_or_failing_exec(plan)
            }
        },
        (InstallState::AnnouncingDownload, InstallEvent::StatusShown) => fetching_or_failing_exec(
            plan,
        ),
        (InstallState::FetchingRelease, InstallEvent::ReleaseFetched(fetched)) => match fetched {
            Err(why) => failing_with(plan, why),
            Ok(release) => after_release(plan, release),
        },
        (InstallState::Downloading(name, url), InstallEvent::Downloaded(outcome)) => match outcome {
            Ok(()) => InstallState::CheckingExtracted,
            Err(why) => failing_with(plan, download_failed(name.as_str(), why.as_str())),
        },
        (InstallState::CheckingExtracted, InstallEvent::FileChecked(exists)) => {
            if !exists {
                failing_with(plan, text(&plan.missing_error))
            } else if plan.make_executable {
                InstallState::MakingExecutable
            } else {
                in_place_exec(plan)
            }
        },
        (InstallState::MakingExecutable, InstallEvent::MadeExecutable(outcome)) => match outcome {
            Ok(()) => in_place_exec(plan),
            Err(why) => failing_with(plan, why),
        },
        (InstallState::AnnouncingFailure(message), InstallEvent::StatusShown) => {
            InstallState::Finished(Err(message))
        },
        (InstallState::AnnouncingReady, InstallEvent::StatusShown) => InstallState::Resolving,
        (InstallState::Resolving, InstallEvent::PathResolved(resolved)) => match resolved {
            Ok(path) => InstallState::Finished(Ok(path)),
            Err(why) => InstallState::Finished(
                Err(text(&plan.resolve_error_prefix).concat(why.as_str())),
            ),
        },
        (s, _) => s,
    }
}

impl Installer {
    /// An installer that starts by checking whether the target is in place.
    pub fn new(plan: InstallPlan) -> (r: Installer)
        ensures
            r.plan == plan,
            r.state@ == StateView::CheckingInstalled,
    {
        Installer { plan, state: InstallState::CheckingInstalled }
    }

    /// The request that the installer waits on.
    pub fn request(&self) -> (a: InstallAction)
        ensures
            a@ == pending(self.plan@, self.state@),
    {
        match &self.state {
            InstallState::CheckingInstalled => InstallAction::CheckFile(text(&self.plan.target)),
            InstallState::AnnouncingDownload => InstallAction::ShowStatus(
                InstallStatus::Downloading,
            ),
            InstallState::FetchingRelease => InstallAction::FetchLatestRelease(
                text(&self.plan.repo),
            ),
            InstallState::Downloading(_, url) => InstallAction::DownloadZip(
                text(url),
                text(&self.plan.install_dir),
            ),
            InstallState::CheckingExtracted => InstallAction::CheckFile(text(&self.plan.target)),
            InstallState::MakingExecutable => InstallAction::MakeExecutable(
                text(&self.plan.target),
            ),
            InstallState::AnnouncingFailure(m) => InstallAction::ShowStatus(
                InstallStatus::Failed(text(m)),
            ),
            InstallState::AnnouncingReady => InstallAction::ShowStatus(InstallStatus::Ready),
            InstallState::Resolving => InstallAction::ResolvePath(text(&self.plan.target)),
            InstallState::Finished(r) => InstallAction::Finish(
                match r {
                    Ok(p) => Ok(text(p)),
                    Err(e) => Err(text(e)),
                },
            ),
        }
    }

    /// Moves the installer on by the answer to its request.
    pub fn advance(&mut self, answer: InstallEvent)
        ensures
            final(self).plan == old(self).plan,
            final(self).state@ == next_state(old(self).plan@, old(self).state@, answer@),
    {
        let mut state = InstallState::CheckingInstalled;
        std::mem::swap(&mut state, &mut self.state);
        self.state = next(&self.plan, state, answer);
    }
}

} // verus!
