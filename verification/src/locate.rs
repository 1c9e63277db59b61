//! Finding the executable of a tool, one decision at a time.
//!
//! A search is a conversation: the library names an [`Action`], the caller
//! performs it and reports what happened as an [`Event`], and [`step`] decides
//! what comes next. The order is fixed. The language server is first looked
//! up on the project's search path, and a hit there ends the search. Then the
//! remembered path is tried, if there is one and its file still exists. Then
//! the latest release is installed, unless its executable is already in
//! place, and everything else in the working directory is removed.

use vstd::prelude::*;
use crate::platform::{Architecture, Os};
use crate::release::{
    binary_path, download_url, spec_binary_path, spec_download_url, spec_version_dir, version_dir,
    Tool,
};
use crate::sweep::{plan_sweep, spec_plan_sweep, Entry};

verus! {

/// Where a search stands: what the last action was, and what of its answer
/// is still needed.
#[derive(Debug, PartialEq, Eq)]
pub enum Stage {
    /// Nothing has been asked yet.
    Start,
    /// The tool is being looked up on the search path.
    PathLookup,
    /// The remembered path is being probed.
    CacheProbe,
    /// The latest release is being asked for.
    Release,
    /// The platform is being asked for; `tag` is the latest release.
    Platform { tag: String },
    /// The executable of release `tag` is being probed.
    BinaryProbe { tag: String, os: Os, arch: Architecture },
    /// The archive of release `tag` is being downloaded and unpacked.
    Download { tag: String },
    /// The executable of release `tag` is being marked executable.
    Permission { tag: String },
    /// The working directory is being listed.
    Listing { tag: String },
    /// Stale entries are being removed; the installation succeeded.
    Sweeping { tag: String },
    /// Stale entries are being removed; the listing broke off with `message`.
    Failing { message: String },
    /// The search is over.
    Done,
}

/// A stage by its values.
pub enum StageView {
    Start,
    PathLookup,
    CacheProbe,
    Release,
    Platform { tag: Seq<char> },
    BinaryProbe { tag: Seq<char>, os: Os, arch: Architecture },
    Download { tag: Seq<char> },
    Permission { tag: Seq<char> },
    Listing { tag: Seq<char> },
    Sweeping { tag: Seq<char> },
    Failing { message: Seq<char> },
    Done,
}

impl View for Stage {
    type V = StageView;

    open spec fn view(&self) -> StageView {
        match self {
            Stage::Start => StageView::Start,
            Stage::PathLookup => StageView::PathLookup,
            Stage::CacheProbe => StageView::CacheProbe,
            Stage::Release => StageView::Release,
            Stage::Platform { tag } => StageView::Platform { tag: tag@ },
            Stage::BinaryProbe { tag, os, arch } => StageView::BinaryProbe {
                tag: tag@,
                os: *os,
                arch: *arch,
            },
            Stage::Download { tag } => StageView::Download { tag: tag@ },
            Stage::Permission { tag } => StageView::Permission { tag: tag@ },
            Stage::Listing { tag } => StageView::Listing { tag: tag@ },
            Stage::Sweeping { tag } => StageView::Sweeping { tag: tag@ },
            Stage::Failing { message } => StageView::Failing { message: message@ },
            Stage::Done => StageView::Done,
        }
    }
}

/// What the caller reports back. Errors are carried as the text that
/// describes them.
#[derive(Debug, PartialEq, Eq)]
pub enum Event {
    /// A search is asked for.
    Begin,
    /// The search path held the tool at this path, or did not hold it.
    PathLookup(Option<String>),
    /// Whether the probed path names an existing regular file.
    FileProbe(bool),
    /// The tag of the latest release, or why it could not be had.
    Release(Result<String, String>),
    /// The platform the plugin runs on.
    Platform(Os, Architecture),
    /// The archive was downloaded and unpacked, or why not.
    Downloaded(Result<(), String>),
    /// The file was marked executable, or why not.
    MadeExecutable(Result<(), String>),
    /// The entries of the working directory, or why it could not be listed.
    Listing(Result<Vec<Entry>, String>),
    /// The removals were attempted. Whether each succeeded is of no
    /// interest.
    Swept,
}

/// What the host is told of an installation under way.
#[derive(Clone, Copy, Debug, PartialEq, Eq, Structural)]
pub enum InstallationStatus {
    CheckingForUpdate,
    Downloading,
}

/// The status to report for `tool` before a step of its installation: the
/// given one where the tool reports at all.
pub open spec fn spec_report(tool: Tool, status: InstallationStatus) -> Option<InstallationStatus> {
    if tool.spec_reports_status() {
        Some(status)
    } else {
        None
    }
}

/// What the caller is to do next.
#[derive(Debug, PartialEq, Eq)]
pub enum Action {
    /// Look `name` up on the project's search path.
    LookupOnPath { name: String },
    /// Find out whether `path` names an existing regular file.
    ProbeFile { path: String },
    /// Ask the release index for the latest release of `repository`:
    /// `require_assets` says whether only releases with assets count,
    /// `pre_release` whether pre-releases count. Before that, tell the host
    /// of `report`, if there is one.
    FetchRelease {
        repository: String,
        require_assets: bool,
        pre_release: bool,
        report: Option<InstallationStatus>,
    },
    /// Find out the operating system and the architecture.
    DetectPlatform,
    /// Download the zip archive at `url` and unpack it into `directory`.
    /// Before that, tell the host of `report`, if there is one.
    Download { url: String, directory: String, report: Option<InstallationStatus> },
    /// Mark the file at `path` executable.
    MakeExecutable { path: String },
    /// List the entries of the working directory.
    ListDirectory,
    /// Remove the entries at these places of the listing, with all they
    /// hold, and go on whether or not each removal succeeds.
    Remove { places: Vec<usize> },
    /// End the search with the executable's path, or with an error.
    Finish { outcome: Result<String, String> },
}

/// An action by its values.
pub enum ActionView {
    LookupOnPath { name: Seq<char> },
    ProbeFile { path: Seq<char> },
    FetchRelease {
        repository: Seq<char>,
        require_assets: bool,
        pre_release: bool,
        report: Option<InstallationStatus>,
    },
    DetectPlatform,
    Download { url: Seq<char>, directory: Seq<char>, report: Option<InstallationStatus> },
    MakeExecutable { path: Seq<char> },
    ListDirectory,
    Remove { places: Seq<usize> },
    Finish { outcome: Result<Seq<char>, Seq<char>> },
}

impl View for Action {
    type V = ActionView;

    open spec fn view(&self) -> ActionView {
        match self {
            Action::LookupOnPath { name } => ActionView::LookupOnPath { name: name@ },
            Action::ProbeFile { path } => ActionView::ProbeFile { path: path@ },
            Action::FetchRelease {
                repository,
                require_assets,
                pre_release,
                report,
            } => ActionView::FetchRelease {
                repository: repository@,
                require_assets: *require_assets,
                pre_release: *pre_release,
                report: *report,
            },
            Action::DetectPlatform => ActionView::DetectPlatform,
            Action::Download { url, directory, report } => ActionView::Download {
                url: url@,
                directory: directory@,
                report: *report,
            },
            Action::MakeExecutable { path } => ActionView::MakeExecutable { path: path@ },
            Action::ListDirectory => ActionView::ListDirectory,
            Action::Remove { places } => ActionView::Remove { places: places@ },
            Action::Finish { outcome } => ActionView::Finish {
                outcome: match outcome {
                    Ok(path) => Ok(path@),
                    Err(message) => Err(message@),
                },
            },
        }
    }
}

/// A remembered path by its value.
pub open spec fn spec_cache(cache: Option<String>) -> Option<Seq<char>> {
    match cache {
        Some(path) => Some(path@),
        None => None,
    }
}

/// The outcome of one decision: the stage the search is in afterwards, the
/// action to perform, and the path that is remembered afterwards.
pub struct Step {
    pub stage: StageView,
    pub action: ActionView,
    pub cache: Option<Seq<char>>,
}

/// Message of a failed download.
pub open spec fn spec_download_failure(reason: Seq<char>) -> Seq<char> {
    "failed to download file: "@ + reason
}

/// Message of a working directory that could not be listed.
pub open spec fn spec_listing_failure(reason: Seq<char>) -> Seq<char> {
    "failed to list working directory "@ + reason
}

/// Message for an event that does not answer the action of the stage.
pub open spec fn spec_protocol_failure() -> Seq<char> {
    "event does not answer the pending action"@
}

/// The search ends with `outcome`; what is remembered stays.
pub open spec fn spec_finish(
    cache: Option<Seq<char>>,
    outcome: Result<Seq<char>, Seq<char>>,
) -> Step {
    Step { stage: StageView::Done, action: ActionView::Finish { outcome }, cache }
}

/// The search ends with the executable of release `tag`, which is remembered
/// from now on.
pub open spec fn spec_installed(tool: Tool, tag: Seq<char>) -> Step {
    let path = spec_binary_path(tool, tag);
    Step {
        stage: StageView::Done,
        action: ActionView::Finish { outcome: Ok(path) },
        cache: Some(path),
    }
}

/// The latest release is asked for: the newest that is no pre-release,
/// whether or not it has assets.
pub open spec fn spec_resolve(tool: Tool, cache: Option<Seq<char>>) -> Step {
    Step {
        stage: StageView::Release,
        action: ActionView::FetchRelease {
            repository: tool.spec_repository(),
            require_assets: false,
            pre_release: false,
            report: spec_report(tool, InstallationStatus::CheckingForUpdate),
        },
        cache,
    }
}

/// The remembered path is probed if there is one; else the latest release is
/// asked for.
pub open spec fn spec_consult_cache(tool: Tool, cache: Option<Seq<char>>) -> Step {
    match cache {
        Some(path) => Step {
            stage: StageView::CacheProbe,
            action: ActionView::ProbeFile { path },
            cache,
        },
        None => spec_resolve(tool, cache),
    }
}

/// The decision taken for `tool` in `stage` on `event`, with `cache`
/// remembered. An event that does not answer the stage's action ends the
/// search with an error.
pub open spec fn spec_step(
    tool: Tool,
    cache: Option<Seq<char>>,
    stage: StageView,
    event: Event,
) -> Step {
    match (stage, event) {
        (StageView::Start, Event::Begin) => {
            if tool.spec_searches_path() {
                Step {
                    stage: StageView::PathLookup,
                    action: ActionView::LookupOnPath { name: tool.spec_name() },
                    cache,
                }
            } else {
                spec_consult_cache(tool, cache)
            }
        },
        (StageView::PathLookup, Event::PathLookup(Some(path))) => spec_finish(cache, Ok(path@)),
        (StageView::PathLookup, Event::PathLookup(None)) => spec_consult_cache(tool, cache),
        (StageView::CacheProbe, Event::FileProbe(is_file)) => {
            match cache {
                Some(path) if is_file => spec_finish(cache, Ok(path)),
                _ => spec_resolve(tool, cache),
            }
        },
        (StageView::Release, Event::Release(Ok(tag))) => Step {
            stage: StageView::Platform { tag: tag@ },
            action: ActionView::DetectPlatform,
            cache,
        },
        (StageView::Release, Event::Release(Err(reason))) => spec_finish(cache, Err(reason@)),
        (StageView::Platform { tag }, Event::Platform(os, arch)) => Step {
            stage: StageView::BinaryProbe { tag, os, arch },
            action: ActionView::ProbeFile { path: spec_binary_path(tool, tag) },
            cache,
        },
        (StageView::BinaryProbe { tag, os, arch }, Event::FileProbe(is_file)) => {
            if is_file {
                spec_installed(tool, tag)
            } else {
                Step {
                    stage: StageView::Download { tag },
                    action: ActionView::Download {
                        url: spec_download_url(tool, tag, os, arch),
                        directory: spec_version_dir(tool, tag),
                        report: spec_report(tool, InstallationStatus::Downloading),
                    },
                    cache,
                }
            }
        },
        (StageView::Download { tag }, Event::Downloaded(Ok(_))) => Step {
            stage: StageView::Permission { tag },
            action: ActionView::MakeExecutable { path: spec_binary_path(tool, tag) },
            cache,
        },
        (StageView::Download { tag }, Event::Downloaded(Err(reason))) => spec_finish(
            cache,
            Err(spec_download_failure(reason@)),
        ),
        (StageView::Permission { tag }, Event::MadeExecutable(Ok(_))) => Step {
            stage: StageView::Listing { tag },
            action: ActionView::ListDirectory,
            cache,
        },
        (StageView::Permission { tag }, Event::MadeExecutable(Err(reason))) => spec_finish(
            cache,
            Err(reason@),
        ),
        (StageView::Listing { tag }, Event::Listing(Ok(entries))) => {
            let plan = spec_plan_sweep(entries@, spec_version_dir(tool, tag));
            Step {
                stage: match plan.failure {
                    Some(message) => StageView::Failing { message },
                    None => StageView::Sweeping { tag },
                },
                action: ActionView::Remove { places: plan.remove },
                cache,
            }
        },
        (StageView::Listing { tag }, Event::Listing(Err(reason))) => spec_finish(
            cache,
            Err(spec_listing_failure(reason@)),
        ),
        (StageView::Sweeping { tag }, Event::Swept) => spec_installed(tool, tag),
        (StageView::Failing { message }, Event::Swept) => spec_finish(cache, Err(message)),
        _ => spec_finish(cache, Err(spec_protocol_failure())),
    }
}

fn finish(outcome: Result<String, String>) -> (r: (Stage, Action))
    ensures
        r.0@ == StageView::Done,
        r.1@ == (Action::Finish { outcome })@,
{
    (Stage::Done, Action::Finish { outcome })
}

fn reject() -> (r: (Stage, Action))
    ensures
        r.0@ == StageView::Done,
        r.1@ == (ActionView::Finish { outcome: Err(spec_protocol_failure()) }),
{
    finish(Err(String::from_str("event does not answer the pending action")))
}

fn installed(tool: Tool, cache: &mut Option<String>, tag: &String) -> (r: (Stage, Action))
    ensures
        (Step { stage: r.0@, action: r.1@, cache: spec_cache(*final(cache)) }) == spec_installed(
            tool,
            tag@,
        ),
{
    let path = binary_path(tool, tag.as_str());
    *cache = Some(path.clone());
    finish(Ok(path))
}

fn report(tool: Tool, status: InstallationStatus) -> (r: Option<InstallationStatus>)
    ensures
        r == spec_report(tool, status),
{
    if tool.reports_status() {
        Some(status)
    } else {
        None
    }
}

fn resolve(tool: Tool) -> (r: (Stage, Action))
    ensures
        r.0@ == StageView::Release,
        r.1@ == spec_resolve(tool, None).action,
{
    (
        Stage::Release,
        Action::FetchRelease {
            repository: String::from_str(tool.repository()),
            require_assets: false,
            pre_release: false,
            report: report(tool, InstallationStatus::CheckingForUpdate),
        },
    )
}

fn consult_cache(tool: Tool, cache: &Option<String>) -> (r: (Stage, Action))
    ensures
        (Step { stage: r.0@, action: r.1@, cache: spec_cache(*cache) }) == spec_consult_cache(
            tool,
            spec_cache(*cache),
        ),
{
    match cache {
        Some(path) => (Stage::CacheProbe, Action::ProbeFile { path: path.clone() }),
        None => resolve(tool),
    }
}

/// Decides what comes next in the search for `tool`, given the stage it is
/// in and what the caller reports. `cache` is the path remembered for the
/// tool: it is replaced when, and only when, the search ends with an
/// installed executable.
pub fn step(tool: Tool, cache: &mut Option<String>, stage: Stage, event: Event) -> (r: (
    Stage,
    Action,
))
    ensures
        (Step { stage: r.0@, action: r.1@, cache: spec_cache(*final(cache)) }) == spec_step(
            tool,
            spec_cache(*old(cache)),
            stage@,
            event,
        ),
{
    match stage {
        Stage::Start => match event {
            Event::Begin => {
                if tool.searches_path() {
                    (
                        Stage::PathLookup,
                        Action::LookupOnPath { name: String::from_str(tool.name()) },
                    )
                } else {
                    consult_cache(tool, cache)
                }
            },
            _ => reject(),
        },
        Stage::PathLookup => match event {
            Event::PathLookup(Some(path)) => finish(Ok(path)),
            Event::PathLookup(None) => consult_cache(tool, cache),
            _ => reject(),
        },
        Stage::CacheProbe => match event {
            Event::FileProbe(is_file) => {
                if is_file && cache.is_some() {
                    match cache {
                        Some(path) => finish(Ok(path.clone())),
                        None => resolve(tool),
                    }
                } else {
                    resolve(tool)
                }
            },
            _ => reject(),
        },
        Stage::Release => match event {
            Event::Release(Ok(tag)) => (Stage::Platform { tag }, Action::DetectPlatform),
            Event::Release(Err(reason)) => finish(Err(reason)),
            _ => reject(),
        },
        Stage::Platform { tag } => match event {
            Event::Platform(os, arch) => {
                let path = binary_path(tool, tag.as_str());
                (Stage::BinaryProbe { tag, os, arch }, Action::ProbeFile { path })
            },
            _ => reject(),
        },
        Stage::BinaryProbe { tag, os, arch } => match event {
            Event::FileProbe(is_file) => {
                if is_file {
                    installed(tool, cache, &tag)
                } else {
                    let url = download_url(tool, tag.as_str(), os, arch);
                    let directory = version_dir(tool, tag.as_str());
                    let report = report(tool, InstallationStatus::Downloading);
                    (Stage::Download { tag }, Action::Download { url, directory, report })
                }
            },
            _ => reject(),
        },
        Stage::Download { tag } => match event {
            Event::Downloaded(Ok(_)) => {
                let path = binary_path(tool, tag.as_str());
                (Stage::Permission { tag }, Action::MakeExecutable { path })
            },
            Event::Downloaded(Err(reason)) => {
                let mut message = String::from_str("failed to download file: ");
                message.append(reason.as_str());
                finish(Err(message))
            },
            _ => reject(),
        },
        Stage::Permission { tag } => match event {
            Event::MadeExecutable(Ok(_)) => (Stage::Listing { tag }, Action::ListDirectory),
            Event::MadeExecutable(Err(reason)) => finish(Err(reason)),
            _ => reject(),
        },
        Stage::Listing { tag } => match event {
            Event::Listing(Ok(entries)) => {
                let keep = version_dir(tool, tag.as_str());
                let plan = plan_sweep(&entries, &keep);
                let places = plan.remove;
                match plan.failure {
                    Some(message) => (Stage::Failing { message }, Action::Remove { places }),
                    None => (Stage::Sweeping { tag }, Action::Remove { places }),
                }
            },
            Event::Listing(Err(reason)) => {
                let mut message = String::from_str("failed to list working directory ");
                message.append(reason.as_str());
                finish(Err(message))
            },
            _ => reject(),
        },
        Stage::Sweeping { tag } => match event {
            Event::Swept => installed(tool, cache, &tag),
            _ => reject(),
        },
        Stage::Failing { message } => match event {
            Event::Swept => finish(Err(message)),
            _ => reject(),
        },
        Stage::Done => reject(),
    }
}

/// A hit on the search path ends the search for the language server at
/// once: the search starts with the lookup, and the path found is the
/// answer whatever is remembered. No release is asked for and nothing is
/// downloaded or remembered.
pub proof fn lemma_search_path_wins(cache: Option<Seq<char>>, found: String)
    ensures
        spec_step(Tool::LanguageServer, cache, StageView::Start, Event::Begin) == (Step {
            stage: StageView::PathLookup,
            action: ActionView::LookupOnPath { name: Tool::LanguageServer.spec_name() },
            cache,
        }),
        spec_step(
            Tool::LanguageServer,
            cache,
            StageView::PathLookup,
            Event::PathLookup(Some(found)),
        ) == spec_finish(cache, Ok(found@)),
{
}

/// The context server is never looked up on the search path: its search
/// starts with what is remembered.
pub proof fn lemma_context_server_skips_search_path(cache: Option<Seq<char>>)
    ensures
        spec_step(Tool::ContextServer, cache, StageView::Start, Event::Begin)
            == spec_consult_cache(Tool::ContextServer, cache),
{
}

/// A remembered path whose file is gone is not returned: the search goes on
/// to the latest release. One whose file exists is returned as it is.
pub proof fn lemma_remembered_path_needs_its_file(tool: Tool, path: Seq<char>)
    ensures
        spec_step(tool, Some(path), StageView::CacheProbe, Event::FileProbe(false))
            == spec_resolve(tool, Some(path)),
        spec_step(tool, Some(path), StageView::CacheProbe, Event::FileProbe(true)) == spec_finish(
            Some(path),
            Ok(path),
        ),
{
}

/// A release whose executable is in place is not downloaded again: the
/// search ends with its path, which is remembered. A search that starts
/// after that, for a tool that is not found on the search path, probes this
/// very path, and ends with it if the file still exists.
pub proof fn lemma_installed_release_is_kept(
    tool: Tool,
    cache: Option<Seq<char>>,
    tag: Seq<char>,
    os: Os,
    arch: Architecture,
)
    ensures
        ({
            let first = spec_step(
                tool,
                cache,
                StageView::BinaryProbe { tag, os, arch },
                Event::FileProbe(true),
            );
            let path = spec_binary_path(tool, tag);
            &&& first == spec_installed(tool, tag)
            &&& spec_consult_cache(tool, first.cache) == (Step {
                stage: StageView::CacheProbe,
                action: ActionView::ProbeFile { path },
                cache: Some(path),
            })
            &&& spec_step(tool, first.cache, StageView::CacheProbe, Event::FileProbe(true))
                == spec_finish(Some(path), Ok(path))
        }),
{
}

/// A download is asked for in one situation only: the executable of the
/// latest release was probed and is not there.
pub proof fn lemma_download_only_for_missing_release(
    tool: Tool,
    cache: Option<Seq<char>>,
    stage: StageView,
    event: Event,
)
    requires
        spec_step(tool, cache, stage, event).action is Download,
    ensures
        stage is BinaryProbe,
        event == Event::FileProbe(false),
{
}

/// What is remembered changes only when a search ends with an installed
/// executable, and then it is that executable's path.
pub proof fn lemma_cache_follows_installation(
    tool: Tool,
    cache: Option<Seq<char>>,
    stage: StageView,
    event: Event,
)
    ensures
        ({
            let next = spec_step(tool, cache, stage, event);
            next.cache != cache ==> next.stage == StageView::Done && next.cache is Some
                && next.action == (ActionView::Finish { outcome: Ok(next.cache->Some_0) })
        }),
{
}

/// How far a search has come: the number of its stage in the fixed order.
pub open spec fn spec_progress(stage: StageView) -> nat {
    match stage {
        StageView::Start => 0,
        StageView::PathLookup => 1,
        StageView::CacheProbe => 2,
        StageView::Release => 3,
        StageView::Platform { .. } => 4,
        StageView::BinaryProbe { .. } => 5,
        StageView::Download { .. } => 6,
        StageView::Permission { .. } => 7,
        StageView::Listing { .. } => 8,
        StageView::Sweeping { .. } => 9,
        StageView::Failing { .. } => 9,
        StageView::Done => 10,
    }
}

/// A search only moves forward and nothing is tried twice: each decision
/// leads to a later stage, so a search is over after ten decisions at most.
/// It is over exactly when the action is to finish, and a search that is
/// over stays so.
pub proof fn lemma_search_advances(
    tool: Tool,
    cache: Option<Seq<char>>,
    stage: StageView,
    event: Event,
)
    ensures
        ({
            let next = spec_step(tool, cache, stage, event);
            &&& next.stage is Done <==> next.action is Finish
            &&& !(stage is Done) ==> spec_progress(next.stage) > spec_progress(stage)
            &&& stage is Done ==> next.stage is Done
        }),
{
}

} // verus!
