//! Resolution of the expected credential through a fixed chain of sources: an
//! explicit value, then a locally authenticated command-line tool, then the remote
//! key-management API. The resolver decides; its caller runs each tool invocation
//! or remote call that it asks for and reports what came back.
use crate::text::{trim_of, trim_text, views};
use vstd::prelude::*;

verus! {

/// Where a resolved credential came from.
#[derive(PartialEq, Eq, Structural, Clone, Copy, Debug)]
pub enum Source {
    Explicit,
    LocalTool,
    RemoteApi,
}

/// Why the remote step, the last of the chain, produced no credential.
#[derive(Debug)]
pub enum ResolveError {
    /// The ambient service credentials could not be turned into an authenticator.
    RemoteAuth(String),
    /// The call that lists the project's keys failed.
    RemoteList(String),
    /// The list response held no keys at all.
    NoKeys,
    /// No listed key has the expected display name.
    KeyNotFound,
    /// The matching key has no resource name.
    KeyUnnamed,
    /// The call that fetches the key string failed.
    RemoteFetch(String),
    /// The fetch response held no key string, or an empty one.
    NoKeyString,
}

/// One key as the remote list call describes it.
pub struct KeySummary {
    pub display_name: Option<String>,
    pub name: Option<String>,
}

/// What the resolver waits for.
#[derive(PartialEq, Eq, Structural, Clone, Copy, Debug)]
pub enum Stage {
    /// The output of the local tool's list command.
    LocalList,
    /// The output of the local tool's key-string command.
    LocalFetch,
    /// The outcome of authenticating and listing the remote keys.
    RemoteList,
    /// The outcome of fetching the remote key string.
    RemoteFetch,
    /// Nothing: resolution is over.
    Finished,
}

/// What the resolver asks its caller to do next.
pub enum Action {
    /// Run the local tool with these arguments; answer with `ToolFinished`.
    RunTool(Vec<String>),
    /// Authenticate with the ambient credentials and list the keys under this
    /// parent resource; answer with `RemoteAuthFailed`, `RemoteListFailed` or
    /// `RemoteListed`.
    ListRemoteKeys(String),
    /// Fetch the key string of this key resource; answer with
    /// `RemoteFetchFailed` or `RemoteFetched`.
    FetchRemoteKey(String),
    /// Resolution is over, with this outcome.
    Finish(Result<(String, Source), ResolveError>),
}

/// What the caller reports back.
pub enum Event {
    ToolFinished { success: bool, stdout: String },
    RemoteAuthFailed(String),
    RemoteListFailed(String),
    RemoteListed(Option<Vec<KeySummary>>),
    RemoteFetchFailed(String),
    RemoteFetched(Option<String>),
}

/// A resolver for one project, and where it stands.
pub struct Resolver {
    pub project: String,
    pub stage: Stage,
}

/// The program of the local credential tool.
pub open spec fn tool_program() -> Seq<char> {
    "gcloud"@
}

/// The display name of the key that holds the credential.
pub open spec fn key_display_name() -> Seq<char> {
    "MCP API Key"@
}

/// The local tool's arguments that list the matching key resources of a project.
pub open spec fn list_args(project: Seq<char>) -> Seq<Seq<char>> {
    seq![
        "services"@,
        "api-keys"@,
        "list"@,
        "--project="@ + project,
        "--filter=displayName='MCP API Key'"@,
        "--format=value(name)"@,
    ]
}

/// The local tool's arguments that print the secret of one key resource.
pub open spec fn fetch_args(key_name: Seq<char>, project: Seq<char>) -> Seq<Seq<char>> {
    seq![
        "services"@,
        "api-keys"@,
        "get-key-string"@,
        key_name,
        "--project="@ + project,
        "--format=value(keyString)"@,
    ]
}

/// The remote parent resource under which a project's keys are listed.
pub open spec fn key_parent(project: Seq<char>) -> Seq<char> {
    "projects/"@ + project + "/locations/global"@
}

/// A tool run yields the trimmed standard output when it succeeded and that is
/// not empty.
pub open spec fn tool_yield(success: bool, stdout: Seq<char>) -> Option<Seq<char>> {
    if success && trim_of(stdout).len() > 0 {
        Some(trim_of(stdout))
    } else {
        None
    }
}

pub open spec fn summary_view(k: KeySummary) -> (Option<Seq<char>>, Option<Seq<char>>) {
    (
        match k.display_name {
            Some(s) => Some(s@),
            None => None,
        },
        match k.name {
            Some(s) => Some(s@),
            None => None,
        },
    )
}

pub open spec fn summaries_view(keys: Seq<KeySummary>) -> Seq<(Option<Seq<char>>, Option<Seq<char>>)> {
    keys.map_values(|k: KeySummary| summary_view(k))
}

/// The index of the first key with the expected display name.
pub open spec fn first_match(keys: Seq<(Option<Seq<char>>, Option<Seq<char>>)>) -> Option<int>
    decreases keys.len(),
{
    if keys.len() == 0 {
        None
    } else if keys.last().0 == Some(key_display_name()) && first_match(keys.drop_last()) is None {
        Some(keys.len() - 1)
    } else {
        first_match(keys.drop_last())
    }
}

/// The resource name of the first key with the expected display name, or why
/// there is none.
pub open spec fn selected_key(keys: Seq<(Option<Seq<char>>, Option<Seq<char>>)>) -> Result<
    Seq<char>,
    (),
> {
    match first_match(keys) {
        Some(i) => match keys[i].1 {
            Some(n) => Ok(n),
            None => Err(()),
        },
        None => Err(()),
    }
}

/// The outcome that a finishing action carries, on success: the credential and
/// its source, by view.
pub open spec fn finishes_with(a: Action, key: Seq<char>, source: Source) -> bool {
    match a {
        Action::Finish(Ok((k, s))) => k@ == key && s == source,
        _ => false,
    }
}

/// The action asks to list the remote keys of `project`.
pub open spec fn asks_remote_list(a: Action, project: Seq<char>) -> bool {
    match a {
        Action::ListRemoteKeys(p) => p@ == key_parent(project),
        _ => false,
    }
}

/// The action asks to run the local tool with `args`.
pub open spec fn asks_tool(a: Action, args: Seq<Seq<char>>) -> bool {
    match a {
        Action::RunTool(v) => views(v@) == args,
        _ => false,
    }
}

/// The event is one that the stage waits for.
pub open spec fn expected_event(stage: Stage, e: Event) -> bool {
    match stage {
        Stage::LocalList | Stage::LocalFetch => e is ToolFinished,
        Stage::RemoteList => e is RemoteAuthFailed || e is RemoteListFailed || e is RemoteListed,
        Stage::RemoteFetch => e is RemoteFetchFailed || e is RemoteFetched,
        Stage::Finished => false,
    }
}

fn text(s: &str) -> (r: String)
    ensures
        r@ == s@,
{
    String::from_str(s)
}

/// The program that `RunTool` actions run.
pub fn tool_command() -> (r: String)
    ensures
        r@ == tool_program(),
{
    text("gcloud")
}

/// The arguments that list a project's matching key resources with the local tool.
pub fn tool_list_args(project: &String) -> (r: Vec<String>)
    ensures
        views(r@) == list_args(project@),
{
    let mut v: Vec<String> = Vec::new();
    v.push(text("services"));
    v.push(text("api-keys"));
    v.push(text("list"));
    v.push(text("--project=").concat(project.as_str()));
    v.push(text("--filter=displayName='MCP API Key'"));
    v.push(text("--format=value(name)"));
    assert(views(v@) =~= list_args(project@));
    v
}

/// The arguments that print a key resource's secret with the local tool.
pub fn tool_fetch_args(key_name: &String, project: &String) -> (r: Vec<String>)
    ensures
        views(r@) == fetch_args(key_name@, project@),
{
    let mut v: Vec<String> = Vec::new();
    v.push(text("services"));
    v.push(text("api-keys"));
    v.push(text("get-key-string"));
    v.push(key_name.clone());
    v.push(text("--project=").concat(project.as_str()));
    v.push(text("--format=value(keyString)"));
    assert(views(v@) =~= fetch_args(key_name@, project@));
    v
}

/// The parent resource of a project's keys.
pub fn remote_parent(project: &String) -> (r: String)
    ensures
        r@ == key_parent(project@),
{
    text("projects/").concat(project.as_str()).concat("/locations/global")
}

/// What a finished tool run yields.
pub fn tool_output(success: bool, stdout: &String) -> (r: Option<String>)
    ensures
        match r {
            Some(s) => tool_yield(success, stdout@) == Some(s@),
            None => tool_yield(success, stdout@) is None,
        },
{
    if !success {
        return None;
    }
    let trimmed = trim_text(stdout.as_str());
    if trimmed.as_str().unicode_len() == 0 {
        None
    } else {
        Some(trimmed)
    }
}

/// The resource name of the first listed key with the expected display name.
pub fn select_key(keys: &Vec<KeySummary>) -> (r: Result<String, ResolveError>)
    ensures
        match r {
            Ok(n) => selected_key(summaries_view(keys@)) == Ok::<Seq<char>, ()>(n@),
            Err(e) => selected_key(summaries_view(keys@)) is Err && (e is KeyNotFound <==> first_match(
                summaries_view(keys@),
            ) is None) && (e is KeyUnnamed <==> first_match(summaries_view(keys@)) is Some),
        },
{
    let wanted = text("MCP API Key");
    let ghost all = summaries_view(keys@);
    let mut i: usize = 0;
    while i < keys.len()
        invariant
            wanted@ == key_display_name(),
            all == summaries_view(keys@),
            i <= keys.len(),
            first_match(all.take(i as int)) is None,
        decreases keys.len() - i,
    {
        let ghost upto = all.take(i + 1);
        assert(upto.drop_last() =~= all.take(i as int));
        assert(upto.last() == all[i as int]);
        let matches_name = match &keys[i].display_name {
            Some(d) => *d == wanted,
            None => false,
        };
        if matches_name {
            proof {
                lemma_first_match_extends(all, i as int);
            }
            return match &keys[i].name {
                Some(n) => Ok(n.clone()),
                None => Err(ResolveError::KeyUnnamed),
            };
        }
        i += 1;
    }
    assert(all.take(i as int) =~= all);
    Err(ResolveError::KeyNotFound)
}

/// When no key before `i` matches and key `i` does, key `i` is the first match of
/// the whole list.
proof fn lemma_first_match_extends(keys: Seq<(Option<Seq<char>>, Option<Seq<char>>)>, i: int)
    requires
        0 <= i < keys.len(),
        first_match(keys.take(i)) is None,
        keys[i].0 == Some(key_display_name()),
    ensures
        first_match(keys) == Some(i),
    decreases keys.len() - i,
{
    if keys.len() == i + 1 {
        assert(keys.drop_last() =~= keys.take(i));
    } else {
        assert(keys.drop_last().take(i) =~= keys.take(i));
        lemma_first_match_extends(keys.drop_last(), i);
    }
}

impl Resolver {
    /// Starts resolution for `project`. A non-empty explicit value ends it at once;
    /// otherwise the local tool is asked to list the matching keys.
    pub fn start(project: String, explicit: Option<String>) -> (r: (Resolver, Action))
        ensures
            r.0.project == project,
            match explicit {
                Some(k) if k@.len() > 0 => r.0.stage == Stage::Finished && finishes_with(
                    r.1,
                    k@,
                    Source::Explicit,
                ),
                _ => r.0.stage == Stage::LocalList && asks_tool(r.1, list_args(project@)),
            },
    {
        match explicit {
            Some(k) => {
                if k.as_str().unicode_len() > 0 {
                    return (
                        Resolver { project, stage: Stage::Finished },
                        Action::Finish(Ok((k, Source::Explicit))),
                    );
                }
            },
            None => {},
        }
        let args = tool_list_args(&project);
        (Resolver { project, stage: Stage::LocalList }, Action::RunTool(args))
    }

    /// Whether `event` is an answer that the resolver waits for.
    pub fn expects(&self, event: &Event) -> (r: bool)
        ensures
            r == expected_event(self.stage, *event),
    {
        match self.stage {
            Stage::LocalList | Stage::LocalFetch => match event {
                Event::ToolFinished { .. } => true,
                _ => false,
            },
            Stage::RemoteList => match event {
                Event::RemoteAuthFailed(_) | Event::RemoteListFailed(_) | Event::RemoteListed(_) => true,
                _ => false,
            },
            Stage::RemoteFetch => match event {
                Event::RemoteFetchFailed(_) | Event::RemoteFetched(_) => true,
                _ => false,
            },
            Stage::Finished => false,
        }
    }

    /// Takes the answer to the last action and decides the next one. A local tool
    /// run that fails or prints nothing passes on to the remote step; every failure
    /// of the remote step ends resolution with its own error.
    pub fn step(&mut self, event: Event) -> (r: Action)
        requires
            expected_event(old(self).stage, event),
        ensures
            final(self).project == old(self).project,
            match (old(self).stage, event) {
                (Stage::LocalList, Event::ToolFinished { success, stdout }) => match tool_yield(
                    success,
                    stdout@,
                ) {
                    Some(name) => final(self).stage == Stage::LocalFetch && asks_tool(
                        r,
                        fetch_args(name, old(self).project@),
                    ),
                    None => final(self).stage == Stage::RemoteList && asks_remote_list(
                        r,
                        old(self).project@,
                    ),
                },
                (Stage::LocalFetch, Event::ToolFinished { success, stdout }) => match tool_yield(
                    success,
                    stdout@,
                ) {
                    Some(key) => final(self).stage == Stage::Finished && finishes_with(
                        r,
                        key,
                        Source::LocalTool,
                    ),
                    None => final(self).stage == Stage::RemoteList && asks_remote_list(
                        r,
                        old(self).project@,
                    ),
                },
                (Stage::RemoteList, Event::RemoteAuthFailed(m)) => final(self).stage
                    == Stage::Finished && r == Action::Finish(Err(ResolveError::RemoteAuth(m))),
                (Stage::RemoteList, Event::RemoteListFailed(m)) => final(self).stage
                    == Stage::Finished && r == Action::Finish(Err(ResolveError::RemoteList(m))),
                (Stage::RemoteList, Event::RemoteListed(None)) => final(self).stage
                    == Stage::Finished && r == Action::Finish(Err(ResolveError::NoKeys)),
                (Stage::RemoteList, Event::RemoteListed(Some(keys))) => match selected_key(
                    summaries_view(keys@),
                ) {
                    Ok(name) => final(self).stage == Stage::RemoteFetch && (r matches Action::FetchRemoteKey(
                        n,
                    ) && n@ == name),
                    Err(_) => final(self).stage == Stage::Finished && (if first_match(
                        summaries_view(keys@),
                    ) is None {
                        r == Action::Finish(Err(ResolveError::KeyNotFound))
                    } else {
                        r == Action::Finish(Err(ResolveError::KeyUnnamed))
                    }),
                },
                (Stage::RemoteFetch, Event::RemoteFetchFailed(m)) => final(self).stage
                    == Stage::Finished && r == Action::Finish(Err(ResolveError::RemoteFetch(m))),
                (Stage::RemoteFetch, Event::RemoteFetched(k)) => final(self).stage
                    == Stage::Finished && match k {
                    Some(key) if key@.len() > 0 => finishes_with(r, key@, Source::RemoteApi),
                    _ => r == Action::Finish(Err(ResolveError::NoKeyString)),
                },
                _ => false,
            },
    {
        match event {
            Event::ToolFinished { success, stdout } => {
                let found = tool_output(success, &stdout);
                if self.stage == Stage::LocalList {
                    match found {
                        Some(name) => {
                            self.stage = Stage::LocalFetch;
                            Action::RunTool(tool_fetch_args(&name, &self.project))
                        },
                        None => {
                            self.stage = Stage::RemoteList;
                            Action::ListRemoteKeys(remote_parent(&self.project))
                        },
                    }
                } else {
                    match found {
                        Some(key) => {
                            self.stage = Stage::Finished;
                            Action::Finish(Ok((key, Source::LocalTool)))
                        },
                        None => {
                            self.stage = Stage::RemoteList;
                            Action::ListRemoteKeys(remote_parent(&self.project))
                        },
                    }
                }
            },
            Event::RemoteAuthFailed(m) => {
                self.stage = Stage::Finished;
                Action::Finish(Err(ResolveError::RemoteAuth(m)))
            },
            Event::RemoteListFailed(m) => {
                self.stage = Stage::Finished;
                Action::Finish(Err(ResolveError::RemoteList(m)))
            },
            Event::RemoteListed(None) => {
                self.stage = Stage::Finished;
                Action::Finish(Err(ResolveError::NoKeys))
            },
            Event::RemoteListed(Some(keys)) => match select_key(&keys) {
                Ok(name) => {
                    self.stage = Stage::RemoteFetch;
                    Action::FetchRemoteKey(name)
                },
                Err(e) => {
                    self.stage = Stage::Finished;
                    Action::Finish(Err(e))
                },
            },
            Event::RemoteFetchFailed(m) => {
                self.stage = Stage::Finished;
                Action::Finish(Err(ResolveError::RemoteFetch(m)))
            },
            Event::RemoteFetched(k) => {
                self.stage = Stage::Finished;
                match k {
                    Some(key) => {
                        if key.as_str().unicode_len() > 0 {
                            Action::Finish(Ok((key, Source::RemoteApi)))
                        } else {
                            Action::Finish(Err(ResolveError::NoKeyString))
                        }
                    },
                    None => Action::Finish(Err(ResolveError::NoKeyString)),
                }
            },
        }
    }
}

} // verus!
