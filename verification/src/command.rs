//! The command line that starts the backend.

use crate::config::{BackendConfig, BackendConfigView, ExecutionMode};
use crate::error::{SidecarError, SidecarErrorView};
use crate::paths::{join_path, joined};
use crate::text::{decimal, push_decimal};
use vstd::prelude::*;
use vstd::string::*;

verus! {

/// A program, its arguments, and the directory it is started in.
#[derive(Debug, PartialEq, Eq)]
pub struct CommandLine {
    pub program: String,
    pub args: Vec<String>,
    pub working_dir: String,
}

/// The mathematical content of a [`CommandLine`].
pub struct CommandLineView {
    pub program: Seq<char>,
    pub args: Seq<Seq<char>>,
    pub working_dir: Seq<char>,
}

impl View for CommandLine {
    type V = CommandLineView;

    open spec fn view(&self) -> CommandLineView {
        CommandLineView {
            program: self.program@,
            args: self.args.deep_view(),
            working_dir: self.working_dir@,
        }
    }
}

/// The file names under which the prebuilt backend may lie beside the host
/// application, in the order in which they are tried.
pub open spec fn candidate_names() -> Seq<Seq<char>> {
    seq!["agenterm"@, "agenterm-server"@]
}

/// The index of the first candidate, among the first `limit`, that is
/// reported present.
pub open spec fn first_present(present: Seq<bool>, limit: int) -> Option<int>
    decreases limit,
{
    if limit <= 0 {
        None
    } else {
        match first_present(present, limit - 1) {
            Some(i) => Some(i),
            None => if limit <= present.len() && present[limit - 1] {
                Some(limit - 1)
            } else {
                None
            },
        }
    }
}

/// The executable that production mode starts: the first candidate present
/// in the directory of the host application, if that directory is known and
/// holds one. Nothing else is searched.
pub open spec fn located_executable(directory: Option<Seq<char>>, present: Seq<bool>) -> Option<
    Seq<char>,
> {
    match (directory, first_present(present, candidate_names().len() as int)) {
        (Some(dir), Some(i)) => Some(joined(dir, candidate_names()[i])),
        _ => None,
    }
}

/// The flags that hand the configuration to the backend.
pub open spec fn backend_flags(config: BackendConfigView) -> Seq<Seq<char>> {
    seq![
        "--port"@,
        decimal(config.port as nat),
        "--token"@,
        config.token,
        "--db-path"@,
        config.db_path,
        "--agents-dir"@,
        config.agents_dir,
        "--playbooks-dir"@,
        config.playbooks_dir,
        "--dir"@,
        config.working_dir,
    ]
}

/// The words, each preceded by one space.
pub open spec fn spaced(words: Seq<Seq<char>>) -> Seq<char>
    decreases words.len(),
{
    if words.len() == 0 {
        Seq::empty()
    } else {
        spaced(words.drop_last()) + seq![' '] + words.last()
    }
}

/// What the shell is told in development mode: read the user's profile,
/// whatever comes of it, then become the backend, built from source.
pub open spec fn launch_script(config: BackendConfigView) -> Seq<char> {
    "source ~/.zshrc >/dev/null 2>&1; exec go run ./cmd/agenterm"@ + spaced(backend_flags(config))
}

/// The command for a mode, a configuration and a project root; in
/// production mode also for what was found beside the host application.
pub open spec fn command_for(
    mode: ExecutionMode,
    config: BackendConfigView,
    root: Seq<char>,
    directory: Option<Seq<char>>,
    present: Seq<bool>,
) -> Result<CommandLineView, SidecarErrorView> {
    match mode {
        ExecutionMode::Development => Ok(
            CommandLineView {
                program: "zsh"@,
                args: seq!["-lc"@, launch_script(config)],
                working_dir: root,
            },
        ),
        ExecutionMode::Production => match located_executable(directory, present) {
            Some(program) => Ok(
                CommandLineView { program, args: backend_flags(config), working_dir: root },
            ),
            None => Err(SidecarErrorView::ExecutableNotFound),
        },
    }
}

fn push_word(words: &mut Vec<String>, word: String)
    ensures
        final(words).deep_view() == old(words).deep_view().push(word@),
{
    words.push(word);
    assert(words.deep_view() =~= old(words).deep_view().push(word@));
}

/// The file names to look for beside the host application, in order.
pub fn candidates() -> (names: Vec<String>)
    ensures
        names.deep_view() == candidate_names(),
{
    let mut names: Vec<String> = Vec::new();
    assert(names.deep_view() =~= Seq::<Seq<char>>::empty());
    push_word(&mut names, "agenterm".to_owned());
    push_word(&mut names, "agenterm-server".to_owned());
    assert(names.deep_view() =~= candidate_names());
    names
}

/// The position of the first candidate reported present, among the first
/// `limit`.
pub fn select_candidate(present: &Vec<bool>, limit: usize) -> (found: Option<usize>)
    ensures
        found is Some <==> first_present(present@, limit as int) is Some,
        found matches Some(i) ==> i < limit && first_present(present@, limit as int) == Some(
            i as int,
        ),
{
    let mut i: usize = 0;
    while i < limit && i < present.len()
        invariant
            i <= limit,
            first_present(present@, i as int) is None,
        decreases limit - i,
    {
        if present[i] {
            proof {
                lemma_first_present_stays(present@, i as int + 1, limit as int);
            }
            return Some(i);
        }
        i = i + 1;
    }
    proof {
        lemma_none_beyond_reports(present@, i as int, limit as int);
    }
    None
}

/// The choice is the least position reported present, and there is no
/// choice exactly when no position below `limit` is reported present.
pub proof fn lemma_first_present_is_least(present: Seq<bool>, limit: int)
    ensures
        match first_present(present, limit) {
            Some(i) => {
                &&& 0 <= i < limit
                &&& i < present.len()
                &&& present[i]
                &&& forall|j: int| 0 <= j < i ==> !present[j]
            },
            None => forall|j: int| 0 <= j < limit && j < present.len() ==> !present[j],
        },
    decreases limit,
{
    if limit > 0 {
        lemma_first_present_is_least(present, limit - 1);
    }
}

/// The candidates are tried in their fixed order and the first match wins:
/// production mode has an executable exactly when the directory of the host
/// application is known and a candidate is reported present in it, and it
/// is then the first such candidate, in that directory.
pub proof fn lemma_first_match_wins(directory: Option<Seq<char>>, present: Seq<bool>)
    ensures
        located_executable(directory, present) is Some <==> directory is Some && exists|i: int|
            0 <= i < candidate_names().len() && i < present.len() && #[trigger] present[i],
        forall|i: int|
            #![trigger present[i]]
            directory is Some && 0 <= i < candidate_names().len() && i < present.len()
                && present[i] && (forall|j: int| 0 <= j < i ==> !present[j])
                ==> located_executable(directory, present) == Some(
                joined(directory->0, candidate_names()[i]),
            ),
{
    lemma_first_present_is_least(present, candidate_names().len() as int);
}

/// Once a candidate is found among the first `at`, looking further does not
/// change the choice.
proof fn lemma_first_present_stays(present: Seq<bool>, at: int, limit: int)
    requires
        at <= limit,
        first_present(present, at) is Some,
    ensures
        first_present(present, limit) == first_present(present, at),
    decreases limit - at,
{
    if at < limit {
        lemma_first_present_stays(present, at, limit - 1);
    }
}

/// Where the reports end, the search ends.
proof fn lemma_none_beyond_reports(present: Seq<bool>, at: int, limit: int)
    requires
        0 <= at <= limit,
        at >= limit || at >= present.len(),
        first_present(present, at) is None,
    ensures
        first_present(present, limit) is None,
    decreases limit - at,
{
    if at < limit {
        lemma_none_beyond_reports(present, at, limit - 1);
    }
}

/// The flags that hand the configuration to the backend.
pub fn flags(config: &BackendConfig) -> (words: Vec<String>)
    ensures
        words.deep_view() == backend_flags(config@),
{
    let mut port = String::new();
    push_decimal(&mut port, config.port());
    assert(port@ =~= decimal(config@.port as nat));
    let mut words: Vec<String> = Vec::new();
    assert(words.deep_view() =~= Seq::<Seq<char>>::empty());
    push_word(&mut words, "--port".to_owned());
    push_word(&mut words, port);
    push_word(&mut words, "--token".to_owned());
    push_word(&mut words, config.token().to_owned());
    push_word(&mut words, "--db-path".to_owned());
    push_word(&mut words, config.db_path().to_owned());
    push_word(&mut words, "--agents-dir".to_owned());
    push_word(&mut words, config.agents_dir().to_owned());
    push_word(&mut words, "--playbooks-dir".to_owned());
    push_word(&mut words, config.playbooks_dir().to_owned());
    push_word(&mut words, "--dir".to_owned());
    push_word(&mut words, config.working_dir().to_owned());
    assert(words.deep_view() =~= backend_flags(config@));
    words
}

/// What the shell is told in development mode.
pub fn development_script(config: &BackendConfig) -> (script: String)
    ensures
        script@ == launch_script(config@),
{
    let words = flags(config);
    let mut script = "source ~/.zshrc >/dev/null 2>&1; exec go run ./cmd/agenterm".to_owned();
    let ghost head = script@;
    let mut i: usize = 0;
    assert(words.deep_view().take(0) =~= Seq::<Seq<char>>::empty());
    assert(script@ =~= head + spaced(words.deep_view().take(0)));
    while i < words.len()
        invariant
            i <= words.len(),
            script@ == head + spaced(words.deep_view().take(i as int)),
        decreases words.len() - i,
    {
        let ghost before = script@;
        proof {
            reveal_strlit(" ");
        }
        script.append(" ");
        script.append(words[i].as_str());
        proof {
            let done = words.deep_view().take(i as int + 1);
            assert(done.drop_last() =~= words.deep_view().take(i as int));
            assert(done.last() == words[i as int]@);
            assert(script@ =~= head + spaced(done));
        }
        i = i + 1;
    }
    assert(words.deep_view().take(i as int) =~= words.deep_view());
    script
}

/// Builds the command that starts the backend in `root`.
///
/// Development mode hands the shell a script and needs nothing else.
/// Production mode starts the first of the candidates that `present`
/// reports, in the order of [`candidates`], inside `directory`, the directory
/// of the host application; without one there is no command.
pub fn build_command(
    mode: ExecutionMode,
    config: &BackendConfig,
    root: &str,
    directory: Option<&str>,
    present: &Vec<bool>,
) -> (command: Result<CommandLine, SidecarError>)
    ensures
        command is Ok <==> command_for(mode, config@, root@, directory.deep_view(), present@) is Ok,
        command matches Ok(c) ==> Ok::<CommandLineView, SidecarErrorView>(c@) == command_for(
            mode,
            config@,
            root@,
            directory.deep_view(),
            present@,
        ),
        command matches Err(e) ==> Err::<CommandLineView, SidecarErrorView>(e@) == command_for(
            mode,
            config@,
            root@,
            directory.deep_view(),
            present@,
        ),
{
    match mode {
        ExecutionMode::Development => {
            let mut args: Vec<String> = Vec::new();
            assert(args.deep_view() =~= Seq::<Seq<char>>::empty());
            push_word(&mut args, "-lc".to_owned());
            push_word(&mut args, development_script(config));
            assert(args.deep_view() =~= seq!["-lc"@, launch_script(config@)]);
            Ok(CommandLine { program: "zsh".to_owned(), args, working_dir: root.to_owned() })
        },
        ExecutionMode::Production => {
            let names = candidates();
            let found = select_candidate(present, names.len());
            match (directory, found) {
                (Some(dir), Some(i)) => {
                    assert(names.deep_view()[i as int] == names[i as int]@);
                    let program = join_path(dir, names[i].as_str());
                    Ok(CommandLine { program, args: flags(config), working_dir: root.to_owned() })
                },
                _ => Err(SidecarError::ExecutableNotFound),
            }
        },
    }
}

} // verus!
