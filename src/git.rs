//! Requests about Git, answered from templates.

use vstd::prelude::*;
use vstd::string::*;
use crate::text::{chars_of, char_views, concat2, concat3, contains, lower_of, lowercase};
use crate::plugin::{
    CommandResult, Plugin, extract_quoted_text, extract_url, mentions, proposal, quoted, suggest,
    url_in, word_after, word_after_exec,
};

verus! {

/// Proposes Git commands.
pub struct GitPlugin;

/// The branch named in a request: the word after `branch`, `to`, `named` or `called`.
pub open spec fn branch_name(input: Seq<char>) -> Option<Seq<char>> {
    word_after(input, seq!["branch"@, "to"@, "named"@, "called"@], seq!['-', '_'])
}

/// The file named in a request: the word after `file` or `files`.
pub open spec fn file_reference(input: Seq<char>) -> Option<Seq<char>> {
    word_after(input, seq!["file"@, "files"@], seq!['.', '_'])
}

/// Whether a request is about Git.
pub open spec fn git_handles(input: Seq<char>) -> bool {
    let l = lower_of(input);
    contains(l, "git"@) || contains(l, "commit"@) || contains(l, "repository"@) || contains(
        l,
        "branch"@,
    ) || contains(l, "push"@) || contains(l, "pull"@) || contains(l, "clone"@)
}

/// The Git command and explanation proposed for a request.
pub open spec fn git_response(input: Seq<char>) -> (Seq<char>, Seq<char>) {
    let l = lower_of(input);
    let in_branch = contains(l, "branch"@);
    if contains(l, "status"@) || contains(l, "what changed"@) {
        ("git status"@, "Shows the working tree status, including tracked and untracked files."@)
    } else if contains(l, "commit"@) {
        if contains(l, "message"@) && contains(l, "\""@) && quoted(input) is Some {
            (
                "git commit -m \""@ + quoted(input)->0 + "\""@,
                "Commits changes with the specified message."@,
            )
        } else {
            (
                "git commit -m \"\""@,
                "Commits the staged changes. You'll need to provide a commit message."@,
            )
        }
    } else if contains(l, "add"@) || contains(l, "stage"@) {
        if contains(l, "all"@) || contains(l, "everything"@) {
            ("git add ."@, "Stages all changes in the working directory."@)
        } else if file_reference(input) is Some {
            let f = file_reference(input)->0;
            ("git add "@ + f, "Stages changes to the file '"@ + f + "'."@)
        } else {
            ("git add "@, "Stages changes. You'll need to specify which files to stage."@)
        }
    } else if contains(l, "log"@) || contains(l, "history"@) {
        ("git log"@, "Shows the commit history."@)
    } else if in_branch && (contains(l, "list"@) || contains(l, "show"@)) {
        ("git branch"@, "Lists all local branches."@)
    } else if in_branch && (contains(l, "create"@) || contains(l, "new"@)) && branch_name(
        input,
    ) is Some {
        let b = branch_name(input)->0;
        ("git branch "@ + b, "Creates a new branch named '"@ + b + "'."@)
    } else if in_branch && (contains(l, "switch"@) || contains(l, "checkout"@)) && branch_name(
        input,
    ) is Some {
        let b = branch_name(input)->0;
        ("git checkout "@ + b, "Switches to the branch named '"@ + b + "'."@)
    } else if contains(l, "push"@) {
        ("git push"@, "Pushes commits to the remote repository."@)
    } else if contains(l, "pull"@) {
        (
            "git pull"@,
            "Fetches changes from the remote repository and merges them into the current branch."@,
        )
    } else if contains(l, "clone"@) {
        if url_in(input) is Some {
            let u = url_in(input)->0;
            ("git clone "@ + u, "Clones the repository from '"@ + u + "'."@)
        } else {
            ("git clone "@, "Clones a repository. You'll need to specify the repository URL."@)
        }
    } else {
        ("git "@, "Git is a distributed version control system."@)
    }
}

fn extract_branch_name(input: &str) -> (r: Option<String>)
    ensures
        match r {
            Some(w) => branch_name(input@) == Some(w@),
            None => branch_name(input@) is None,
        },
{
    let keys = vec![chars_of("branch"), chars_of("to"), chars_of("named"), chars_of("called")];
    assert(char_views(keys@) =~= seq!["branch"@, "to"@, "named"@, "called"@]);
    let keep = vec!['-', '_'];
    word_after_exec(input, &keys, &keep)
}

fn extract_file_reference(input: &str) -> (r: Option<String>)
    ensures
        match r {
            Some(w) => file_reference(input@) == Some(w@),
            None => file_reference(input@) is None,
        },
{
    let keys = vec![chars_of("file"), chars_of("files")];
    assert(char_views(keys@) =~= seq!["file"@, "files"@]);
    let keep = vec!['.', '_'];
    word_after_exec(input, &keys, &keep)
}

impl GitPlugin {
    pub fn new() -> (r: Self) {
        GitPlugin
    }
}

fn say(command: &str, explanation: &str) -> (r: Option<CommandResult>)
    ensures
        proposal(r) == Some((command@, explanation@)),
{
    Some(suggest(String::from_str(command), String::from_str(explanation)))
}

impl Plugin for GitPlugin {
    open spec fn spec_name(&self) -> Seq<char> {
        "git"@
    }

    open spec fn spec_description(&self) -> Seq<char> {
        "Provides Git command functionality"@
    }

    open spec fn handles(&self, input: Seq<char>) -> bool {
        git_handles(input)
    }

    open spec fn response(&self, input: Seq<char>) -> Option<(Seq<char>, Seq<char>)> {
        Some(git_response(input))
    }

    fn name(&self) -> (r: &str) {
        "git"
    }

    fn description(&self) -> (r: &str) {
        "Provides Git command functionality"
    }

    fn can_handle(&self, input: &str) -> (r: bool) {
        let lower = lowercase(input);
        let l = chars_of(lower.as_str());
        mentions(&l, "git") || mentions(&l, "commit") || mentions(&l, "repository") || mentions(
            &l,
            "branch",
        ) || mentions(&l, "push") || mentions(&l, "pull") || mentions(&l, "clone")
    }

    #[verifier::rlimit(50)]
    fn handle(&self, input: &str) -> (r: Option<CommandResult>) {
        let lower = lowercase(input);
        let l = chars_of(lower.as_str());
        let in_branch = mentions(&l, "branch");
        if mentions(&l, "status") || mentions(&l, "what changed") {
            return say(
                "git status",
                "Shows the working tree status, including tracked and untracked files.",
            );
        }
        if mentions(&l, "commit") {
            if mentions(&l, "message") && mentions(&l, "\"") {
                if let Some(message) = extract_quoted_text(input) {
                    return Some(
                        suggest(
                            concat3("git commit -m \"", message.as_str(), "\""),
                            String::from_str("Commits changes with the specified message."),
                        ),
                    );
                }
            }
            return say(
                "git commit -m \"\"",
                "Commits the staged changes. You'll need to provide a commit message.",
            );
        }
        if mentions(&l, "add") || mentions(&l, "stage") {
            if mentions(&l, "all") || mentions(&l, "everything") {
                return say("git add .", "Stages all changes in the working directory.");
            }
            if let Some(file) = extract_file_reference(input) {
                return Some(
                    suggest(
                        concat2("git add ", file.as_str()),
                        concat3("Stages changes to the file '", file.as_str(), "'."),
                    ),
                );
            }
            return say("git add ", "Stages changes. You'll need to specify which files to stage.");
        }
        if mentions(&l, "log") || mentions(&l, "history") {
            return say("git log", "Shows the commit history.");
        }
        if in_branch {
            if mentions(&l, "list") || mentions(&l, "show") {
                return say("git branch", "Lists all local branches.");
            }
            if mentions(&l, "create") || mentions(&l, "new") {
                if let Some(b) = extract_branch_name(input) {
                    return Some(
                        suggest(
                            concat2("git branch ", b.as_str()),
                            concat3("Creates a new branch named '", b.as_str(), "'."),
                        ),
                    );
                }
            }
            if mentions(&l, "switch") || mentions(&l, "checkout") {
                if let Some(b) = extract_branch_name(input) {
                    return Some(
                        suggest(
                            concat2("git checkout ", b.as_str()),
                            concat3("Switches to the branch named '", b.as_str(), "'."),
                        ),
                    );
                }
            }
        }
        if mentions(&l, "push") {
            return say("git push", "Pushes commits to the remote repository.");
        }
        if mentions(&l, "pull") {
            return say(
                "git pull",
                "Fetches changes from the remote repository and merges them into the current branch.",
            );
        }
        if mentions(&l, "clone") {
            if let Some(url) = extract_url(input) {
                return Some(
                    suggest(
                        concat2("git clone ", url.as_str()),
                        concat3("Clones the repository from '", url.as_str(), "'."),
                    ),
                );
            }
            return say(
                "git clone ",
                "Clones a repository. You'll need to specify the repository URL.",
            );
        }
        say("git ", "Git is a distributed version control system.")
    }
}

} // verus!
