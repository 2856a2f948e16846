//! Commit summaries on request: the prompt that asks the provider for one, and
//! the reading of its answer.

use crate::text::append_decimal;
use crate::text::append_joined;
use crate::text::chars_of;
use crate::text::decimal;
use crate::text::joined;
use crate::text::text_of;
use crate::xai_client::ChatCompletionResponse;
use vstd::prelude::*;
use vstd::string::StringExecFns;

verus! {

/// The model that summarises a commit.
pub const SUMMARY_MODEL: &'static str = "grok-4-1-fast-reasoning";

/// The system prompt of a summary request.
pub const SUMMARY_SYSTEM_PROMPT: &'static str = "You are a helpful assistant";

/// The model that answers in a stream.
pub const CHAT_MODEL: &'static str = "grok-3-fast";

/// The system prompt of a streamed chat.
pub const CHAT_SYSTEM_PROMPT: &'static str =
    "You are Grok, an expert AI assistant specialized in electronics and PCB design. You help users understand KiCad schematics, components, and circuit design. Be concise but informative. Use technical terms when appropriate.";

/// The question that a streamed chat opens with.
pub const CHAT_OPENING_QUESTION: &'static str =
    "Give me a brief overview of what to look for when reviewing a KiCad schematic for an embedded system.";

/// What stands for the summary where a response holds no content.
pub const NO_CONTENT: &'static str = "No response content available";

/// The address of a commit's page.
pub open spec fn commit_url_text(repo: Seq<char>, commit: Seq<char>) -> Seq<char> {
    "https://github.com/"@ + repo + "/commit/"@ + commit
}

/// The request to summarise a commit, as the user's message.
pub open spec fn commit_prompt_text(repo: Seq<char>, commit: Seq<char>) -> Seq<char> {
    "Search online for the changes in the commit "@ + commit_url_text(repo, commit)
        + " and summarize the changes"@
}

/// The text that a completion response gives for a summary: the content of
/// the first choice's message, or a fixed text where there is none.
pub open spec fn summary_text(response: ChatCompletionResponse) -> Seq<char> {
    match response.first_content() {
        Some(content) => content,
        None => NO_CONTENT@,
    }
}

/// The address of the page of `commit` in the repository `repo`.
pub fn commit_url(repo: &str, commit: &str) -> (url: String)
    ensures
        url@ == commit_url_text(repo@, commit@),
{
    let mut url = String::from_str("https://github.com/");
    url.append(repo);
    url.append("/commit/");
    url.append(commit);
    url
}

/// The user's message that asks for a summary of `commit`.
pub fn commit_prompt(repo: &str, commit: &str) -> (prompt: String)
    ensures
        prompt@ == commit_prompt_text(repo@, commit@),
{
    let url = commit_url(repo, commit);
    let mut prompt = String::from_str("Search online for the changes in the commit ");
    prompt.append(url.as_str());
    prompt.append(" and summarize the changes");
    prompt
}

/// Takes the summary out of a completion response.
pub fn summary_of(response: &ChatCompletionResponse) -> (summary: String)
    ensures
        summary@ == summary_text(*response),
{
    if response.choices.len() > 0 {
        match &response.choices[0].message {
            Some(message) => match &message.content {
                Some(content) => {
                    return content.clone();
                },
                None => {},
            },
            None => {},
        }
    }
    String::from_str(NO_CONTENT)
}

/// What a stand-in answer closes with when it is about selected components.
pub const SELECTION_OUTLOOK: &'static str =
    "\n\nThis is a placeholder response. In production, this would contain AI-generated insights about the selected components, including:\n- Component specifications and datasheets\n- Pin connectivity and net associations\n- Related components in the design\n- Suggestions for alternatives or improvements";

/// What a stand-in answer closes with when it is about a whole repository.
pub const REPO_OUTLOOK: &'static str =
    "\n\nThis is a placeholder response. In production, this would contain AI-generated insights about the entire project, including:\n- Overall design architecture\n- Key components and subsystems\n- Design complexity metrics\n- Potential areas for improvement";

/// How many characters of a commit's hash are shown.
pub const SHORT_COMMIT_LENGTH: usize = 8;

/// A commit as it is shown: the first characters of its hash, all of them
/// where the hash has no more than `SHORT_COMMIT_LENGTH`.
pub open spec fn short_commit_text(commit: Seq<char>) -> Seq<char> {
    commit.take(
        if commit.len() <= SHORT_COMMIT_LENGTH {
            commit.len() as int
        } else {
            SHORT_COMMIT_LENGTH as int
        },
    )
}

/// The stand-in summary for a selection of `count` components in a commit.
pub open spec fn selection_summary_text(count: nat, commit: Seq<char>) -> Seq<char> {
    "[MOCK] Analysis of "@ + decimal(count) + " selected component(s) in commit "@
        + short_commit_text(commit) + "."@
}

/// The stand-in details for a selection of components.
pub open spec fn selection_details_text(component_ids: Seq<Seq<char>>) -> Seq<char> {
    "[MOCK] Detailed analysis of selected components:\n\nSelected IDs: "@ + joined(
        component_ids,
        ", "@,
    ) + SELECTION_OUTLOOK@
}

/// The stand-in summary for a repository with `file_count` schematic files.
pub open spec fn repo_summary_text(repo: Seq<char>, file_count: nat) -> Seq<char> {
    "[MOCK] Repository "@ + repo + " contains "@ + decimal(file_count)
        + " schematic file(s) at the latest commit."@
}

/// Each path as an item of a list.
pub open spec fn bullets(paths: Seq<Seq<char>>) -> Seq<Seq<char>> {
    Seq::new(paths.len(), |i: int| "  - "@ + paths[i])
}

/// The stand-in details for a repository.
pub open spec fn repo_details_text(
    repo: Seq<char>,
    latest_commit: Seq<char>,
    paths: Seq<Seq<char>>,
) -> Seq<char> {
    "[MOCK] Repository overview for "@ + repo + ":\n\nLatest commit: "@ + latest_commit
        + "\nSchematic files:\n"@ + joined(bullets(paths), "\n"@) + REPO_OUTLOOK@
}

/// Cuts a commit's hash to the length at which it is shown.
pub fn short_commit(commit: &str) -> (short: String)
    ensures
        short@ == short_commit_text(commit@),
{
    let chars = chars_of(commit);
    let end = if chars.len() <= SHORT_COMMIT_LENGTH {
        chars.len()
    } else {
        SHORT_COMMIT_LENGTH
    };
    text_of(&chars, 0, end)
}

/// Writes the stand-in summary for a selection of `count` components in the
/// commit `commit`, which is shown by the beginning of its hash.
pub fn selection_summary(count: usize, commit: &str) -> (summary: String)
    ensures
        summary@ == selection_summary_text(count as nat, commit@),
{
    let short = short_commit(commit);
    let mut summary = String::from_str("[MOCK] Analysis of ");
    append_decimal(&mut summary, count);
    summary.append(" selected component(s) in commit ");
    summary.append(short.as_str());
    summary.append(".");
    summary
}

/// Writes the stand-in details for a selection of components.
pub fn selection_details(component_ids: &Vec<String>) -> (details: String)
    ensures
        details@ == selection_details_text(component_ids.deep_view()),
{
    let mut details = String::from_str(
        "[MOCK] Detailed analysis of selected components:\n\nSelected IDs: ",
    );
    append_joined(&mut details, component_ids, ", ");
    details.append(SELECTION_OUTLOOK);
    details
}

/// Writes the stand-in summary for a repository.
pub fn repo_summary(repo: &str, file_count: usize) -> (summary: String)
    ensures
        summary@ == repo_summary_text(repo@, file_count as nat),
{
    let mut summary = String::from_str("[MOCK] Repository ");
    summary.append(repo);
    summary.append(" contains ");
    append_decimal(&mut summary, file_count);
    summary.append(" schematic file(s) at the latest commit.");
    summary
}

/// Writes the stand-in details for a repository whose latest commit holds the
/// schematic files `paths`.
pub fn repo_details(repo: &str, latest_commit: &str, paths: &Vec<String>) -> (details: String)
    ensures
        details@ == repo_details_text(repo@, latest_commit@, paths.deep_view()),
{
    let mut items: Vec<String> = Vec::new();
    let mut i: usize = 0;
    while i < paths.len()
        invariant
            i <= paths.len(),
            items.deep_view() == bullets(paths.deep_view().take(i as int)),
        decreases paths.len() - i,
    {
        let mut item = String::from_str("  - ");
        item.append(paths[i].as_str());
        let ghost before = items.deep_view();
        items.push(item);
        assert(items.deep_view() =~= before.push(item@));
        i += 1;
    }
    assert(paths.deep_view().take(paths.len() as int) =~= paths.deep_view());
    let mut details = String::from_str("[MOCK] Repository overview for ");
    details.append(repo);
    details.append(":\n\nLatest commit: ");
    details.append(latest_commit);
    details.append("\nSchematic files:\n");
    append_joined(&mut details, &items, "\n");
    details.append(REPO_OUTLOOK);
    details
}

} // verus!
