//! The placeholder overview of a commit: a one-line blurb and a description,
//! made from the commit message and the list of changed files.

use crate::text::append_decimal;
use crate::text::append_joined;
use crate::text::chars_of;
use crate::text::decimal;
use crate::text::joined;
use crate::text::leading_words;
use crate::text::words;
use vstd::prelude::*;
use vstd::string::StringExecFns;

verus! {

/// The blurb of a commit that changed no schematic file.
pub const INITIAL_BLURB: &'static str = "Initial schematic commit";

/// What stands for the subject of a commit without a message.
pub const DEFAULT_SUBJECT: &'static str = "Update";

/// What stands for the message of a commit without one.
pub const NO_MESSAGE: &'static str = "(no message)";

/// The number of words of the message that the blurb quotes.
pub const SUBJECT_WORDS: usize = 5;

/// The generated texts for one commit.
#[derive(Clone, Debug)]
pub struct Overview {
    pub blurb: String,
    pub description: String,
}

/// The text of an optional message, or `fallback` where there is none.
pub open spec fn message_or(message: Option<&str>, fallback: Seq<char>) -> Seq<char> {
    match message {
        Some(text) => text@,
        None => fallback,
    }
}

/// The first words of `text`, at most `SUBJECT_WORDS` of them, with one space
/// between each two.
pub open spec fn subject_of(text: Seq<char>) -> Seq<char> {
    let all = words(text);
    joined(
        all.take(
            if all.len() <= SUBJECT_WORDS {
                all.len() as int
            } else {
                SUBJECT_WORDS as int
            },
        ),
        " "@,
    )
}

/// The blurb: how many files changed and the subject of the message, or the
/// fixed blurb where no file changed.
pub open spec fn blurb_text(file_count: nat, message: Option<&str>) -> Seq<char> {
    if file_count > 0 {
        "Schematic changes in "@ + decimal(file_count) + " file(s): "@ + subject_of(
            message_or(message, DEFAULT_SUBJECT@),
        )
    } else {
        INITIAL_BLURB@
    }
}

/// The list of changed files, one indented line for each.
pub open spec fn file_lines(paths: Seq<Seq<char>>) -> Seq<char>
    decreases paths.len(),
{
    if paths.len() == 0 {
        Seq::empty()
    } else {
        file_lines(paths.drop_last()) + "  - "@ + paths.last() + "\n"@
    }
}

/// The description: the message, then the changed files.
pub open spec fn description_text(paths: Seq<Seq<char>>, message: Option<&str>) -> Seq<char> {
    "Commit message: "@ + message_or(message, NO_MESSAGE@) + "\nChanged files:\n"@ + file_lines(
        paths,
    )
}

/// Writes the blurb for a commit that changed `file_count` files.
pub fn placeholder_blurb(file_count: usize, message: Option<&str>) -> (blurb: String)
    ensures
        blurb@ == blurb_text(file_count as nat, message),
{
    if file_count == 0 {
        return String::from_str(INITIAL_BLURB);
    }
    let subject = match message {
        Some(text) => text,
        None => DEFAULT_SUBJECT,
    };
    let found = leading_words(&chars_of(subject), SUBJECT_WORDS);
    let mut blurb = String::from_str("Schematic changes in ");
    append_decimal(&mut blurb, file_count);
    blurb.append(" file(s): ");
    append_joined(&mut blurb, &found, " ");
    blurb
}

/// Writes the description for a commit that changed the files `paths`.
pub fn placeholder_description(paths: &Vec<String>, message: Option<&str>) -> (description: String)
    ensures
        description@ == description_text(paths.deep_view(), message),
{
    let shown = match message {
        Some(text) => text,
        None => NO_MESSAGE,
    };
    let mut description = String::from_str("Commit message: ");
    description.append(shown);
    description.append("\nChanged files:\n");
    let ghost head = description@;
    let ghost all = paths.deep_view();
    let mut i: usize = 0;
    while i < paths.len()
        invariant
            i <= paths.len(),
            all == paths.deep_view(),
            description@ == head + file_lines(all.take(i as int)),
        decreases paths.len() - i,
    {
        description.append("  - ");
        description.append(paths[i].as_str());
        description.append("\n");
        proof {
            let next = all.take(i + 1);
            assert(next.drop_last() =~= all.take(i as int));
        }
        i += 1;
    }
    assert(all.take(paths.len() as int) =~= all);
    description
}

/// Generates the placeholder overview of a commit from its message and the
/// schematic files that it changed.
pub fn placeholder_overview(paths: &Vec<String>, message: Option<&str>) -> (overview: Overview)
    ensures
        overview.blurb@ == blurb_text(paths@.len(), message),
        overview.description@ == description_text(paths.deep_view(), message),
{
    Overview {
        blurb: placeholder_blurb(paths.len(), message),
        description: placeholder_description(paths, message),
    }
}

} // verus!
