//! The memory log: where it lives and what one save appends to it.

use vstd::prelude::*;
use crate::text::{clean_input, trimmed};

verus! {

/// Directory under the home directory that holds the log.
pub open spec fn log_dir_of(home: Seq<char>) -> Seq<char> {
    home + "/.giru"@
}

/// Path of the log file under the home directory.
pub open spec fn log_path_of(home: Seq<char>) -> Seq<char> {
    home + "/.giru/giru.md"@
}

/// The line that opens the log, written once, before the first entry.
pub open spec fn header_line() -> Seq<char> {
    "# Your Giru File\n"@
}

/// One entry: the title as a second-level heading, a blank line, the body in
/// a fenced block, then a blank line.
pub open spec fn entry_of(title: Seq<char>, body: Seq<char>) -> Seq<char> {
    "## "@ + title + "\n\n"@ + "```\n"@ + body + "\n```\n\n"@
}

/// What one save appends, given whether the log was empty, from the values as
/// typed (each is trimmed).
pub open spec fn appended_by_save(log_was_empty: bool, raw_body: Seq<char>, raw_title: Seq<char>) -> Seq<char> {
    (if log_was_empty {
        header_line()
    } else {
        Seq::empty()
    }) + entry_of(trimmed(raw_title), trimmed(raw_body))
}

/// The log after one save.
pub open spec fn log_after_save(log: Seq<char>, raw_body: Seq<char>, raw_title: Seq<char>) -> Seq<char> {
    log + appended_by_save(log.len() == 0, raw_body, raw_title)
}

/// The directory that holds the log, under `home`.
pub fn log_dir(home: &str) -> (r: String)
    ensures
        r@ == log_dir_of(home@),
{
    String::from_str(home).concat("/.giru")
}

/// The path of the log file, under `home`.
pub fn log_path(home: &str) -> (r: String)
    ensures
        r@ == log_path_of(home@),
{
    String::from_str(home).concat("/.giru/giru.md")
}

/// The text of one entry, from a title and a body already trimmed.
pub fn entry_text(title: &str, body: &str) -> (r: String)
    ensures
        r@ == entry_of(title@, body@),
{
    let r = String::from_str("## ").concat(title).concat("\n\n").concat("```\n").concat(body).concat(
        "\n```\n\n",
    );
    assert(r@ =~= entry_of(title@, body@));
    r
}

/// The text that one save appends to the log: the header first when the log
/// was empty, then the entry made of the trimmed title and body.
pub fn memory_entry(log_was_empty: bool, raw_body: &str, raw_title: &str) -> (r: String)
    ensures
        r@ == appended_by_save(log_was_empty, raw_body@, raw_title@),
{
    let body = clean_input(raw_body);
    let title = clean_input(raw_title);
    let entry = entry_text(title.as_str(), body.as_str());
    if log_was_empty {
        let r = String::from_str("# Your Giru File\n").concat(entry.as_str());
        assert(r@ =~= appended_by_save(log_was_empty, raw_body@, raw_title@));
        r
    } else {
        assert(entry@ =~= appended_by_save(log_was_empty, raw_body@, raw_title@));
        entry
    }
}

/// Title and body are stored trimmed: one save appends the entry made of the
/// trimmed values, and typing them with extra surrounding whitespace changes
/// nothing in the log.
pub proof fn saved_values_are_trimmed(log: Seq<char>, raw_body: Seq<char>, raw_title: Seq<char>)
    ensures
        log_after_save(log, raw_body, raw_title) == log_after_save(log, trimmed(raw_body), trimmed(raw_title)),
        log_after_save(log, raw_body, raw_title).subrange(
            log.len() as int,
            log_after_save(log, raw_body, raw_title).len() as int,
        ) =~= (if log.len() == 0 {
            header_line()
        } else {
            Seq::empty()
        }) + entry_of(trimmed(raw_title), trimmed(raw_body)),
{
    crate::text::trimmed_is_clean(raw_body);
    crate::text::trimmed_is_clean(raw_title);
}

/// Two saves in a row on an empty log: the header is written once, at the
/// start, and the two entries follow in the order they were saved.
pub proof fn header_once_entries_in_order(
    body1: Seq<char>,
    title1: Seq<char>,
    body2: Seq<char>,
    title2: Seq<char>,
)
    ensures
        log_after_save(log_after_save(Seq::empty(), body1, title1), body2, title2) == header_line()
            + entry_of(trimmed(title1), trimmed(body1)) + entry_of(trimmed(title2), trimmed(body2)),
{
    let first = log_after_save(Seq::empty(), body1, title1);
    reveal_strlit("# Your Giru File\n");
    assert(first.len() > 0);
    assert(first =~= header_line() + entry_of(trimmed(title1), trimmed(body1)));
    assert(log_after_save(first, body2, title2) =~= header_line() + entry_of(trimmed(title1), trimmed(body1))
        + entry_of(trimmed(title2), trimmed(body2)));
}

} // verus!
