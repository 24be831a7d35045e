//! The words around an interactive save: the prompts and the confirmation,
//! which suggests at random one of the two commands that show the log.

use vstd::prelude::*;
use rand::Rng;

verus! {

pub open spec fn body_prompt_text() -> Seq<char> {
    "🤖 (Giru): What do you want to remember?"@
}

pub open spec fn title_prompt_text() -> Seq<char> {
    "🤖 (Giru): Enter Title of this memory:"@
}

/// The command that a draw suggests: `list` for 1, `view` otherwise.
pub open spec fn hint_of(draw: u32) -> Seq<char> {
    if draw == 1 {
        "list"@
    } else {
        "view"@
    }
}

/// The confirmation of a save that suggests the command `hint`.
pub open spec fn confirmation_of(hint: Seq<char>) -> Seq<char> {
    "🤖 (Giru): I've saved the new item.\n Hint: use `giru "@ + hint + "` to open all my memories."@
}

/// The prompt for the body of a memory.
pub fn body_prompt() -> (r: String)
    ensures
        r@ == body_prompt_text(),
{
    String::from_str("🤖 (Giru): What do you want to remember?")
}

/// The prompt for the title of a memory.
pub fn title_prompt() -> (r: String)
    ensures
        r@ == title_prompt_text(),
{
    String::from_str("🤖 (Giru): Enter Title of this memory:")
}

/// Relies on rand's `thread_rng` and `Rng::gen_range`: a value drawn from the
/// inclusive range `1..=2`.
#[verifier::external_body]
fn draw_one_or_two() -> (r: u32)
    ensures
        1 <= r <= 2,
{
    rand::thread_rng().gen_range(1..=2)
}

/// The command suggested for a draw.
pub fn hint_for(draw: u32) -> (r: String)
    ensures
        r@ == hint_of(draw),
{
    if draw == 1 {
        String::from_str("list")
    } else {
        String::from_str("view")
    }
}

/// The confirmation of a save that suggests `hint`.
pub fn confirmation_for(hint: &str) -> (r: String)
    ensures
        r@ == confirmation_of(hint@),
{
    let r = String::from_str("🤖 (Giru): I've saved the new item.\n Hint: use `giru ").concat(
        hint,
    ).concat("` to open all my memories.");
    assert(r@ =~= confirmation_of(hint@));
    r
}

/// The confirmation printed after a save, with one random draw choosing the
/// command it suggests: always `list` or `view`.
pub fn save_confirmation() -> (r: String)
    ensures
        r@ == confirmation_of("list"@) || r@ == confirmation_of("view"@),
{
    let draw = draw_one_or_two();
    let hint = hint_for(draw);
    confirmation_for(hint.as_str())
}

/// Each of the two draws suggests one of `list` and `view`, and the two draws
/// suggest different commands.
pub proof fn draws_suggest_list_or_view(draw: u32)
    requires
        1 <= draw <= 2,
    ensures
        hint_of(draw) == "list"@ || hint_of(draw) == "view"@,
        hint_of(1) != hint_of(2),
{
    reveal_strlit("list");
    reveal_strlit("view");
    assert("list"@[0] != "view"@[0]);
}

} // verus!
