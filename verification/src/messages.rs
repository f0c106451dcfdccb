//! Every line of text the server sends, as spec-level formulas paired with
//! executable builders that are proved to produce exactly those formulas.

use vstd::prelude::*;
use crate::text::{concat2, decimal_digits, string_views, u64_to_string};

verus! {

/// The prompt sent when a connection is accepted.
pub open spec fn name_prompt_text() -> Seq<char> {
    "Enter your name/nickname:\n"@
}

/// The notice broadcast when `name` joins.
pub open spec fn join_notice_text(name: Seq<char>) -> Seq<char> {
    "[Server]: "@ + name + " joined the chat\n"@
}

/// The notice broadcast when `name` leaves.
pub open spec fn leave_notice_text(name: Seq<char>) -> Seq<char> {
    "[Server]: "@ + name + " left the chat\n"@
}

/// The notice broadcast when `old_name` renames itself to `new_name`.
pub open spec fn rename_notice_text(old_name: Seq<char>, new_name: Seq<char>) -> Seq<char> {
    "[Server]: "@ + old_name + " is now "@ + new_name + "\n"@
}

/// A relayed chat line from `name`.
pub open spec fn chat_line_text(name: Seq<char>, text: Seq<char>) -> Seq<char> {
    "["@ + name + "]: "@ + text + "\n"@
}

/// The direct reply confirming a `/nick` change.
pub open spec fn nick_confirm_text(new_name: Seq<char>) -> Seq<char> {
    "Nome alterado para "@ + new_name + "\n"@
}

/// The direct reply to a `/nick` without an argument.
pub open spec fn nick_usage_text() -> Seq<char> {
    "Usage: /nick <name>\n"@
}

/// The direct reply to `/help`: the list of the recognized commands.
pub open spec fn help_text() -> Seq<char> {
    "Comandos: /list, /nick <nome>, /quit, /help\n"@
}

/// The direct reply to `/quit`, sent before the connection closes.
pub open spec fn quit_reply_text() -> Seq<char> {
    "Leaving chat...\n"@
}

/// The direct reply to an unrecognized command.
pub open spec fn unknown_command_text() -> Seq<char> {
    "Comando desconhecido. Use /help\n"@
}

/// The lines listing the given names, one `- name` line each.
pub open spec fn listing_lines(names: Seq<Seq<char>>) -> Seq<char>
    decreases names.len(),
{
    if names.len() == 0 {
        Seq::<char>::empty()
    } else {
        "- "@ + names[0] + "\n"@ + listing_lines(names.subrange(1, names.len() as int))
    }
}

/// The full direct reply to `/list`: a header, then one line per name.
pub open spec fn listing_text(names: Seq<Seq<char>>) -> Seq<char> {
    "Usu\u{e1}rios online:\n"@ + listing_lines(names)
}

/// Where the line for the `i`-th name starts within the listing lines.
pub open spec fn listing_offset(names: Seq<Seq<char>>, i: int) -> int
    decreases i,
{
    if i <= 0 {
        0
    } else {
        ("- "@ + names[0] + "\n"@).len() + listing_offset(
            names.subrange(1, names.len() as int),
            i - 1,
        )
    }
}

/// Each name in the listing stands as its own `- name` line, at the
/// offset `listing_offset` gives.
pub proof fn lemma_listing_presents_name(names: Seq<Seq<char>>, i: int)
    requires
        0 <= i < names.len(),
    ensures
        ({
            let line = "- "@ + names[i] + "\n"@;
            let text = listing_lines(names);
            let a = listing_offset(names, i);
            0 <= a && a + line.len() <= text.len() && text.subrange(a, a + line.len()) == line
        }),
    decreases i,
{
    let rest = names.subrange(1, names.len() as int);
    let line0 = "- "@ + names[0] + "\n"@;
    let text = listing_lines(names);
    assert(text == line0 + listing_lines(rest));
    if i == 0 {
        assert(text.subrange(0, line0.len() as int) =~= line0);
    } else {
        lemma_listing_presents_name(rest, i - 1);
        let line = "- "@ + names[i] + "\n"@;
        let a1 = listing_offset(rest, i - 1);
        assert(rest[i - 1] == names[i]);
        let a = listing_offset(names, i);
        assert(a == line0.len() + a1);
        assert(text.subrange(a, a + line.len()) =~= listing_lines(rest).subrange(
            a1,
            a1 + line.len(),
        ));
    }
}

/// The full `/list` reply presents each registered name as its own line:
/// what the registry holds is exactly what a client asking for the
/// listing is shown.
pub proof fn lemma_list_text_contains_name(names: Seq<Seq<char>>, i: int)
    requires
        0 <= i < names.len(),
    ensures
        ({
            let line = "- "@ + names[i] + "\n"@;
            let text = listing_text(names);
            let a = "Usu\u{e1}rios online:\n"@.len() + listing_offset(names, i);
            0 <= a && a + line.len() <= text.len() && text.subrange(a, a + line.len()) == line
        }),
{
    lemma_listing_presents_name(names, i);
    let line = "- "@ + names[i] + "\n"@;
    let body = listing_lines(names);
    let a1 = listing_offset(names, i);
    let text = listing_text(names);
    let a = "Usu\u{e1}rios online:\n"@.len() + a1;
    assert(text.subrange(a, a + line.len()) =~= body.subrange(a1, a1 + line.len()));
}

/// The placeholder display name for connection number `n`.
pub open spec fn fallback_name_text(n: nat) -> Seq<char> {
    "Person"@ + decimal_digits(n)
}

/// Builds the connection prompt.
pub fn name_prompt() -> (r: String)
    ensures
        r@ == name_prompt_text(),
{
    String::from_str("Enter your name/nickname:\n")
}

/// Builds the `/help` reply.
pub fn help_message() -> (r: String)
    ensures
        r@ == help_text(),
{
    String::from_str("Comandos: /list, /nick <nome>, /quit, /help\n")
}

/// Builds the usage reply for a `/nick` without an argument.
pub fn nick_usage() -> (r: String)
    ensures
        r@ == nick_usage_text(),
{
    String::from_str("Usage: /nick <name>\n")
}

/// Builds the reply to an unrecognized command.
pub fn unknown_command() -> (r: String)
    ensures
        r@ == unknown_command_text(),
{
    String::from_str("Comando desconhecido. Use /help\n")
}

/// Builds the farewell reply to `/quit`.
pub fn quit_reply() -> (r: String)
    ensures
        r@ == quit_reply_text(),
{
    String::from_str("Leaving chat...\n")
}

/// Builds the join notice for `name`.
pub fn join_notice(name: &str) -> (r: String)
    ensures
        r@ == join_notice_text(name@),
{
    let mut r = concat2("[Server]: ", name);
    r.append(" joined the chat\n");
    proof {
        assert(r@ =~= join_notice_text(name@));
    }
    r
}

/// Builds the departure notice for `name`.
pub fn leave_notice(name: &str) -> (r: String)
    ensures
        r@ == leave_notice_text(name@),
{
    let mut r = concat2("[Server]: ", name);
    r.append(" left the chat\n");
    proof {
        assert(r@ =~= leave_notice_text(name@));
    }
    r
}

/// Builds the rename notice from `old_name` to `new_name`.
pub fn rename_notice(old_name: &str, new_name: &str) -> (r: String)
    ensures
        r@ == rename_notice_text(old_name@, new_name@),
{
    let mut r = concat2("[Server]: ", old_name);
    r.append(" is now ");
    r.append(new_name);
    r.append("\n");
    proof {
        assert(r@ =~= rename_notice_text(old_name@, new_name@));
    }
    r
}

/// Builds a relayed chat line from `name`.
pub fn chat_line(name: &str, text: &str) -> (r: String)
    ensures
        r@ == chat_line_text(name@, text@),
{
    let mut r = concat2("[", name);
    r.append("]: ");
    r.append(text);
    r.append("\n");
    proof {
        assert(r@ =~= chat_line_text(name@, text@));
    }
    r
}

/// Builds the `/nick` confirmation for `new_name`.
pub fn nick_confirm(new_name: &str) -> (r: String)
    ensures
        r@ == nick_confirm_text(new_name@),
{
    let mut r = concat2("Nome alterado para ", new_name);
    r.append("\n");
    proof {
        assert(r@ =~= nick_confirm_text(new_name@));
    }
    r
}

/// Builds the placeholder display name for connection number `n`.
pub fn fallback_name(n: u64) -> (r: String)
    ensures
        r@ == fallback_name_text(n as nat),
{
    let digits = u64_to_string(n);
    concat2("Person", digits.as_str())
}

proof fn lemma_listing_lines_push(names: Seq<Seq<char>>, name: Seq<char>)
    ensures
        listing_lines(names.push(name)) == listing_lines(names) + "- "@ + name + "\n"@,
    decreases names.len(),
{
    if names.len() == 0 {
        let pushed = names.push(name);
        assert(pushed.len() == 1);
        assert(pushed[0] == name);
        assert(pushed.subrange(1, 1) =~= Seq::<Seq<char>>::empty());
        assert(listing_lines(Seq::<Seq<char>>::empty()) == Seq::<char>::empty());
        assert(listing_lines(pushed) == "- "@ + name + "\n"@ + listing_lines(
            Seq::<Seq<char>>::empty(),
        ));
        assert(listing_lines(names) == Seq::<char>::empty());
        assert(listing_lines(pushed) =~= listing_lines(names) + "- "@ + name + "\n"@);
    } else {
        let rest = names.subrange(1, names.len() as int);
        lemma_listing_lines_push(rest, name);
        let pushed = names.push(name);
        assert(pushed.subrange(1, pushed.len() as int) =~= rest.push(name));
        assert(pushed[0] == names[0]);
        assert(listing_lines(pushed) == "- "@ + names[0] + "\n"@ + (listing_lines(rest) + "- "@
            + name + "\n"@));
        assert(listing_lines(pushed) =~= listing_lines(names) + "- "@ + name + "\n"@);
    }
}

/// Builds the `/list` reply for the given names, in the order given.
pub fn listing(names: &Vec<String>) -> (r: String)
    ensures
        r@ == listing_text(string_views(names@)),
{
    let ghost all = string_views(names@);
    let mut r = String::from_str("Usu\u{e1}rios online:\n");
    let mut i: usize = 0;
    while i < names.len()
        invariant
            0 <= i <= names.len(),
            all == string_views(names@),
            all.len() == names@.len(),
            r@ == "Usu\u{e1}rios online:\n"@ + listing_lines(all.take(i as int)),
        decreases names.len() - i,
    {
        r.append("- ");
        r.append(names[i].as_str());
        r.append("\n");
        proof {
            lemma_listing_lines_push(all.take(i as int), all[i as int]);
            assert(all.take(i as int).push(all[i as int]) =~= all.take(i + 1));
        }
        i = i + 1;
    }
    proof {
        assert(all.take(names@.len() as int) =~= all);
    }
    r
}

} // verus!
