//! The command interpreter: recognizing, parsing and executing the
//! `/`-prefixed lines a client may send.
//!
//! `command_step` is the mathematical meaning of one command: given the
//! registry's contents and the issuing connection's identity it determines
//! the new registry contents, at most one broadcast, exactly one direct
//! reply (possibly empty), and whether the connection is to close.
//! `handle_command` is the executable interpreter, proved to realize
//! exactly that step.

use vstd::prelude::*;
use crate::is_command_spec;
use crate::bus::{env_opt_view, Envelope};
use crate::messages::{
    help_message, help_text, leave_notice, leave_notice_text, listing, listing_text, nick_confirm,
    nick_confirm_text, nick_usage, nick_usage_text, quit_reply, quit_reply_text, rename_notice,
    rename_notice_text, unknown_command, unknown_command_text,
};
use crate::registry::{contains_id, name_of, names_of, reg_register, reg_remove, Registry};
use crate::text::{str_eq, trim, trimmed};

verus! {

/// Decides whether an inbound line is a command (starts with `/`) rather
/// than free-form chat text.
pub fn is_command(msg: &str) -> (r: bool)
    ensures
        r == is_command_spec(msg@),
{
    !msg.is_empty() && msg.get_char(0) == '/'
}

/// The length of the first whitespace-delimited token of `s`.
pub open spec fn token_len(s: Seq<char>) -> nat
    decreases s.len(),
{
    if s.len() == 0 {
        0
    } else if s[0] == ' ' {
        0
    } else {
        1 + token_len(s.subrange(1, s.len() as int))
    }
}

/// The first whitespace-delimited token of `s`: the command word.
pub open spec fn token_of(s: Seq<char>) -> Seq<char> {
    s.subrange(0, token_len(s) as int)
}

/// Everything after the first token and the space that ends it: the raw
/// command argument.
pub open spec fn arg_of(s: Seq<char>) -> Seq<char> {
    if token_len(s) == s.len() {
        Seq::<char>::empty()
    } else {
        s.subrange(token_len(s) as int + 1, s.len() as int)
    }
}

proof fn lemma_token_len_at(s: Seq<char>, i: int)
    requires
        0 <= i <= s.len(),
        forall|k: int| 0 <= k < i ==> s[k] != ' ',
        i == s.len() || s[i] == ' ',
    ensures
        token_len(s) == i,
    decreases i,
{
    if i > 0 {
        let t = s.subrange(1, s.len() as int);
        lemma_token_len_at(t, i - 1);
    }
}

fn split_token(line: &str) -> (r: (String, String))
    ensures
        r.0@ == token_of(line@),
        r.1@ == arg_of(line@),
{
    let len = line.unicode_len();
    let mut i: usize = 0;
    while i < len && line.get_char(i) != ' '
        invariant
            0 <= i <= len,
            len == line@.len(),
            forall|k: int| 0 <= k < i ==> line@[k] != ' ',
        decreases len - i,
    {
        i = i + 1;
    }
    proof {
        lemma_token_len_at(line@, i as int);
    }
    let tok = line.substring_char(0, i).to_owned();
    let arg = if i == len {
        String::new()
    } else {
        line.substring_char(i + 1, len).to_owned()
    };
    proof {
        assert(arg@ =~= arg_of(line@));
    }
    (tok, arg)
}

/// One recognized command, or the unrecognized case, parsed from the
/// first whitespace-delimited token of a line.
pub enum Command {
    /// `/help`: ask for the command listing.
    Help,
    /// `/list`: ask for the names currently online.
    List,
    /// `/nick`, carrying the trimmed new name (possibly empty).
    Nick(String),
    /// `/quit`: leave the chat.
    Quit,
    /// Any other `/`-prefixed word.
    Unknown,
}

/// Parses a line into the closed command type. The command word is the
/// first whitespace-delimited token; a `/nick` argument is trimmed.
pub fn parse_command(line: &str) -> (c: Command)
    ensures
        (c is Help) == (token_of(line@) == "/help"@),
        (c is List) == (token_of(line@) == "/list"@),
        (c is Quit) == (token_of(line@) == "/quit"@),
        (c is Nick) == (token_of(line@) == "/nick"@),
        c matches Command::Nick(arg) ==> arg@ == trimmed(arg_of(line@)),
        (c is Unknown) == (token_of(line@) != "/help"@ && token_of(line@) != "/list"@ && token_of(
            line@,
        ) != "/quit"@ && token_of(line@) != "/nick"@),
{
    proof {
        reveal_strlit("/help");
        reveal_strlit("/list");
        reveal_strlit("/quit");
        reveal_strlit("/nick");
        assert("/help"@[1] == 'h' && "/list"@[1] == 'l' && "/quit"@[1] == 'q' && "/nick"@[1]
            == 'n');
    }
    let (tok, arg) = split_token(line);
    if str_eq(tok.as_str(), "/help") {
        Command::Help
    } else if str_eq(tok.as_str(), "/list") {
        Command::List
    } else if str_eq(tok.as_str(), "/quit") {
        Command::Quit
    } else if str_eq(tok.as_str(), "/nick") {
        Command::Nick(trim(arg.as_str()))
    } else {
        Command::Unknown
    }
}

/// The full observable effect of one interpreter invocation: the new
/// registry contents, at most one broadcast (text and origin), exactly one
/// direct reply to the issuing connection (possibly empty), and whether
/// the connection closes.
pub struct CommandEffect {
    pub registry: Seq<(u64, Seq<char>)>,
    pub publish: Option<(Seq<char>, u64)>,
    pub reply: Seq<char>,
    pub disconnect: bool,
}

/// The meaning of one command line `line` issued by `id` against registry
/// contents `v`:
/// - `/help` replies with the command listing;
/// - `/list` replies with the registered names;
/// - `/quit` removes `id`, broadcasts a departure notice if `id` was
///   registered, replies a farewell and closes the connection;
/// - `/nick` with an empty trimmed argument replies with usage; with a
///   non-empty argument it renames a registered `id`, broadcasts a rename
///   notice and replies a confirmation, and for an unregistered `id`
///   changes nothing and replies nothing;
/// - anything else replies the unknown-command notice.
pub open spec fn command_step(v: Seq<(u64, Seq<char>)>, id: u64, line: Seq<char>) -> CommandEffect {
    let tok = token_of(line);
    if tok == "/help"@ {
        CommandEffect { registry: v, publish: None, reply: help_text(), disconnect: false }
    } else if tok == "/list"@ {
        CommandEffect {
            registry: v,
            publish: None,
            reply: listing_text(names_of(v)),
            disconnect: false,
        }
    } else if tok == "/quit"@ {
        CommandEffect {
            registry: reg_remove(v, id),
            publish: if contains_id(v, id) {
                Some((leave_notice_text(name_of(v, id)), id))
            } else {
                None
            },
            reply: quit_reply_text(),
            disconnect: true,
        }
    } else if tok == "/nick"@ {
        let new_name = trimmed(arg_of(line));
        if new_name.len() == 0 {
            CommandEffect { registry: v, publish: None, reply: nick_usage_text(), disconnect: false }
        } else if contains_id(v, id) {
            CommandEffect {
                registry: reg_register(v, id, new_name),
                publish: Some((rename_notice_text(name_of(v, id), new_name), id)),
                reply: nick_confirm_text(new_name),
                disconnect: false,
            }
        } else {
            CommandEffect {
                registry: v,
                publish: None,
                reply: Seq::<char>::empty(),
                disconnect: false,
            }
        }
    } else {
        CommandEffect {
            registry: v,
            publish: None,
            reply: unknown_command_text(),
            disconnect: false,
        }
    }
}

/// A `/list` command from any connection replies with exactly the
/// registered names, in registration order, and has no other effect: the
/// registry stays as it is, nothing is broadcast, the connection stays.
pub proof fn lemma_list_reply(v: Seq<(u64, Seq<char>)>, id: u64)
    ensures
        command_step(v, id, "/list"@).reply == listing_text(names_of(v)),
        command_step(v, id, "/list"@).registry == v,
        command_step(v, id, "/list"@).publish is None,
        !command_step(v, id, "/list"@).disconnect,
{
    reveal_strlit("/help");
    reveal_strlit("/list");
    assert("/help"@[1] == 'h' && "/list"@[1] == 'l');
    assert(forall|k: int| 0 <= k < 5 ==> "/list"@[k] != ' ');
    lemma_token_len_at("/list"@, 5);
    assert(token_of("/list"@) =~= "/list"@);
}

/// What the executable interpreter hands back to the connection handler.
pub struct CommandOutcome {
    /// The direct reply for the issuing connection alone; possibly empty,
    /// in which case there is nothing to send.
    pub reply: String,
    /// The notice to publish to every subscriber, if any.
    pub broadcast: Option<Envelope>,
    /// Whether the issuing connection is to close.
    pub disconnect: bool,
}

/// Interprets one command line issued by `id`: mutates the registry and
/// returns the reply, the broadcast and the disconnect decision, exactly
/// as `command_step` determines them.
pub fn handle_command(id: u64, line: &str, registry: &mut Registry) -> (out: CommandOutcome)
    requires
        old(registry).wf(),
        is_command_spec(line@),
    ensures
        final(registry).wf(),
        final(registry)@ == command_step(old(registry)@, id, line@).registry,
        env_opt_view(out.broadcast) == command_step(old(registry)@, id, line@).publish,
        out.reply@ == command_step(old(registry)@, id, line@).reply,
        out.disconnect == command_step(old(registry)@, id, line@).disconnect,
{
    match parse_command(line) {
        Command::Help => CommandOutcome {
            reply: help_message(),
            broadcast: None,
            disconnect: false,
        },
        Command::List => {
            let names = registry.snapshot_names();
            CommandOutcome { reply: listing(&names), broadcast: None, disconnect: false }
        },
        Command::Quit => {
            let prev = registry.remove(id);
            let broadcast = match prev {
                Some(name) => Some(Envelope::new(leave_notice(name.as_str()), id)),
                None => None,
            };
            CommandOutcome { reply: quit_reply(), broadcast, disconnect: true }
        },
        Command::Nick(new_name) => {
            if new_name.as_str().is_empty() {
                CommandOutcome { reply: nick_usage(), broadcast: None, disconnect: false }
            } else {
                match registry.lookup(id) {
                    Some(old_name) => {
                        let notice = rename_notice(old_name.as_str(), new_name.as_str());
                        let confirm = nick_confirm(new_name.as_str());
                        registry.register(id, new_name);
                        CommandOutcome {
                            reply: confirm,
                            broadcast: Some(Envelope::new(notice, id)),
                            disconnect: false,
                        }
                    },
                    None => CommandOutcome {
                        reply: String::new(),
                        broadcast: None,
                        disconnect: false,
                    },
                }
            }
        },
        Command::Unknown => CommandOutcome {
            reply: unknown_command(),
            broadcast: None,
            disconnect: false,
        },
    }
}

} // verus!
