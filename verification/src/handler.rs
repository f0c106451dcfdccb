//! The per-connection handler: a three-state machine driven by the events
//! the surrounding program observes (a line read, end of stream, an
//! envelope received), each transition a verified function.
//!
//! The handler owns no socket: every transition takes plain values and
//! returns what to send, what to publish and whether to stop, so the
//! event loop around it only moves bytes.

use vstd::prelude::*;
use crate::is_command_spec;
use crate::bus::{env_opt_view, Envelope};
use crate::commands::{command_step, handle_command, CommandEffect};
use crate::messages::{
    chat_line, chat_line_text, fallback_name, fallback_name_text, join_notice, join_notice_text,
    leave_notice, leave_notice_text, rename_notice_text,
};
use crate::registry::{contains_id, name_of, reg_register, reg_remove, Registry};
use crate::text::{str_opt_view, trim, trimmed};

verus! {

/// Where a connection stands in its lifecycle.
pub enum Phase {
    /// The name prompt was sent; the first line will fix the display name.
    AwaitingName,
    /// Registered and chatting.
    Active,
    /// Terminal: no further registry or bus interaction happens.
    Closed,
}

/// The display name a first line fixes: the trimmed input, or the
/// deterministic fallback for connection number `id` when the input is
/// empty or whitespace-only.
pub open spec fn chosen_name(line: Seq<char>, id: u64) -> Seq<char> {
    if trimmed(line).len() == 0 {
        fallback_name_text(id as nat)
    } else {
        trimmed(line)
    }
}

/// The name a chat line is formatted with: the registered name, or the
/// fallback when the entry is momentarily absent because a concurrent
/// departure raced the send.
pub open spec fn display_name(v: Seq<(u64, Seq<char>)>, id: u64) -> Seq<char> {
    if contains_id(v, id) {
        name_of(v, id)
    } else {
        fallback_name_text(id as nat)
    }
}

/// The departure notice a disconnect publishes: only a connection that
/// had registered a name announces its leaving.
pub open spec fn disconnect_publish(v: Seq<(u64, Seq<char>)>, id: u64) -> Option<
    (Seq<char>, u64),
> {
    if contains_id(v, id) {
        Some((leave_notice_text(name_of(v, id)), id))
    } else {
        None
    }
}

/// The meaning of one inbound line from an active connection: a line
/// whose trimmed form starts with `/` goes to the command interpreter;
/// anything else is chat, published to everybody under the sender's
/// current display name, with no direct reply.
pub open spec fn line_step(v: Seq<(u64, Seq<char>)>, id: u64, raw: Seq<char>) -> CommandEffect {
    let t = trimmed(raw);
    if is_command_spec(t) {
        command_step(v, id, t)
    } else {
        CommandEffect {
            registry: v,
            publish: Some((chat_line_text(display_name(v, id), t), id)),
            reply: Seq::<char>::empty(),
            disconnect: false,
        }
    }
}

/// What one handler transition asks the surrounding event loop to do.
pub struct StepOutcome {
    /// Text for the issuing connection's own socket, if any.
    pub reply: Option<String>,
    /// An envelope for the broadcast bus, if any.
    pub publish: Option<Envelope>,
    /// Whether the connection is done and the loop is to stop.
    pub disconnect: bool,
}

/// One connection's handler state.
pub struct Handler {
    /// The connection's identity: its per-process sequence number, stable
    /// for the connection's lifetime.
    pub id: u64,
    /// The lifecycle phase.
    pub phase: Phase,
}

impl Handler {
    /// A handler for a freshly accepted connection, awaiting its name.
    pub fn new(id: u64) -> (h: Handler)
        ensures
            h.id == id,
            h.phase is AwaitingName,
    {
        Handler { id, phase: Phase::AwaitingName }
    }

    /// Fixes the display name from the first line: registers the trimmed
    /// input (or the fallback name when it is empty), publishes the join
    /// notice under this connection's own identity, and becomes active.
    pub fn name_line(&mut self, line: &str, registry: &mut Registry) -> (out: StepOutcome)
        requires
            old(self).phase is AwaitingName,
            old(registry).wf(),
        ensures
            final(self).id == old(self).id,
            final(self).phase is Active,
            final(registry).wf(),
            final(registry)@ == reg_register(
                old(registry)@,
                old(self).id,
                chosen_name(line@, old(self).id),
            ),
            env_opt_view(out.publish) == Some(
                (join_notice_text(chosen_name(line@, old(self).id)), old(self).id),
            ),
            out.reply is None,
            !out.disconnect,
    {
        let name = trim(line);
        let name = if name.as_str().is_empty() {
            fallback_name(self.id)
        } else {
            name
        };
        let notice = join_notice(name.as_str());
        registry.register(self.id, name);
        self.phase = Phase::Active;
        StepOutcome {
            reply: None,
            publish: Some(Envelope::new(notice, self.id)),
            disconnect: false,
        }
    }

    /// Ends the connection on end-of-stream or a read error. A connection
    /// that never registered leaves silently (no phantom departure); an
    /// active one is removed from the registry and, if it was registered,
    /// its departure notice is published.
    pub fn read_closed(&mut self, registry: &mut Registry) -> (out: StepOutcome)
        requires
            !(old(self).phase is Closed),
            old(registry).wf(),
        ensures
            final(self).id == old(self).id,
            final(self).phase is Closed,
            final(registry).wf(),
            old(self).phase is AwaitingName ==> final(registry)@ == old(registry)@
                && out.publish is None,
            old(self).phase is Active ==> final(registry)@ == reg_remove(
                old(registry)@,
                old(self).id,
            ) && env_opt_view(out.publish) == disconnect_publish(old(registry)@, old(self).id),
            out.reply is None,
            out.disconnect,
    {
        let publish = match self.phase {
            Phase::AwaitingName => None,
            Phase::Active => {
                match registry.remove(self.id) {
                    Some(name) => Some(Envelope::new(leave_notice(name.as_str()), self.id)),
                    None => None,
                }
            },
            Phase::Closed => None,
        };
        self.phase = Phase::Closed;
        StepOutcome { reply: None, publish, disconnect: true }
    }

    /// Handles one inbound line from an active connection, exactly as
    /// `line_step` determines: commands go to the interpreter (whose
    /// direct reply comes back, possibly empty), chat is published under
    /// the current display name with no direct reply, and a `/quit`
    /// closes the connection.
    pub fn text_line(&mut self, line: &str, registry: &mut Registry) -> (out: StepOutcome)
        requires
            old(self).phase is Active,
            old(registry).wf(),
        ensures
            final(self).id == old(self).id,
            final(registry).wf(),
            final(registry)@ == line_step(old(registry)@, old(self).id, line@).registry,
            env_opt_view(out.publish) == line_step(old(registry)@, old(self).id, line@).publish,
            str_opt_view(out.reply) == (if is_command_spec(trimmed(line@)) {
                Some(line_step(old(registry)@, old(self).id, line@).reply)
            } else {
                Option::<Seq<char>>::None
            }),
            out.disconnect == line_step(old(registry)@, old(self).id, line@).disconnect,
            final(self).phase is Closed <==> out.disconnect,
            !out.disconnect ==> final(self).phase is Active,
    {
        let t = trim(line);
        if crate::commands::is_command(t.as_str()) {
            let outcome = handle_command(self.id, t.as_str(), registry);
            if outcome.disconnect {
                self.phase = Phase::Closed;
            }
            StepOutcome {
                reply: Some(outcome.reply),
                publish: outcome.broadcast,
                disconnect: outcome.disconnect,
            }
        } else {
            let name = match registry.lookup(self.id) {
                Some(name) => name,
                None => fallback_name(self.id),
            };
            let text = chat_line(name.as_str(), t.as_str());
            StepOutcome {
                reply: None,
                publish: Some(Envelope::new(text, self.id)),
                disconnect: false,
            }
        }
    }

    /// Decides what a received envelope means for this connection: its
    /// text, to be written verbatim, unless this connection published it
    /// itself — its own envelopes are discarded silently.
    pub fn envelope(&self, env: &Envelope) -> (out: Option<String>)
        ensures
            str_opt_view(out) == deliver_decision(self.id, env@),
    {
        if env.origin == self.id {
            None
        } else {
            Some(env.text.clone())
        }
    }
}

/// What delivery of envelope `m` means for the connection `my_id`:
/// nothing when the envelope's origin is `my_id` itself, its text
/// otherwise.
pub open spec fn deliver_decision(my_id: u64, m: (Seq<char>, u64)) -> Option<Seq<char>> {
    if m.1 == my_id {
        None
    } else {
        Some(m.0)
    }
}

/// No self-echo: every envelope one connection's own transitions publish
/// — its join notice, any effect of a line it sends, its departure
/// notice — carries that connection's identity as origin, and delivery
/// of such an envelope back to the same connection yields nothing.
pub proof fn lemma_no_self_echo(v: Seq<(u64, Seq<char>)>, id: u64, raw: Seq<char>)
    ensures
        ({
            let eff = line_step(v, id, raw);
            eff.publish matches Some(m) ==> m.1 == id && deliver_decision(id, m) is None
        }),
        deliver_decision(id, (join_notice_text(chosen_name(raw, id)), id)) is None,
        ({
            let p = disconnect_publish(v, id);
            p matches Some(m) ==> m.1 == id && deliver_decision(id, m) is None
        }),
{
}

/// Rename visibility: a `/nick` from a registered connection broadcasts a
/// notice built from the old and the new name, and a chat line the
/// connection sends afterwards is formatted with the new name.
pub proof fn lemma_rename_visibility(v: Seq<(u64, Seq<char>)>, id: u64, cmd: Seq<char>, chat: Seq<char>)
    requires
        crate::registry::wf_entries(v),
        contains_id(v, id),
        crate::commands::token_of(cmd) == "/nick"@,
        trimmed(crate::commands::arg_of(cmd)).len() > 0,
        !is_command_spec(trimmed(chat)),
    ensures
        ({
            let old_name = name_of(v, id);
            let new_name = trimmed(crate::commands::arg_of(cmd));
            let eff = command_step(v, id, cmd);
            eff.publish == Some((rename_notice_text(old_name, new_name), id))
                && display_name(eff.registry, id) == new_name && line_step(
                eff.registry,
                id,
                chat,
            ).publish == Some((chat_line_text(new_name, trimmed(chat)), id))
        }),
{
    reveal_strlit("/help");
    reveal_strlit("/list");
    reveal_strlit("/quit");
    reveal_strlit("/nick");
    assert("/help"@[1] == 'h' && "/list"@[1] == 'l' && "/quit"@[1] == 'q' && "/nick"@[1] == 'n');
    let new_name = trimmed(crate::commands::arg_of(cmd));
    crate::registry::lemma_register_properties(v, id, new_name);
}

/// Fallback determinism: an empty or whitespace-only first line from
/// connection number `id` always fixes the display name `Person<id>`.
pub proof fn lemma_fallback_deterministic(line: Seq<char>, id: u64)
    requires
        trimmed(line).len() == 0,
    ensures
        chosen_name(line, id) == fallback_name_text(id as nat),
        chosen_name(line, id) == "Person"@ + crate::text::decimal_digits(id as nat),
{
}

} // verus!
