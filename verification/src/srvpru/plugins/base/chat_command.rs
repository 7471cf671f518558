//! Chat lines that start with `/` run commands.
use vstd::prelude::*;

use crate::srvpru::plugins::PluginError;

use crate::srvpru::processor::{
    fresh_handler, spec_register_for_plugin, strs, Handler, HandlerCondition, HandlerOccasion,
    Registry, RegistryView,
};
use crate::ygopro::message::{ctos, srvpru, MessageType};
use crate::text::{chars_from, chars_of, push_str, starts_with, starts_with_str, string_of};

verus! {

/// The registry after the plugin registered its handlers.
pub open spec fn spec_init(r0: RegistryView) -> RegistryView {
    let r1 = spec_register_for_plugin(r0, fresh_handler(100, "chat_command"@, HandlerOccasion::Before, HandlerCondition::MessageType(MessageType::CTOS(ctos::MessageType::Chat))), "chat_command"@);
    r1
}

/// Register the plugin's handlers with the registry.
pub fn init(registry: &mut Registry) -> (r: Result<(), PluginError>)
    requires
        old(registry).wf(),
    ensures
        final(registry).wf(),
        final(registry)@ == spec_init(old(registry)@),
        r is Ok,
{
    Handler::new(100, "chat_command", HandlerOccasion::Before, HandlerCondition::MessageType(MessageType::CTOS(ctos::MessageType::Chat))).register_for_plugin("chat_command", registry);
    Ok(())
}


/// The index of the first command whose name starts the text after the
/// `/`, or -1.
pub open spec fn first_command(rest: Seq<char>, commands: Seq<Seq<char>>) -> int
    decreases commands.len(),
{
    if commands.len() == 0 {
        -1
    } else {
        let r = first_command(rest, commands.drop_last());
        if r >= 0 { r } else if starts_with(rest, commands.last()) { commands.len() - 1 } else { -1 }
    }
}

/// What a chat line does: a line that starts with `/` is a command and is
/// not sent on; it runs the first command whose name follows the `/`.
#[derive(Copy, Clone, Debug, PartialEq, Eq, Structural)]
pub enum CommandOutcome {
    /// Not a command: the line goes on.
    NotCommand,
    /// A command line that names none of the commands.
    Unknown,
    /// A command line that runs the command at this index.
    Run(usize),
}

pub fn dispatch(message: &str, commands: &[&str]) -> (r: CommandOutcome)
    ensures
        !starts_with(message@, "/"@) ==> r == CommandOutcome::NotCommand,
        starts_with(message@, "/"@) ==> ({
            let i = first_command(message@.skip(1), crate::srvpru::processor::strs(commands@));
            if i >= 0 { r == CommandOutcome::Run(i as usize) } else { r == CommandOutcome::Unknown }
        }),
{
    proof { reveal_strlit("/"); }
    let cs = chars_of(message);
    if !starts_with_str(cs.as_slice(), "/") {
        return CommandOutcome::NotCommand;
    }
    let rest = chars_from(cs.as_slice(), 1);
    let ghost names = crate::srvpru::processor::strs(commands@);
    let mut i: usize = 0;
    while i < commands.len()
        invariant
            names == crate::srvpru::processor::strs(commands@),
            rest@ == message@.skip(1),
            starts_with(message@, "/"@),
            i <= commands@.len(),
            first_command(rest@, names.take(i as int)) == -1,
        decreases commands@.len() - i,
    {
        proof {
            assert(names.take(i + 1).drop_last() =~= names.take(i as int));
            assert(names.take(i + 1).last() == commands@[i as int]@);
        }
        if starts_with_str(rest.as_slice(), commands[i]) {
            proof { lemma_first_command_prefix(rest@, names, i as int); }
            return CommandOutcome::Run(i);
        }
        i = i + 1;
    }
    assert(names.take(i as int) =~= names);
    CommandOutcome::Unknown
}

proof fn lemma_first_command_prefix(rest: Seq<char>, commands: Seq<Seq<char>>, i: int)
    requires
        0 <= i < commands.len(),
        first_command(rest, commands.take(i)) == -1,
        starts_with(rest, commands[i]),
    ensures
        first_command(rest, commands) == i,
    decreases commands.len(),
{
    if commands.len() == i + 1 {
        assert(commands.drop_last() =~= commands.take(i));
    } else {
        assert(commands.drop_last().take(i) =~= commands.take(i));
        lemma_first_command_prefix(rest, commands.drop_last(), i);
    }
}

/// The handler that puts a command into the command table when the server
/// starts.
pub fn before_message(name: &str) -> (r: Handler)
    ensures
        r@ == fresh_handler(100, "chat_command_"@ + name@, HandlerOccasion::Before,
            HandlerCondition::MessageType(MessageType::SRVPRU(srvpru::MessageType::ServerStart))),
{
    let mut full: Vec<char> = Vec::new();
    push_str(&mut full, "chat_command_");
    push_str(&mut full, name);
    let handler_name = string_of(full.as_slice());
    Handler::new(100, handler_name.as_str(), HandlerOccasion::Before,
        HandlerCondition::MessageType(MessageType::SRVPRU(srvpru::MessageType::ServerStart)))
}

} // verus!
