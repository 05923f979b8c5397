use vstd::prelude::*;

verus! {

/// The keys the viewer distinguishes. The window layer translates whatever
/// key event it receives into one of these before asking for a command.
#[derive(Clone, Copy, Debug, PartialEq, Eq, Structural)]
pub enum ViewerKey {
    Escape,
    Down,
    Up,
    Next,
    Previous,
    Other,
}

/// What a key press asks the viewer to do.
#[derive(Clone, Copy, Debug, PartialEq, Eq, Structural)]
pub enum KeyCommand {
    /// Leave the process.
    Exit,
    /// Advance one page.
    Advance,
    /// Retreat one page.
    Retreat,
    /// Do nothing.
    Ignore,
}

/// The viewer's keyboard contract: Escape exits, Down and Next advance one
/// page, Up and Previous retreat one page, every other key is ignored.
pub open spec fn key_command_spec(key: ViewerKey) -> KeyCommand {
    match key {
        ViewerKey::Escape => KeyCommand::Exit,
        ViewerKey::Down => KeyCommand::Advance,
        ViewerKey::Next => KeyCommand::Advance,
        ViewerKey::Up => KeyCommand::Retreat,
        ViewerKey::Previous => KeyCommand::Retreat,
        ViewerKey::Other => KeyCommand::Ignore,
    }
}

/// Maps a pressed key to the command the viewer carries out.
pub fn key_command(key: ViewerKey) -> (c: KeyCommand)
    ensures
        c == key_command_spec(key),
{
    match key {
        ViewerKey::Escape => KeyCommand::Exit,
        ViewerKey::Down => KeyCommand::Advance,
        ViewerKey::Next => KeyCommand::Advance,
        ViewerKey::Up => KeyCommand::Retreat,
        ViewerKey::Previous => KeyCommand::Retreat,
        ViewerKey::Other => KeyCommand::Ignore,
    }
}

} // verus!
