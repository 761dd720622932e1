use vstd::prelude::*;

verus! {

/// The message a window receives when it is being destroyed.
pub const WM_DESTROY: u32 = 0x0002;

/// The message a window receives when a key is pressed.
pub const WM_KEYDOWN: u32 = 0x0100;

/// The virtual-key code of the Escape key.
pub const VK_ESCAPE: u32 = 0x1B;

/// What the demo window does with a message.
#[derive(Clone, Copy, PartialEq, Eq, Debug, Structural)]
pub enum MessageAction {
    /// Ask the message loop to end, and report the message handled.
    Quit,
    /// Report the message handled and do nothing else.
    Handled,
    /// Leave the message to the system's default handling.
    PassOn,
}

/// What the demo window does with message `msg` whose first parameter is
/// `wparam`: it ends the message loop when destroyed or when Escape is
/// pressed (the key code being the low 32 bits of `wparam`), swallows other
/// key presses, and passes every other message on.
pub open spec fn message_action_spec(msg: u32, wparam: usize) -> MessageAction {
    if msg == WM_DESTROY {
        MessageAction::Quit
    } else if msg == WM_KEYDOWN {
        if wparam as u32 == VK_ESCAPE {
            MessageAction::Quit
        } else {
            MessageAction::Handled
        }
    } else {
        MessageAction::PassOn
    }
}

/// Decides what the demo window does with a message.
pub fn window_message_action(msg: u32, wparam: usize) -> (a: MessageAction)
    ensures
        a == message_action_spec(msg, wparam),
{
    if msg == WM_DESTROY {
        MessageAction::Quit
    } else if msg == WM_KEYDOWN {
        if wparam as u32 == VK_ESCAPE {
            MessageAction::Quit
        } else {
            MessageAction::Handled
        }
    } else {
        MessageAction::PassOn
    }
}

/// Escape always ends the demo, whatever the upper bits of the parameter.
pub proof fn lemma_escape_quits(wparam: usize)
    requires
        wparam as u32 == VK_ESCAPE,
    ensures
        message_action_spec(WM_KEYDOWN, wparam) == MessageAction::Quit,
{
}

/// Only destruction and Escape end the demo.
pub proof fn lemma_quit_only_on_destroy_or_escape(msg: u32, wparam: usize)
    ensures
        message_action_spec(msg, wparam) == MessageAction::Quit <==> (msg == WM_DESTROY || (msg
            == WM_KEYDOWN && wparam as u32 == VK_ESCAPE)),
{
}

/// Only key presses are swallowed: a message is handled without further
/// ado exactly when it is a key press of a key other than Escape.
pub proof fn lemma_only_other_keys_are_swallowed(msg: u32, wparam: usize)
    ensures
        message_action_spec(msg, wparam) == MessageAction::Handled <==> (msg == 0x0100u32 && (
        wparam as u32) != 0x1Bu32),
{
}

/// Every message other than destruction and key presses (closing,
/// painting, resizing, key releases, ...) goes to the default handling.
pub proof fn lemma_other_messages_pass_on(msg: u32, wparam: usize)
    ensures
        message_action_spec(msg, wparam) == MessageAction::PassOn <==> (msg != 0x0002u32 && msg
            != 0x0100u32),
        message_action_spec(0x0010u32, wparam) == MessageAction::PassOn,
{
}

} // verus!
