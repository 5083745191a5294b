use ratatui::Frame;
use vstd::prelude::*;

verus! {

#[verifier::external_type_specification]
#[verifier::external_body]
pub struct ExFrame<'a>(Frame<'a>);

/// A terminal application served to each connected client.
///
/// Each connection gets its own value, made with `new` when the client asks
/// for a shell. The server hands it the client's input, asks it to draw after
/// input and after each periodic update, and closes the connection once
/// `should_quit` answers true after an input.
pub trait ChaiApp: Sized {
    fn new() -> Self;

    fn update(&mut self);

    fn draw(&mut self, f: &mut Frame);

    fn handle_input(&mut self, data: &[u8]);

    /// Return true to signal that the SSH connection should be closed.
    /// The default implementation always returns false.
    fn should_quit(&self) -> (r: bool)
        default_ensures
            !r,
    {
        false
    }

    /// Whether the application wants to see Ctrl-C itself.
    /// The default implementation always returns false.
    fn capture_ctrl_c(&self) -> (r: bool)
        default_ensures
            !r,
    {
        false
    }
}

} // verus!
