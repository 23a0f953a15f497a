use vstd::prelude::*;

verus! {

/// Operations accepted by [`crate::InputState::handle_message`].
///
/// An external translator maps device events onto this vocabulary; anything
/// it does not recognise becomes [`Message::Empty`], so the operation stream
/// stays total. Invalid operations (for example a move past a buffer
/// boundary) are no-ops, never errors.
#[derive(Debug)]
pub enum Message {
    /// No state change. Used to avoid `Option<Message>`.
    Empty,
    /// Gain focus on the input.
    Focus,
    /// Remove focus from the input.
    RemoveFocus,
    /// Delete the character under the cursor, or the selection.
    DeleteOnCursor,
    /// Delete the character before the cursor, or the selection.
    DeleteBeforeCursor,
    /// Move the cursor one position to the left; any selection collapses in
    /// place.
    MoveLeft,
    /// Move the cursor to the left, starting or continuing a selection.
    MoveLeftWithSelection,
    /// Move the cursor one position to the right; any selection collapses in
    /// place.
    MoveRight,
    /// Move the cursor to the right, starting or continuing a selection.
    MoveRightWithSelection,
    /// Jump the cursor past the last character.
    JumpToEnd,
    /// Jump the cursor onto the last character, selecting everything from the
    /// current position to the end.
    JumpToEndWithSelection,
    /// Jump the cursor to the start.
    JumpToStart,
    /// Jump the cursor to the start, selecting everything from the start to
    /// the current position.
    JumpToStartWithSelection,
    /// Character input: insert at the cursor, overwrite the code point under
    /// the cursor (in overwrite mode), or replace the selection.
    Char(char),
    /// Insert a string at the cursor; an active selection is replaced.
    Paste(String),
    /// Toggle between insert and overwrite behaviour for [`Message::Char`].
    ToggleInsertMode,
    /// Hand the selected text, or the whole value when nothing is selected,
    /// to the clipboard capability. No state mutation.
    CopyToClipboard,
    /// Hand the selected text, or the whole value, to the clipboard
    /// capability, then delete that span.
    CutToClipboard,
}

} // verus!
