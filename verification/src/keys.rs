//! What each key of the interactive uploader does.
use vstd::prelude::*;

verus! {

/// The commands of the interactive uploader.
#[derive(Clone, Copy, Debug, PartialEq, Eq, Structural)]
pub enum KeyAction {
    /// `q`: leave the program.
    Quit,
    /// `p`: pause every upload.
    PauseAll,
    /// `r`: resume every upload.
    ResumeAll,
    /// `c`: cancel every upload.
    CancelAll,
    /// `a`: add the configured sample file.
    AddSample,
    /// `l`: list the uploads and their states.
    List,
}

/// The command of a pressed key, if it has one.
pub open spec fn key_command(c: char) -> Option<KeyAction> {
    if c == 'q' {
        Some(KeyAction::Quit)
    } else if c == 'p' {
        Some(KeyAction::PauseAll)
    } else if c == 'r' {
        Some(KeyAction::ResumeAll)
    } else if c == 'c' {
        Some(KeyAction::CancelAll)
    } else if c == 'a' {
        Some(KeyAction::AddSample)
    } else if c == 'l' {
        Some(KeyAction::List)
    } else {
        None
    }
}

pub fn action_for_key(c: char) -> (r: Option<KeyAction>)
    ensures
        r == key_command(c),
{
    match c {
        'q' => Some(KeyAction::Quit),
        'p' => Some(KeyAction::PauseAll),
        'r' => Some(KeyAction::ResumeAll),
        'c' => Some(KeyAction::CancelAll),
        'a' => Some(KeyAction::AddSample),
        'l' => Some(KeyAction::List),
        _ => None,
    }
}

} // verus!
