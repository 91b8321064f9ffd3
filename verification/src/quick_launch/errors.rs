//! Errors of the quick launch widget and the texts that show them.

use vstd::prelude::*;

use crate::quick_launch::types::QuickLaunch;

verus! {

/// Why a quick launch operation failed.
#[derive(Debug)]
pub enum QuickLaunchError {
    /// The command cannot be run as it is.
    Validation { message: String },
    /// An entry needs a title.
    TitleEmpty,
    /// Another entry of the folder has the title already.
    TitleDuplicate,
}

/// Why the draft in the editor is no command yet.
#[derive(Debug, Clone, Copy, PartialEq, Eq, Structural)]
pub enum QuickLaunchWizardError {
    TitleRequired,
    MissingCustomDraft,
    ProgramRequired,
    MissingSshDraft,
    HostRequired,
    InvalidPort,
}

/// The text of a quick launch error.
pub open spec fn error_text(error: QuickLaunchError) -> Seq<char> {
    match error {
        QuickLaunchError::Validation { message } => message@,
        QuickLaunchError::TitleEmpty => "Title cannot be empty."@,
        QuickLaunchError::TitleDuplicate => "Title already exists in this folder."@,
    }
}

/// The text of an editor error.
pub open spec fn wizard_error_text(error: QuickLaunchWizardError) -> Seq<char> {
    match error {
        QuickLaunchWizardError::TitleRequired => "Title is required."@,
        QuickLaunchWizardError::MissingCustomDraft => "Custom command draft is missing."@,
        QuickLaunchWizardError::ProgramRequired => "Program is required."@,
        QuickLaunchWizardError::MissingSshDraft => "SSH command draft is missing."@,
        QuickLaunchWizardError::HostRequired => "Host is required."@,
        QuickLaunchWizardError::InvalidPort => "Port is invalid."@,
    }
}

impl Clone for QuickLaunchError {
    fn clone(&self) -> (r: Self)
        ensures
            error_text(r) == error_text(*self),
            r is TitleEmpty == self is TitleEmpty,
            r is TitleDuplicate == self is TitleDuplicate,
    {
        match self {
            QuickLaunchError::Validation { message } => QuickLaunchError::Validation {
                message: message.clone(),
            },
            QuickLaunchError::TitleEmpty => QuickLaunchError::TitleEmpty,
            QuickLaunchError::TitleDuplicate => QuickLaunchError::TitleDuplicate,
        }
    }
}

impl QuickLaunchError {
    /// The error in words.
    pub fn text(&self) -> (text: String)
        ensures
            text@ == error_text(*self),
    {
        match self {
            QuickLaunchError::Validation { message } => message.clone(),
            QuickLaunchError::TitleEmpty => "Title cannot be empty.".to_string(),
            QuickLaunchError::TitleDuplicate => "Title already exists in this folder.".to_string(),
        }
    }
}

impl QuickLaunchWizardError {
    /// The error in words.
    pub fn text(&self) -> (text: String)
        ensures
            text@ == wizard_error_text(*self),
    {
        match self {
            QuickLaunchWizardError::TitleRequired => "Title is required.".to_string(),
            QuickLaunchWizardError::MissingCustomDraft =>
                "Custom command draft is missing.".to_string(),
            QuickLaunchWizardError::ProgramRequired => "Program is required.".to_string(),
            QuickLaunchWizardError::MissingSshDraft => "SSH command draft is missing.".to_string(),
            QuickLaunchWizardError::HostRequired => "Host is required.".to_string(),
            QuickLaunchWizardError::InvalidPort => "Port is invalid.".to_string(),
        }
    }
}

/// What an error tab shows for a launch that failed.
pub fn quick_launch_error_message(_command: &QuickLaunch, error: &QuickLaunchError) -> (text: String)
    ensures
        text@ == error_text(*error),
{
    error.text()
}

} // verus!
