use vstd::prelude::*;

verus! {

/// Why the bot could not join a voice channel.
#[derive(Debug, Clone, PartialEq, Eq)]
pub enum VoiceChannelJoinError {
    /// The calling user is not in any voice channel accessible by the bot.
    UserNotInVoiceChannel,
    /// Any other failure; the text is an opaque cause, meant for the log.
    Other(String),
}

/// A volume change found no registered track to apply the gain to.
#[derive(Debug, Clone, Copy, PartialEq, Eq, Structural)]
pub struct NoActiveTrack;

/// A volume to be stored is below 0 or above the maximum.
#[derive(Debug, Clone, Copy, PartialEq, Eq, Structural)]
pub struct VolumeOutOfRange;

/// Why a volume change did not do all of its work.
#[derive(Debug, Clone, Copy, PartialEq, Eq, Structural)]
pub enum SetVolumeError {
    /// The volume is above the maximum: nothing was stored or applied.
    AboveMaximum,
    /// The volume was stored, but no track plays that the gain could be
    /// applied to.
    NoActiveTrack,
}

/// What went wrong above a command: the kinds that the top-level handler
/// tells apart.
#[derive(Debug, Clone, Copy, PartialEq, Eq, Structural)]
pub enum Failure {
    /// The bot could not be set up.
    Setup,
    /// A command returned an error.
    Command,
    /// Anything else that the command framework reports.
    Framework,
}

/// What the top-level handler does about a failure.
#[derive(Debug, Clone, Copy, PartialEq, Eq, Structural)]
pub enum Handling {
    /// Give up: the process does not start.
    Abort,
    /// Write the cause to the log and answer with a generic apology.
    Apologise,
    /// Leave it to the framework's own handler.
    Delegate,
}

/// Decides what is done about a failure. Only a failed setup ends the
/// process; a failed command never does.
pub fn on_error(failure: Failure) -> (handling: Handling)
    ensures
        handling == match failure {
            Failure::Setup => Handling::Abort,
            Failure::Command => Handling::Apologise,
            Failure::Framework => Handling::Delegate,
        },
{
    match failure {
        Failure::Setup => Handling::Abort,
        Failure::Command => Handling::Apologise,
        Failure::Framework => Handling::Delegate,
    }
}

} // verus!
