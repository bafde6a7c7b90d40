use vstd::prelude::*;

verus! {

/// Tag of a moment marked from the remote control.
#[derive(Debug, Clone, Copy, PartialEq, Eq, Structural)]
pub enum MarkTag {
    Interesting,
    Changeover,
    StrayBall,
    BadRally,
}

impl MarkTag {
    pub open spec fn name(self) -> Seq<char> {
        match self {
            MarkTag::Interesting => "interesting"@,
            MarkTag::Changeover => "changeover"@,
            MarkTag::StrayBall => "stray-ball"@,
            MarkTag::BadRally => "bad-rally"@,
        }
    }

    pub fn as_str(self) -> (s: &'static str)
        ensures
            s@ == self.name(),
    {
        match self {
            MarkTag::Interesting => "interesting",
            MarkTag::Changeover => "changeover",
            MarkTag::StrayBall => "stray-ball",
            MarkTag::BadRally => "bad-rally",
        }
    }
}

/// Commands sent by the controlling device.
#[derive(Debug, Clone, Copy, PartialEq, Eq, Structural)]
pub enum RemoteCommand {
    StartRecording,
    StopRecording,
    MarkMoment { tag: MarkTag },
}

/// The commands that leave a trace in the manifest: a marked moment
/// becomes a `mark` event with the tag's name; transport commands leave
/// none.
pub fn command_mark(command: &RemoteCommand) -> (tag: Option<MarkTag>)
    ensures
        match *command {
            RemoteCommand::MarkMoment { tag: t } => tag == Some(t),
            _ => tag is None,
        },
{
    match command {
        RemoteCommand::MarkMoment { tag } => Some(*tag),
        _ => None,
    }
}

} // verus!
