//! What the worker can be asked to do, and the mailbox that carries the
//! request to it.

use vstd::prelude::*;
use vstd::string::*;

verus! {

/// The operation the worker is in, or is asked to start.
#[derive(Debug, PartialEq, Eq)]
pub enum MiuchizProcess {
    /// No transfer is in progress; the worker keeps the handheld list fresh.
    WatchingForHandhelds,
    /// Write the image stored in `file` to the handheld `device`.
    Flashing { file: String, device: String },
    /// Read the handheld `device` into a new image stored in `file`.
    Reading { file: String, device: String },
}

/// A [`MiuchizProcess`] with its texts as sequences of characters.
pub enum ProcessView {
    WatchingForHandhelds,
    Flashing { file: Seq<char>, device: Seq<char> },
    Reading { file: Seq<char>, device: Seq<char> },
}

impl View for MiuchizProcess {
    type V = ProcessView;

    open spec fn view(&self) -> ProcessView {
        match self {
            MiuchizProcess::WatchingForHandhelds => ProcessView::WatchingForHandhelds,
            MiuchizProcess::Flashing { file, device } => ProcessView::Flashing {
                file: file@,
                device: device@,
            },
            MiuchizProcess::Reading { file, device } => ProcessView::Reading {
                file: file@,
                device: device@,
            },
        }
    }
}

impl Default for MiuchizProcess {
    fn default() -> (process: MiuchizProcess)
        ensures
            process == MiuchizProcess::WatchingForHandhelds,
    {
        MiuchizProcess::WatchingForHandhelds
    }
}

impl Clone for MiuchizProcess {
    fn clone(&self) -> (copy: MiuchizProcess)
        ensures
            copy@ == self@,
    {
        match self {
            MiuchizProcess::WatchingForHandhelds => MiuchizProcess::WatchingForHandhelds,
            MiuchizProcess::Flashing { file, device } => MiuchizProcess::Flashing {
                file: file.clone(),
                device: device.clone(),
            },
            MiuchizProcess::Reading { file, device } => MiuchizProcess::Reading {
                file: file.clone(),
                device: device.clone(),
            },
        }
    }
}

impl MiuchizProcess {
    /// Whether this is the idle operation.
    pub fn is_watching(&self) -> (watching: bool)
        ensures
            watching == (self@ is WatchingForHandhelds),
    {
        match self {
            MiuchizProcess::WatchingForHandhelds => true,
            _ => false,
        }
    }
}

/// The view of a command that may be absent.
pub open spec fn command_view(command: Option<MiuchizProcess>) -> Option<ProcessView> {
    match command {
        Some(process) => Some(process@),
        None => None,
    }
}

/// The slot after a command was posted to it: the command, whatever waited
/// there before.
pub open spec fn posted(slot: Option<ProcessView>, command: ProcessView) -> Option<ProcessView> {
    Some(command)
}

/// The slot after the commands were posted one after the other.
pub open spec fn posted_all(slot: Option<ProcessView>, commands: Seq<ProcessView>) -> Option<
    ProcessView,
>
    decreases commands.len(),
{
    if commands.len() == 0 {
        slot
    } else {
        posted(posted_all(slot, commands.drop_last()), commands.last())
    }
}

/// A mailbox with a single slot: a command posted to it replaces the one
/// that was waiting, so the worker only ever sees the latest.
pub struct Mailbox {
    slot: Option<MiuchizProcess>,
}

impl View for Mailbox {
    type V = Option<ProcessView>;

    /// The command that waits in the slot.
    closed spec fn view(&self) -> Option<ProcessView> {
        command_view(self.slot)
    }
}

impl Mailbox {
    /// An empty mailbox.
    pub fn new() -> (mailbox: Mailbox)
        ensures
            mailbox@ is None,
    {
        Mailbox { slot: None }
    }

    /// Leaves a command for the worker, in place of any that was waiting.
    pub fn post(&mut self, command: MiuchizProcess)
        ensures
            final(self)@ == posted(old(self)@, command@),
    {
        self.slot = Some(command);
    }

    /// Takes the waiting command out, if there is one.
    pub fn take(&mut self) -> (command: Option<MiuchizProcess>)
        ensures
            command_view(command) == old(self)@,
            final(self)@ is None,
    {
        self.slot.take()
    }
}

/// Of the commands posted before the worker next takes one, only the last
/// is ever taken; every earlier one is dropped.
pub proof fn lemma_last_command_wins(slot: Option<ProcessView>, commands: Seq<ProcessView>)
    requires
        commands.len() > 0,
    ensures
        posted_all(slot, commands) == Some(commands.last()),
{
}

} // verus!
