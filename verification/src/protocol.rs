//! The protocol between the worker and the host that runs it: the worker
//! names an action, the host carries it out and answers with an event.

use crate::handheld::{HandheldSet, PageRequest, PageRequestView};
use crate::process::{command_view, MiuchizProcess, ProcessView};
use vstd::prelude::*;
use vstd::string::*;

verus! {

/// What the host is to do next.
#[derive(Debug, PartialEq, Eq)]
pub enum Action {
    /// Take the waiting command out of the mailbox, without blocking.
    /// Answered by [`Event::Command`].
    PollCommand,
    /// Send the operation about to be executed to the driver.
    /// Answered by [`Event::Delivered`].
    ReportState(MiuchizProcess),
    /// Enumerate the connected handhelds. Answered by [`Event::Handhelds`].
    Enumerate,
    /// Send the list of connected handhelds to the driver.
    /// Answered by [`Event::Delivered`].
    ReportHandhelds(Vec<String>),
    /// Sleep for this many milliseconds. Answered by [`Event::Resumed`].
    Pause(u64),
    /// Send a status line to the driver. Answered by [`Event::Delivered`].
    ReportStatus(String),
    /// Send the progress, pages done and of how many, to the driver.
    /// Answered by [`Event::Delivered`].
    ReportProgress(u32, u32),
    /// Load the whole file with this name. Answered by [`Event::Source`].
    LoadSource(String),
    /// Carry out the page transfer, and time it. Answered by
    /// [`Event::PageWritten`] for a write and [`Event::PageRead`] for a read.
    Transfer(PageRequest),
    /// Store the bytes in the file with this name.
    /// Answered by [`Event::Stored`].
    StoreSink(String, Vec<u8>),
    /// Stop running the worker: the driver is gone.
    Stop,
}

/// What an [`Action`] asks for.
pub enum ActionView {
    PollCommand,
    ReportState(ProcessView),
    Enumerate,
    ReportHandhelds(Seq<Seq<char>>),
    Pause(u64),
    ReportStatus(Seq<char>),
    ReportProgress(u32, u32),
    LoadSource(Seq<char>),
    Transfer(PageRequestView),
    StoreSink(Seq<char>, Seq<u8>),
    Stop,
}

impl View for Action {
    type V = ActionView;

    open spec fn view(&self) -> ActionView {
        match self {
            Action::PollCommand => ActionView::PollCommand,
            Action::ReportState(process) => ActionView::ReportState(process@),
            Action::Enumerate => ActionView::Enumerate,
            Action::ReportHandhelds(paths) => ActionView::ReportHandhelds(paths.deep_view()),
            Action::Pause(millis) => ActionView::Pause(*millis),
            Action::ReportStatus(text) => ActionView::ReportStatus(text@),
            Action::ReportProgress(done, total) => ActionView::ReportProgress(*done, *total),
            Action::LoadSource(file) => ActionView::LoadSource(file@),
            Action::Transfer(request) => ActionView::Transfer(request@),
            Action::StoreSink(file, image) => ActionView::StoreSink(file@, image@),
            Action::Stop => ActionView::Stop,
        }
    }
}

/// What came of the action the host carried out.
#[derive(Debug, PartialEq, Eq)]
pub enum Event {
    /// The command that waited in the mailbox, if one did.
    Command(Option<MiuchizProcess>),
    /// Whether the driver could still be sent to.
    Delivered(bool),
    /// The handhelds that the enumeration found.
    Handhelds(HandheldSet),
    /// The pause is over.
    Resumed,
    /// The bytes of the file, or nothing when it could not be read.
    Source(Option<Vec<u8>>),
    /// What the transport returned for the page write, and how long the
    /// write took, in nanoseconds.
    PageWritten { code: i32, elapsed_nanos: u128 },
    /// What the transport returned for the page read, and the bytes it
    /// handed over.
    PageRead { code: i32, data: Vec<u8> },
    /// Whether the file could be written.
    Stored(bool),
}

/// What an [`Event`] tells.
pub enum EventView {
    Command(Option<ProcessView>),
    Delivered(bool),
    Handhelds(Seq<Seq<u8>>),
    Resumed,
    Source(Option<Seq<u8>>),
    PageWritten { code: i32, elapsed_nanos: u128 },
    PageRead { code: i32, data: Seq<u8> },
    Stored(bool),
}

impl View for Event {
    type V = EventView;

    open spec fn view(&self) -> EventView {
        match self {
            Event::Command(command) => EventView::Command(command_view(*command)),
            Event::Delivered(delivered) => EventView::Delivered(*delivered),
            Event::Handhelds(set) => EventView::Handhelds(set@),
            Event::Resumed => EventView::Resumed,
            Event::Source(source) => EventView::Source(
                match source {
                    Some(bytes) => Some(bytes@),
                    None => None,
                },
            ),
            Event::PageWritten { code, elapsed_nanos } => EventView::PageWritten {
                code: *code,
                elapsed_nanos: *elapsed_nanos,
            },
            Event::PageRead { code, data } => EventView::PageRead { code: *code, data: data@ },
            Event::Stored(stored) => EventView::Stored(*stored),
        }
    }
}

} // verus!
