//! The transfer controller: a worker that forever takes the latest command,
//! tells the driver what it is about to do, does it, and falls back to
//! watching for handhelds.
//!
//! The worker does nothing outside itself. It names the action it waits for,
//! and moves on when it is handed the event that answers the action.

use crate::dump_run::{DumpRun, DumpRunView, DumpStageView, DumpStep, DumpStepView};
use crate::error::TransferError;
use crate::flash_run::{FlashRun, FlashRunView, FlashStageView, FlashStep, FlashStepView};
use crate::handheld::paths_of;
use crate::image::{FLASH_FILE_SIZE, PAGE_NUM};
use crate::process::{posted_all, MiuchizProcess, ProcessView};
use crate::protocol::{Action, ActionView, Event, EventView};
use vstd::prelude::*;
use vstd::string::*;

verus! {

/// How long the worker rests between two enumerations, in milliseconds.
pub const POLL_MILLIS: u64 = 250;

/// The status line that closes a transfer: the failure, or word of the
/// success.
pub open spec fn conclusion_text(writing: bool, result: Result<(), TransferError>) -> Seq<char> {
    match result {
        Ok(_) => if writing {
            "Finished writing to handheld."@
        } else {
            "Finished reading handheld."@
        },
        Err(failure) => failure.message_text(),
    }
}

/// Renders the status line that closes a transfer; `writing` tells a
/// flashing from a dumping.
pub fn conclusion(writing: bool, result: &Result<(), TransferError>) -> (text: String)
    ensures
        text@ == conclusion_text(writing, *result),
{
    match result {
        Ok(_) => if writing {
            String::from_str("Finished writing to handheld.")
        } else {
            String::from_str("Finished reading handheld.")
        },
        Err(failure) => failure.message(),
    }
}

/// The state of a [`Worker`].
pub enum WorkerView {
    /// Between two operations: the mailbox is to be looked into.
    Idle,
    /// The driver is to be told the operation about to be executed.
    Announce(ProcessView),
    /// Watching: the handhelds are to be enumerated.
    Scan,
    /// Watching: the driver is to be sent the list of handhelds.
    Publish(Seq<Seq<char>>),
    /// Watching: the worker rests until the next round.
    Rest,
    /// The status line is reset before a flashing begins.
    GreetFlash(FlashRunView),
    /// The status line is reset before a dumping begins.
    GreetDump(DumpRunView),
    /// A flashing is under way.
    Flash(FlashRunView),
    /// A dumping is under way.
    Dump(DumpRunView),
    /// A transfer is over and the driver is to be told how it went.
    Conclude { writing: bool, result: Result<(), TransferError> },
    /// The driver is gone and the worker has stopped for good.
    Stopped,
}

impl WorkerView {
    /// The runs inside the worker are well-formed.
    pub open spec fn wf(self) -> bool {
        match self {
            WorkerView::GreetFlash(run) => run.stage is Load,
            WorkerView::GreetDump(run) => run.stage is Scan,
            WorkerView::Flash(run) => run.wf(),
            WorkerView::Dump(run) => run.wf(),
            _ => true,
        }
    }

    /// The action that the worker waits for.
    pub open spec fn pending(self) -> ActionView {
        match self {
            WorkerView::Idle => ActionView::PollCommand,
            WorkerView::Announce(process) => ActionView::ReportState(process),
            WorkerView::Scan => ActionView::Enumerate,
            WorkerView::Publish(paths) => ActionView::ReportHandhelds(paths),
            WorkerView::Rest => ActionView::Pause(POLL_MILLIS),
            WorkerView::GreetFlash(run) => ActionView::ReportStatus("OK"@),
            WorkerView::GreetDump(run) => ActionView::ReportStatus("OK"@),
            WorkerView::Flash(run) => run.pending(),
            WorkerView::Dump(run) => run.pending(),
            WorkerView::Conclude { writing, result } => ActionView::ReportStatus(
                conclusion_text(writing, result),
            ),
            WorkerView::Stopped => ActionView::Stop,
        }
    }

    /// The operation that the worker executes on a command, or on none:
    /// the command replaces whatever went before, and without one the
    /// worker watches for handhelds.
    pub open spec fn chosen(command: Option<ProcessView>) -> ProcessView {
        match command {
            Some(process) => process,
            None => ProcessView::WatchingForHandhelds,
        }
    }

    /// Where the worker goes once the driver was told of the operation.
    pub open spec fn begun(process: ProcessView) -> WorkerView {
        match process {
            ProcessView::WatchingForHandhelds => WorkerView::Scan,
            ProcessView::Flashing { file, device } => WorkerView::GreetFlash(
                FlashRunView { file, device, stage: FlashStageView::Load },
            ),
            ProcessView::Reading { file, device } => WorkerView::GreetDump(
                DumpRunView { file, device, stage: DumpStageView::Scan },
            ),
        }
    }

    /// Where the worker goes on an event. An event that does not answer the
    /// pending action changes nothing.
    ///
    /// The worker stops only when the driver can no longer be told of the
    /// operation or of the handhelds. A status line or a progress that could
    /// not be sent is let go, and a transfer that failed ends like one that
    /// succeeded: the driver is told, and the worker is idle again.
    pub open spec fn next(self, event: EventView) -> WorkerView {
        match (self, event) {
            (WorkerView::Idle, EventView::Command(command)) => WorkerView::Announce(
                Self::chosen(command),
            ),
            (WorkerView::Announce(process), EventView::Delivered(delivered)) => if delivered {
                Self::begun(process)
            } else {
                WorkerView::Stopped
            },
            (WorkerView::Scan, EventView::Handhelds(names)) => WorkerView::Publish(
                paths_of(names),
            ),
            (WorkerView::Publish(paths), EventView::Delivered(delivered)) => if delivered {
                WorkerView::Rest
            } else {
                WorkerView::Stopped
            },
            (WorkerView::Rest, EventView::Resumed) => WorkerView::Idle,
            (WorkerView::GreetFlash(run), EventView::Delivered(_)) => WorkerView::Flash(run),
            (WorkerView::GreetDump(run), EventView::Delivered(_)) => WorkerView::Dump(run),
            (WorkerView::Flash(run), _) => match run.next(event) {
                FlashStepView::Continue(after) => WorkerView::Flash(after),
                FlashStepView::Finished(result) => WorkerView::Conclude { writing: true, result },
            },
            (WorkerView::Dump(run), _) => match run.next(event) {
                DumpStepView::Continue(after) => WorkerView::Dump(after),
                DumpStepView::Finished(result) => WorkerView::Conclude { writing: false, result },
            },
            (WorkerView::Conclude { writing, result }, EventView::Delivered(_)) => {
                WorkerView::Idle
            },
            _ => self,
        }
    }

    /// Where the worker is after the events, taken in one after the other.
    pub open spec fn run(self, events: Seq<EventView>) -> WorkerView
        decreases events.len(),
    {
        if events.len() == 0 {
            self
        } else {
            self.run(events.drop_last()).next(events.last())
        }
    }
}

enum Stage {
    Idle,
    Announce(MiuchizProcess),
    Scan,
    Publish(Vec<String>),
    Rest,
    GreetFlash(FlashRun),
    GreetDump(DumpRun),
    Flash(FlashRun),
    Dump(DumpRun),
    Conclude { writing: bool, result: Result<(), TransferError> },
    Stopped,
}

impl View for Stage {
    type V = WorkerView;

    closed spec fn view(&self) -> WorkerView {
        match self {
            Stage::Idle => WorkerView::Idle,
            Stage::Announce(process) => WorkerView::Announce(process@),
            Stage::Scan => WorkerView::Scan,
            Stage::Publish(paths) => WorkerView::Publish(paths.deep_view()),
            Stage::Rest => WorkerView::Rest,
            Stage::GreetFlash(run) => WorkerView::GreetFlash(run@),
            Stage::GreetDump(run) => WorkerView::GreetDump(run@),
            Stage::Flash(run) => WorkerView::Flash(run@),
            Stage::Dump(run) => WorkerView::Dump(run@),
            Stage::Conclude { writing, result } => WorkerView::Conclude {
                writing: *writing,
                result: *result,
            },
            Stage::Stopped => WorkerView::Stopped,
        }
    }
}

/// The transfer controller.
pub struct Worker {
    stage: Stage,
}

impl View for Worker {
    type V = WorkerView;

    closed spec fn view(&self) -> WorkerView {
        self.stage@
    }
}

impl Worker {
    #[verifier::type_invariant]
    spec fn inv(self) -> bool {
        self@.wf()
    }

    /// A worker at its start: idle.
    pub fn new() -> (worker: Worker)
        ensures
            worker@ == WorkerView::Idle,
    {
        Worker { stage: Stage::Idle }
    }

    /// Whether the worker has stopped for good.
    pub fn is_stopped(&self) -> (stopped: bool)
        ensures
            stopped == (self@ is Stopped),
    {
        match &self.stage {
            Stage::Stopped => true,
            _ => false,
        }
    }

    /// The action that the worker waits for.
    pub fn action(&self) -> (action: Action)
        ensures
            self@.wf(),
            action@ == self@.pending(),
            action matches Action::ReportProgress(done, total) ==> done <= total == PAGE_NUM,
    {
        proof {
            use_type_invariant(self);
        }
        match &self.stage {
            Stage::Idle => Action::PollCommand,
            Stage::Announce(process) => Action::ReportState(process.clone()),
            Stage::Scan => Action::Enumerate,
            Stage::Publish(paths) => {
                let copy: Vec<String> = paths.clone();
                assert(copy.deep_view() =~= paths.deep_view());
                Action::ReportHandhelds(copy)
            },
            Stage::Rest => Action::Pause(POLL_MILLIS),
            Stage::GreetFlash(run) => Action::ReportStatus(String::from_str("OK")),
            Stage::GreetDump(run) => Action::ReportStatus(String::from_str("OK")),
            Stage::Flash(run) => run.action(),
            Stage::Dump(run) => run.action(),
            Stage::Conclude { writing, result } => Action::ReportStatus(
                conclusion(*writing, result),
            ),
            Stage::Stopped => Action::Stop,
        }
    }

    /// Takes in the event that the host answered with, and moves on.
    pub fn advance(self, event: Event) -> (after: Worker)
        ensures
            after@ == self@.next(event@),
    {
        proof {
            use_type_invariant(&self);
        }
        match self.stage {
            Stage::Idle => match event {
                Event::Command(Some(process)) => Worker { stage: Stage::Announce(process) },
                Event::Command(None) => Worker {
                    stage: Stage::Announce(MiuchizProcess::WatchingForHandhelds),
                },
                _ => Worker { stage: Stage::Idle },
            },
            Stage::Announce(process) => match event {
                Event::Delivered(delivered) => if delivered {
                    match process {
                        MiuchizProcess::WatchingForHandhelds => Worker { stage: Stage::Scan },
                        MiuchizProcess::Flashing { file, device } => Worker {
                            stage: Stage::GreetFlash(FlashRun::new(file, device)),
                        },
                        MiuchizProcess::Reading { file, device } => Worker {
                            stage: Stage::GreetDump(DumpRun::new(file, device)),
                        },
                    }
                } else {
                    Worker { stage: Stage::Stopped }
                },
                _ => Worker { stage: Stage::Announce(process) },
            },
            Stage::Scan => match event {
                Event::Handhelds(set) => Worker { stage: Stage::Publish(set.get_handheld_paths()) },
                _ => Worker { stage: Stage::Scan },
            },
            Stage::Publish(paths) => match event {
                Event::Delivered(delivered) => if delivered {
                    Worker { stage: Stage::Rest }
                } else {
                    Worker { stage: Stage::Stopped }
                },
                _ => Worker { stage: Stage::Publish(paths) },
            },
            Stage::Rest => match event {
                Event::Resumed => Worker { stage: Stage::Idle },
                _ => Worker { stage: Stage::Rest },
            },
            Stage::GreetFlash(run) => match event {
                Event::Delivered(_) => Worker { stage: Stage::Flash(run) },
                _ => Worker { stage: Stage::GreetFlash(run) },
            },
            Stage::GreetDump(run) => match event {
                Event::Delivered(_) => Worker { stage: Stage::Dump(run) },
                _ => Worker { stage: Stage::GreetDump(run) },
            },
            Stage::Flash(run) => {
                proof {
                    crate::flash_run::lemma_flash_next_wf(run@, event@);
                }
                match run.advance(event) {
                    FlashStep::Continue(after) => Worker { stage: Stage::Flash(after) },
                    FlashStep::Finished(result) => Worker {
                        stage: Stage::Conclude { writing: true, result },
                    },
                }
            },
            Stage::Dump(run) => {
                proof {
                    crate::dump_run::lemma_dump_next_wf(run@, event@);
                }
                match run.advance(event) {
                    DumpStep::Continue(after) => Worker { stage: Stage::Dump(after) },
                    DumpStep::Finished(result) => Worker {
                        stage: Stage::Conclude { writing: false, result },
                    },
                }
            },
            Stage::Conclude { writing, result } => match event {
                Event::Delivered(_) => Worker { stage: Stage::Idle },
                _ => Worker { stage: Stage::Conclude { writing, result } },
            },
            Stage::Stopped => Worker { stage: Stage::Stopped },
        }
    }
}

/// A step of a well-formed worker leads to a well-formed worker.
pub proof fn lemma_next_wf(worker: WorkerView, event: EventView)
    requires
        worker.wf(),
    ensures
        worker.next(event).wf(),
{
    match worker {
        WorkerView::Flash(run) => crate::flash_run::lemma_flash_next_wf(run, event),
        WorkerView::Dump(run) => crate::dump_run::lemma_dump_next_wf(run, event),
        _ => {},
    }
}

/// Whatever events a worker is handed from its start, it stays well-formed.
pub proof fn lemma_run_wf(events: Seq<EventView>)
    ensures
        WorkerView::Idle.run(events).wf(),
    decreases events.len(),
{
    if events.len() > 0 {
        lemma_run_wf(events.drop_last());
        lemma_next_wf(WorkerView::Idle.run(events.drop_last()), events.last());
    }
}

/// Every progress that a worker ever reports lies between zero and the page
/// count, which is the total it reports: this holds after any events
/// whatever.
pub proof fn lemma_progress_bounded(events: Seq<EventView>)
    ensures
        WorkerView::Idle.run(events).pending() matches ActionView::ReportProgress(done, total)
            ==> done <= total == PAGE_NUM,
{
    lemma_run_wf(events);
    match WorkerView::Idle.run(events) {
        WorkerView::Flash(run) => crate::flash_run::lemma_flash_progress_bounded(run),
        WorkerView::Dump(run) => crate::dump_run::lemma_dump_progress_bounded(run),
        _ => {},
    }
}

/// Of the commands posted to the mailbox before the worker next looks into
/// it, only the last one ever starts: it is the operation that the worker
/// announces and, with the driver still there, begins. The earlier ones are
/// skipped, and nothing of an operation before them is carried over.
pub proof fn lemma_only_latest_command_starts(
    slot: Option<ProcessView>,
    commands: Seq<ProcessView>,
)
    requires
        commands.len() > 0,
    ensures
        ({
            let found = posted_all(slot, commands);
            let announcing = WorkerView::Idle.next(EventView::Command(found));
            &&& found == Some(commands.last())
            &&& announcing == WorkerView::Announce(commands.last())
            &&& announcing.pending() == ActionView::ReportState(commands.last())
            &&& announcing.next(EventView::Delivered(true)) == WorkerView::begun(commands.last())
        }),
{
}

/// With nothing in the mailbox the worker watches for handhelds.
pub proof fn lemma_no_command_watches()
    ensures
        WorkerView::Idle.next(EventView::Command(None)) == WorkerView::Announce(
            ProcessView::WatchingForHandhelds,
        ),
        WorkerView::begun(ProcessView::WatchingForHandhelds) == WorkerView::Scan,
{
}

/// A flashing asked for with an image of the wrong length goes from the
/// reset of the status line to the loading of the image and from there
/// straight to the word of its failure, and the worker is idle again: at no
/// moment does it wait for a page transfer.
pub proof fn lemma_wrong_size_fails_at_once(
    file: Seq<char>,
    device: Seq<char>,
    image: Seq<u8>,
    reset_delivered: bool,
    failure_delivered: bool,
)
    requires
        image.len() != FLASH_FILE_SIZE,
    ensures
        ({
            let greeting = WorkerView::begun(ProcessView::Flashing { file, device });
            let loading = greeting.next(EventView::Delivered(reset_delivered));
            let failed = loading.next(EventView::Source(Some(image)));
            let failure = TransferError::SizeMismatch {
                expected: FLASH_FILE_SIZE,
                actual: image.len() as usize,
            };
            &&& greeting.pending() == ActionView::ReportStatus("OK"@)
            &&& loading.pending() == ActionView::LoadSource(file)
            &&& failed == WorkerView::Conclude { writing: true, result: Err(failure) }
            &&& failed.pending() == ActionView::ReportStatus(failure.message_text())
            &&& failed.next(EventView::Delivered(failure_delivered)) == WorkerView::Idle
        }),
{
}

/// A transfer is one-shot: once it is over and the driver was told, the
/// worker is idle again, whether the transfer failed or not.
pub proof fn lemma_transfer_returns_to_idle(
    writing: bool,
    result: Result<(), TransferError>,
    delivered: bool,
)
    ensures
        (WorkerView::Conclude { writing, result }).next(EventView::Delivered(delivered))
            == WorkerView::Idle,
{
}

/// A worker that has stopped stays stopped.
pub proof fn lemma_stopped_for_good(event: EventView)
    ensures
        WorkerView::Stopped.next(event) == WorkerView::Stopped,
{
}

} // verus!
