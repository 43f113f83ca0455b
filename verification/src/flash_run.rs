//! The flashing procedure as the worker runs it, one outside action at a
//! time: load the image, find the handheld, write page after page, and make
//! the handheld disconnect.

use crate::error::TransferError;
use crate::flash::{
    is_slow, rewound, slow_notice, slow_notice_text, FlashJob, FlashJobView, WriteReport,
    SETTLE_MILLIS,
};
use crate::handheld::{handle_of, HandheldSet, PageRequest, PageRequestView, EJECT_PAGE};
use crate::image::{page_of, FLASH_FILE_SIZE, PAGE_NUM};
use crate::protocol::{Action, ActionView, Event, EventView};
use vstd::prelude::*;
use vstd::string::*;

verus! {

/// Where a flashing stands.
pub enum FlashStageView {
    /// The image is to be loaded.
    Load,
    /// The image is loaded and the handhelds are to be enumerated.
    Scan { job: FlashJobView },
    /// A page write is under way.
    Write { job: FlashJobView, names: Seq<Seq<u8>>, request: PageRequestView },
    /// The driver is to be told of a slow page write.
    Warn { job: FlashJobView, names: Seq<Seq<u8>>, report: WriteReport },
    /// The handheld is left to settle after a slow page write.
    Settle { job: FlashJobView, names: Seq<Seq<u8>> },
    /// The driver is to be told the progress.
    Progress { job: FlashJobView, names: Seq<Seq<u8>> },
    /// Every page is written and the handheld is made to disconnect.
    Eject { request: PageRequestView },
}

/// The state of a [`FlashRun`].
pub struct FlashRunView {
    pub file: Seq<char>,
    pub device: Seq<char>,
    pub stage: FlashStageView,
}

/// What a step of a flashing leads to.
pub enum FlashStepView {
    /// The flashing goes on.
    Continue(FlashRunView),
    /// The flashing is over, with this result.
    Finished(Result<(), TransferError>),
}

/// The request that writes the current page of a flashing to the handheld
/// with the given handle.
pub open spec fn write_request(job: FlashJobView, handle: usize) -> PageRequestView {
    PageRequestView::Write {
        handle,
        page: job.page as u32,
        data: page_of(job.image, job.page as int),
    }
}

impl FlashRunView {
    /// The same flashing at another stage.
    pub open spec fn at(self, stage: FlashStageView) -> FlashRunView {
        FlashRunView { stage, ..self }
    }

    /// The flashing holds a whole image, and a page write under way writes
    /// the current page of the image to the handheld that the identifier
    /// names.
    pub open spec fn wf(self) -> bool {
        match self.stage {
            FlashStageView::Load => true,
            FlashStageView::Scan { job } => job.wf(),
            FlashStageView::Write { job, names, request } => {
                &&& job.wf()
                &&& job.page < PAGE_NUM
                &&& handle_of(names, self.device) matches Some(handle)
                &&& request == write_request(job, handle)
            },
            FlashStageView::Warn { job, names, report } => job.wf(),
            FlashStageView::Settle { job, names } => job.wf(),
            FlashStageView::Progress { job, names } => job.wf(),
            FlashStageView::Eject { request } => true,
        }
    }

    /// The action that the flashing waits for.
    pub open spec fn pending(self) -> ActionView {
        match self.stage {
            FlashStageView::Load => ActionView::LoadSource(self.file),
            FlashStageView::Scan { job } => ActionView::Enumerate,
            FlashStageView::Write { job, names, request } => ActionView::Transfer(request),
            FlashStageView::Warn { job, names, report } => ActionView::ReportStatus(
                slow_notice_text(report.page, report.next),
            ),
            FlashStageView::Settle { job, names } => ActionView::Pause(SETTLE_MILLIS),
            FlashStageView::Progress { job, names } => ActionView::ReportProgress(
                job.page as u32,
                PAGE_NUM as u32,
            ),
            FlashStageView::Eject { request } => ActionView::Transfer(request),
        }
    }

    /// Where a flashing goes once the handhelds are known and the job
    /// stands where it stands: to the write of the current page, or, with no
    /// page left, to the disconnect. The handheld is looked up each time; a
    /// page cannot be written to a handheld that is absent, while an absent
    /// handheld at the end just cannot be told to disconnect.
    pub open spec fn proceed(
        file: Seq<char>,
        device: Seq<char>,
        job: FlashJobView,
        names: Seq<Seq<u8>>,
    ) -> FlashStepView {
        match handle_of(names, device) {
            Some(handle) => if job.page < PAGE_NUM {
                FlashStepView::Continue(
                    FlashRunView {
                        file,
                        device,
                        stage: FlashStageView::Write {
                            job,
                            names,
                            request: write_request(job, handle),
                        },
                    },
                )
            } else {
                FlashStepView::Continue(
                    FlashRunView {
                        file,
                        device,
                        stage: FlashStageView::Eject {
                            request: PageRequestView::Read { handle, page: EJECT_PAGE },
                        },
                    },
                )
            },
            None => if job.page < PAGE_NUM {
                FlashStepView::Finished(Err(TransferError::DeviceNotFound))
            } else {
                FlashStepView::Finished(Ok(()))
            },
        }
    }

    /// Where the flashing goes on an event. An event that does not answer
    /// the pending action changes nothing.
    pub open spec fn next(self, event: EventView) -> FlashStepView {
        match (self.stage, event) {
            (FlashStageView::Load, EventView::Source(None)) => FlashStepView::Finished(
                Err(TransferError::UnreadableSource),
            ),
            (FlashStageView::Load, EventView::Source(Some(image))) => if image.len()
                == FLASH_FILE_SIZE {
                FlashStepView::Continue(
                    self.at(FlashStageView::Scan { job: FlashJobView { image, page: 0 } }),
                )
            } else {
                FlashStepView::Finished(
                    Err(
                        TransferError::SizeMismatch {
                            expected: FLASH_FILE_SIZE,
                            actual: image.len() as usize,
                        },
                    ),
                )
            },
            (FlashStageView::Scan { job }, EventView::Handhelds(names)) => Self::proceed(
                self.file,
                self.device,
                job,
                names,
            ),
            (
                FlashStageView::Write { job, names, request },
                EventView::PageWritten { code, elapsed_nanos },
            ) => if code < 0 {
                FlashStepView::Finished(
                    Err(TransferError::PageWriteFailed { index: job.page as u32 }),
                )
            } else if is_slow(elapsed_nanos) {
                FlashStepView::Continue(
                    self.at(
                        FlashStageView::Warn {
                            job: job.stepped(elapsed_nanos),
                            names,
                            report: WriteReport {
                                page: job.page as u32,
                                slow: true,
                                next: job.stepped(elapsed_nanos).page as u32,
                            },
                        },
                    ),
                )
            } else {
                FlashStepView::Continue(
                    self.at(FlashStageView::Progress { job: job.stepped(elapsed_nanos), names }),
                )
            },
            (FlashStageView::Warn { job, names, report }, EventView::Delivered(_)) => {
                FlashStepView::Continue(self.at(FlashStageView::Settle { job, names }))
            },
            (FlashStageView::Settle { job, names }, EventView::Resumed) => FlashStepView::Continue(
                self.at(FlashStageView::Progress { job, names }),
            ),
            (FlashStageView::Progress { job, names }, EventView::Delivered(_)) => Self::proceed(
                self.file,
                self.device,
                job,
                names,
            ),
            (FlashStageView::Eject { request }, EventView::PageRead { code, data }) => {
                FlashStepView::Finished(Ok(()))
            },
            _ => FlashStepView::Continue(self),
        }
    }
}

enum FlashStage {
    Load,
    Scan { job: FlashJob },
    Write { job: FlashJob, set: HandheldSet, request: PageRequest },
    Warn { job: FlashJob, set: HandheldSet, report: WriteReport },
    Settle { job: FlashJob, set: HandheldSet },
    Progress { job: FlashJob, set: HandheldSet },
    Eject { request: PageRequest },
}

impl View for FlashStage {
    type V = FlashStageView;

    closed spec fn view(&self) -> FlashStageView {
        match self {
            FlashStage::Load => FlashStageView::Load,
            FlashStage::Scan { job } => FlashStageView::Scan { job: job@ },
            FlashStage::Write { job, set, request } => FlashStageView::Write {
                job: job@,
                names: set@,
                request: request@,
            },
            FlashStage::Warn { job, set, report } => FlashStageView::Warn {
                job: job@,
                names: set@,
                report: *report,
            },
            FlashStage::Settle { job, set } => FlashStageView::Settle { job: job@, names: set@ },
            FlashStage::Progress { job, set } => FlashStageView::Progress {
                job: job@,
                names: set@,
            },
            FlashStage::Eject { request } => FlashStageView::Eject { request: request@ },
        }
    }
}

/// A flashing that the worker runs: the image in `file` is written to the
/// handheld `device`.
pub struct FlashRun {
    file: String,
    device: String,
    stage: FlashStage,
}

impl View for FlashRun {
    type V = FlashRunView;

    closed spec fn view(&self) -> FlashRunView {
        FlashRunView { file: self.file@, device: self.device@, stage: self.stage@ }
    }
}

/// What a step of a [`FlashRun`] leads to.
pub enum FlashStep {
    /// The flashing goes on.
    Continue(FlashRun),
    /// The flashing is over, with this result.
    Finished(Result<(), TransferError>),
}

impl View for FlashStep {
    type V = FlashStepView;

    open spec fn view(&self) -> FlashStepView {
        match self {
            FlashStep::Continue(run) => FlashStepView::Continue(run@),
            FlashStep::Finished(result) => FlashStepView::Finished(*result),
        }
    }
}

impl FlashRun {
    #[verifier::type_invariant]
    spec fn inv(self) -> bool {
        self@.wf()
    }

    /// A flashing that has not begun.
    pub fn new(file: String, device: String) -> (run: FlashRun)
        ensures
            run@ == (FlashRunView { file: file@, device: device@, stage: FlashStageView::Load }),
    {
        FlashRun { file, device, stage: FlashStage::Load }
    }

    /// The action that the flashing waits for.
    pub fn action(&self) -> (action: Action)
        ensures
            self@.wf(),
            action@ == self@.pending(),
            action matches Action::ReportProgress(done, total) ==> done <= total == PAGE_NUM,
    {
        proof {
            use_type_invariant(self);
        }
        match &self.stage {
            FlashStage::Load => Action::LoadSource(self.file.clone()),
            FlashStage::Scan { job } => Action::Enumerate,
            FlashStage::Write { job, set, request } => Action::Transfer(request.clone()),
            FlashStage::Warn { job, set, report } => Action::ReportStatus(
                slow_notice(report.page, report.next),
            ),
            FlashStage::Settle { job, set } => Action::Pause(SETTLE_MILLIS),
            FlashStage::Progress { job, set } => {
                let progress: (u32, u32) = job.progress();
                Action::ReportProgress(progress.0, progress.1)
            },
            FlashStage::Eject { request } => Action::Transfer(request.clone()),
        }
    }

    fn proceed(file: String, device: String, job: FlashJob, set: HandheldSet) -> (step: FlashStep)
        ensures
            step@ == FlashRunView::proceed(file@, device@, job@, set@),
    {
        match job.next_write() {
            Some((page, data)) => match set.write_page(device.as_str(), page, &data) {
                Ok(request) => FlashStep::Continue(
                    FlashRun { file, device, stage: FlashStage::Write { job, set, request } },
                ),
                Err(absent) => FlashStep::Finished(Err(absent)),
            },
            None => match set.eject(device.as_str()) {
                Some(request) => FlashStep::Continue(
                    FlashRun { file, device, stage: FlashStage::Eject { request } },
                ),
                None => FlashStep::Finished(Ok(())),
            },
        }
    }

    /// Takes in the event that the host answered with.
    pub fn advance(self, event: Event) -> (step: FlashStep)
        ensures
            step@ == self@.next(event@),
    {
        proof {
            use_type_invariant(&self);
        }
        let FlashRun { file, device, stage } = self;
        match stage {
            FlashStage::Load => match event {
                Event::Source(Some(image)) => match FlashJob::new(image) {
                    Ok(job) => FlashStep::Continue(
                        FlashRun { file, device, stage: FlashStage::Scan { job } },
                    ),
                    Err(refused) => FlashStep::Finished(Err(refused)),
                },
                Event::Source(None) => FlashStep::Finished(Err(TransferError::UnreadableSource)),
                _ => FlashStep::Continue(FlashRun { file, device, stage: FlashStage::Load }),
            },
            FlashStage::Scan { job } => match event {
                Event::Handhelds(set) => Self::proceed(file, device, job, set),
                _ => FlashStep::Continue(FlashRun { file, device, stage: FlashStage::Scan { job } }),
            },
            FlashStage::Write { job, set, request } => match event {
                Event::PageWritten { code, elapsed_nanos } => {
                    let mut job = job;
                    match job.record(code, elapsed_nanos) {
                        Err(failed) => FlashStep::Finished(Err(failed)),
                        Ok(report) => if report.slow {
                            FlashStep::Continue(
                                FlashRun {
                                    file,
                                    device,
                                    stage: FlashStage::Warn { job, set, report },
                                },
                            )
                        } else {
                            FlashStep::Continue(
                                FlashRun { file, device, stage: FlashStage::Progress { job, set } },
                            )
                        },
                    }
                },
                _ => FlashStep::Continue(
                    FlashRun { file, device, stage: FlashStage::Write { job, set, request } },
                ),
            },
            FlashStage::Warn { job, set, report } => match event {
                Event::Delivered(_) => FlashStep::Continue(
                    FlashRun { file, device, stage: FlashStage::Settle { job, set } },
                ),
                _ => FlashStep::Continue(
                    FlashRun { file, device, stage: FlashStage::Warn { job, set, report } },
                ),
            },
            FlashStage::Settle { job, set } => match event {
                Event::Resumed => FlashStep::Continue(
                    FlashRun { file, device, stage: FlashStage::Progress { job, set } },
                ),
                _ => FlashStep::Continue(
                    FlashRun { file, device, stage: FlashStage::Settle { job, set } },
                ),
            },
            FlashStage::Progress { job, set } => match event {
                Event::Delivered(_) => Self::proceed(file, device, job, set),
                _ => FlashStep::Continue(
                    FlashRun { file, device, stage: FlashStage::Progress { job, set } },
                ),
            },
            FlashStage::Eject { request } => match event {
                Event::PageRead { code, data } => FlashStep::Finished(Ok(())),
                _ => FlashStep::Continue(
                    FlashRun { file, device, stage: FlashStage::Eject { request } },
                ),
            },
        }
    }
}

/// What a flashing has come to after some events, and what it has done to
/// the handheld by then.
pub struct FlashTrace {
    /// Where the flashing stands, or how it ended.
    pub step: FlashStepView,
    /// The contents of the handheld's pages.
    pub memory: Seq<Seq<u8>>,
    /// The pages written, in the order of the writes.
    pub written: Seq<u32>,
}

impl FlashRunView {
    /// The page write that the event reports as carried out, if it reports
    /// one: the page and the bytes written to it.
    pub open spec fn completed_write(self, event: EventView) -> Option<(u32, Seq<u8>)> {
        match (self.stage, event) {
            (
                FlashStageView::Write {
                    job,
                    names,
                    request: PageRequestView::Write { handle, page, data },
                },
                EventView::PageWritten { code, elapsed_nanos },
            ) => if code >= 0 {
                Some((page, data))
            } else {
                None
            },
            _ => None,
        }
    }

    /// The flashing after the events, taken in one after the other, with
    /// what the page writes among them did to a handheld whose pages held
    /// `memory` before. Events after the end of the flashing count for
    /// nothing.
    pub open spec fn trace(self, memory: Seq<Seq<u8>>, events: Seq<EventView>) -> FlashTrace
        decreases events.len(),
    {
        if events.len() == 0 {
            FlashTrace { step: FlashStepView::Continue(self), memory, written: Seq::empty() }
        } else {
            let before = self.trace(memory, events.drop_last());
            match before.step {
                FlashStepView::Continue(run) => match run.completed_write(events.last()) {
                    Some((page, data)) => FlashTrace {
                        step: run.next(events.last()),
                        memory: before.memory.update(page as int, data),
                        written: before.written.push(page),
                    },
                    None => FlashTrace { step: run.next(events.last()), ..before },
                },
                FlashStepView::Finished(result) => before,
            }
        }
    }
}

/// Every page below `page` holds its page of the image and was written.
pub open spec fn flashed_below(trace: FlashTrace, image: Seq<u8>, page: nat) -> bool {
    &&& forall|i: int| 0 <= i < page ==> #[trigger] trace.memory[i] == page_of(image, i)
    &&& forall|i: u32| i < page ==> #[trigger] trace.written.contains(i)
}

/// What holds of a flashing of `image` at every moment after the image was
/// loaded: the pages below the one to write next hold the image.
pub open spec fn flash_inv(trace: FlashTrace, image: Seq<u8>, pages: nat) -> bool {
    &&& trace.memory.len() == pages
    &&& match trace.step {
        FlashStepView::Continue(run) => run.wf() && match run.stage {
            FlashStageView::Load => false,
            FlashStageView::Scan { job } => job.image == image && job.page == 0,
            FlashStageView::Write { job, names, request } => job.image == image && flashed_below(
                trace,
                image,
                job.page,
            ),
            FlashStageView::Warn { job, names, report } => job.image == image && flashed_below(
                trace,
                image,
                job.page,
            ),
            FlashStageView::Settle { job, names } => job.image == image && flashed_below(
                trace,
                image,
                job.page,
            ),
            FlashStageView::Progress { job, names } => job.image == image && flashed_below(
                trace,
                image,
                job.page,
            ),
            FlashStageView::Eject { request } => image.len() == FLASH_FILE_SIZE && flashed_below(
                trace,
                image,
                PAGE_NUM as nat,
            ),
        },
        FlashStepView::Finished(Ok(_)) => image.len() == FLASH_FILE_SIZE && flashed_below(
            trace,
            image,
            PAGE_NUM as nat,
        ),
        FlashStepView::Finished(Err(_)) => true,
    }
}

proof fn lemma_flash_inv_step(
    before: FlashTrace,
    run: FlashRunView,
    event: EventView,
    image: Seq<u8>,
    pages: nat,
)
    requires
        before.step == FlashStepView::Continue(run),
        flash_inv(before, image, pages),
        pages >= PAGE_NUM,
    ensures
        flash_inv(
            match run.completed_write(event) {
                Some((page, data)) => FlashTrace {
                    step: run.next(event),
                    memory: before.memory.update(page as int, data),
                    written: before.written.push(page),
                },
                None => FlashTrace { step: run.next(event), ..before },
            },
            image,
            pages,
        ),
{
    match run.completed_write(event) {
        Some((page, data)) => {
            let after = FlashTrace {
                step: run.next(event),
                memory: before.memory.update(page as int, data),
                written: before.written.push(page),
            };
            assert(after.written.last() == page);
            assert forall|i: u32| before.written.contains(i) implies after.written.contains(
                i,
            ) by {
                let k = choose|k: int| 0 <= k < before.written.len() && before.written[k] == i;
                assert(after.written[k] == i);
            }
        },
        None => {},
    }
}

/// A flashing that ends well has written the whole image: once the image
/// is loaded, whatever the events that follow and however often a slow page
/// made the flashing step back, a flashing that finishes without failure
/// has written every page of the handheld at least once, and each page then
/// holds the page of the image with its index.
///
/// `memory` holds the handheld's pages before the flashing; `events` are
/// all the events of the flashing, from the loading of `image` on.
pub proof fn lemma_flash_writes_image(
    run: FlashRunView,
    image: Seq<u8>,
    memory: Seq<Seq<u8>>,
    events: Seq<EventView>,
)
    requires
        run.stage is Load,
        memory.len() >= PAGE_NUM,
        events.len() > 0,
        events[0] == EventView::Source(Some(image)),
    ensures
        flash_inv(run.trace(memory, events), image, memory.len()),
        run.trace(memory, events).step == FlashStepView::Finished(Ok(())) ==> image.len()
            == FLASH_FILE_SIZE && flashed_below(run.trace(memory, events), image, PAGE_NUM as nat),
    decreases events.len(),
{
    let earlier = events.drop_last();
    let before = run.trace(memory, earlier);
    if earlier.len() == 0 {
        assert(events.last() == events[0]);
    } else {
        assert(earlier[0] == events[0]);
        lemma_flash_writes_image(run, image, memory, earlier);
        match before.step {
            FlashStepView::Continue(at) => {
                lemma_flash_inv_step(before, at, events.last(), image, memory.len());
            },
            FlashStepView::Finished(result) => {},
        }
    }
}

/// After a slow page write the flashing tells the driver, lets the
/// handheld settle, reports the page it steps back to as its progress, and
/// writes that page next: the page before the slow one, or the first page
/// again.
pub proof fn lemma_slow_write_steps_back(
    run: FlashRunView,
    code: i32,
    elapsed_nanos: u128,
    notice_delivered: bool,
    progress_delivered: bool,
)
    requires
        run.wf(),
        run.stage is Write,
        code >= 0,
        is_slow(elapsed_nanos),
    ensures
        ({
            let job = run.stage->Write_job;
            let resume = FlashJobView { image: job.image, page: rewound(job.page) };
            let handle = handle_of(run.stage->Write_names, run.device)->Some_0;
            &&& run.pending() == ActionView::Transfer(write_request(job, handle))
            &&& run.next(EventView::PageWritten { code, elapsed_nanos }) matches FlashStepView::Continue(
                warned,
            )
            &&& warned.pending() == ActionView::ReportStatus(
                slow_notice_text(job.page as u32, resume.page as u32),
            )
            &&& warned.next(EventView::Delivered(notice_delivered)) matches FlashStepView::Continue(
                settling,
            )
            &&& settling.pending() == ActionView::Pause(SETTLE_MILLIS)
            &&& settling.next(EventView::Resumed) matches FlashStepView::Continue(reporting)
            &&& reporting.pending() == ActionView::ReportProgress(
                resume.page as u32,
                PAGE_NUM as u32,
            )
            &&& reporting.next(
                EventView::Delivered(progress_delivered),
            ) matches FlashStepView::Continue(retrying)
            &&& retrying.pending() == ActionView::Transfer(write_request(resume, handle))
        }),
{
}

/// After a page write that was not slow the flashing reports the following
/// page as its progress and, if there is such a page, writes it next.
pub proof fn lemma_fast_write_moves_on(
    run: FlashRunView,
    code: i32,
    elapsed_nanos: u128,
    progress_delivered: bool,
)
    requires
        run.wf(),
        run.stage is Write,
        code >= 0,
        !is_slow(elapsed_nanos),
    ensures
        ({
            let job = run.stage->Write_job;
            let following = FlashJobView { image: job.image, page: job.page + 1 };
            let handle = handle_of(run.stage->Write_names, run.device)->Some_0;
            &&& run.next(EventView::PageWritten { code, elapsed_nanos }) matches FlashStepView::Continue(
                reporting,
            )
            &&& reporting.pending() == ActionView::ReportProgress(
                following.page as u32,
                PAGE_NUM as u32,
            )
            &&& reporting.next(
                EventView::Delivered(progress_delivered),
            ) matches FlashStepView::Continue(after)
            &&& following.page < PAGE_NUM ==> after.pending() == ActionView::Transfer(
                write_request(following, handle),
            )
            &&& following.page == PAGE_NUM ==> after.pending() == ActionView::Transfer(
                PageRequestView::Read { handle, page: EJECT_PAGE },
            )
        }),
{
}

/// A step of a well-formed flashing leads to a well-formed flashing.
pub proof fn lemma_flash_next_wf(run: FlashRunView, event: EventView)
    requires
        run.wf(),
    ensures
        run.next(event) matches FlashStepView::Continue(after) ==> after.wf(),
{
}

/// An image of the wrong length ends the flashing with a size mismatch
/// before any page write: whatever events follow the loading of such an
/// image, the flashing has failed, nothing was written and the handheld is
/// as it was.
pub proof fn lemma_wrong_size_writes_nothing(
    run: FlashRunView,
    image: Seq<u8>,
    memory: Seq<Seq<u8>>,
    events: Seq<EventView>,
)
    requires
        run.stage is Load,
        image.len() != FLASH_FILE_SIZE,
        events.len() > 0,
        events[0] == EventView::Source(Some(image)),
    ensures
        run.pending() == ActionView::LoadSource(run.file),
        run.trace(memory, events) == (FlashTrace {
            step: FlashStepView::Finished(
                Err(
                    TransferError::SizeMismatch {
                        expected: FLASH_FILE_SIZE,
                        actual: image.len() as usize,
                    },
                ),
            ),
            memory,
            written: Seq::empty(),
        }),
    decreases events.len(),
{
    let earlier = events.drop_last();
    if earlier.len() == 0 {
        assert(events.last() == events[0]);
    } else {
        assert(earlier[0] == events[0]);
        lemma_wrong_size_writes_nothing(run, image, memory, earlier);
    }
}

/// A flashing cannot write to a handheld that the enumeration does not
/// list: with a page left to write it ends, the device not found.
pub proof fn lemma_flash_absent_handheld(
    file: Seq<char>,
    device: Seq<char>,
    job: FlashJobView,
    names: Seq<Seq<u8>>,
)
    requires
        handle_of(names, device) is None,
        job.page < PAGE_NUM,
    ensures
        FlashRunView::proceed(file, device, job, names) == FlashStepView::Finished(
            Err(TransferError::DeviceNotFound),
        ),
{
}

/// Whatever a well-formed flashing reports as progress lies between zero
/// and the page count, which is the total it reports.
pub proof fn lemma_flash_progress_bounded(run: FlashRunView)
    requires
        run.wf(),
    ensures
        run.pending() matches ActionView::ReportProgress(done, total) ==> done <= total
            == PAGE_NUM,
{
}

} // verus!
