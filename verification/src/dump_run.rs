//! The dumping procedure as the worker runs it, one outside action at a
//! time: find the handheld, read page after page, and store the image.

use crate::dump::{dump_wf, lemma_dump_holds_pages, DumpJob};
use crate::error::TransferError;
use crate::handheld::{handle_of, page_delivered, HandheldSet, PageRequest, PageRequestView};
use crate::flash_run::{lemma_flash_writes_image, FlashRunView, FlashStepView};
use crate::image::{joined, lemma_image_rejoin, page_of, pages_of, FLASH_FILE_SIZE, PAGE_NUM};
use crate::protocol::{Action, ActionView, Event, EventView};
use vstd::prelude::*;
use vstd::string::*;

verus! {

/// Where a dumping stands.
pub enum DumpStageView {
    /// The handhelds are to be enumerated.
    Scan,
    /// A page read is under way; `pages` are the pages read before it.
    Read { pages: Seq<Seq<u8>>, names: Seq<Seq<u8>>, request: PageRequestView },
    /// The driver is to be told the progress.
    Progress { pages: Seq<Seq<u8>>, names: Seq<Seq<u8>> },
    /// Every page is read and the image is to be stored.
    Store { image: Seq<u8> },
}

/// The state of a [`DumpRun`].
pub struct DumpRunView {
    pub file: Seq<char>,
    pub device: Seq<char>,
    pub stage: DumpStageView,
}

/// What a step of a dumping leads to.
pub enum DumpStepView {
    /// The dumping goes on.
    Continue(DumpRunView),
    /// The dumping is over, with this result.
    Finished(Result<(), TransferError>),
}

/// The request that reads the page after `pages` from the handheld with the
/// given handle.
pub open spec fn read_request(pages: Seq<Seq<u8>>, handle: usize) -> PageRequestView {
    PageRequestView::Read { handle, page: pages.len() as u32 }
}

impl DumpRunView {
    /// The same dumping at another stage.
    pub open spec fn at(self, stage: DumpStageView) -> DumpRunView {
        DumpRunView { stage, ..self }
    }

    /// The pages read are whole pages, and a page read under way reads the
    /// page after them from the handheld that the identifier names.
    pub open spec fn wf(self) -> bool {
        match self.stage {
            DumpStageView::Scan => true,
            DumpStageView::Read { pages, names, request } => {
                &&& dump_wf(pages)
                &&& pages.len() < PAGE_NUM
                &&& handle_of(names, self.device) matches Some(handle)
                &&& request == read_request(pages, handle)
            },
            DumpStageView::Progress { pages, names } => dump_wf(pages),
            DumpStageView::Store { image } => true,
        }
    }

    /// The action that the dumping waits for.
    pub open spec fn pending(self) -> ActionView {
        match self.stage {
            DumpStageView::Scan => ActionView::Enumerate,
            DumpStageView::Read { pages, names, request } => ActionView::Transfer(request),
            DumpStageView::Progress { pages, names } => ActionView::ReportProgress(
                pages.len() as u32,
                PAGE_NUM as u32,
            ),
            DumpStageView::Store { image } => ActionView::StoreSink(self.file, image),
        }
    }

    /// Where a dumping goes once the handhelds are known and `pages` are
    /// read: to the read of the next page, or, with no page left, to storing
    /// the image assembled from them. The handheld is looked up each time; a
    /// page cannot be read from a handheld that is absent.
    pub open spec fn proceed(
        file: Seq<char>,
        device: Seq<char>,
        pages: Seq<Seq<u8>>,
        names: Seq<Seq<u8>>,
    ) -> DumpStepView {
        if pages.len() < PAGE_NUM {
            match handle_of(names, device) {
                Some(handle) => DumpStepView::Continue(
                    DumpRunView {
                        file,
                        device,
                        stage: DumpStageView::Read {
                            pages,
                            names,
                            request: read_request(pages, handle),
                        },
                    },
                ),
                None => DumpStepView::Finished(Err(TransferError::DeviceNotFound)),
            }
        } else {
            DumpStepView::Continue(
                DumpRunView { file, device, stage: DumpStageView::Store { image: joined(pages) } },
            )
        }
    }

    /// Where the dumping goes on an event. An event that does not answer
    /// the pending action changes nothing.
    pub open spec fn next(self, event: EventView) -> DumpStepView {
        match (self.stage, event) {
            (DumpStageView::Scan, EventView::Handhelds(names)) => Self::proceed(
                self.file,
                self.device,
                Seq::empty(),
                names,
            ),
            (
                DumpStageView::Read { pages, names, request },
                EventView::PageRead { code, data },
            ) => if page_delivered(code, data) {
                DumpStepView::Continue(
                    self.at(DumpStageView::Progress { pages: pages.push(data), names }),
                )
            } else {
                DumpStepView::Finished(
                    Err(TransferError::PageReadFailed { index: pages.len() as u32 }),
                )
            },
            (DumpStageView::Progress { pages, names }, EventView::Delivered(_)) => Self::proceed(
                self.file,
                self.device,
                pages,
                names,
            ),
            (DumpStageView::Store { image }, EventView::Stored(stored)) => if stored {
                DumpStepView::Finished(Ok(()))
            } else {
                DumpStepView::Finished(Err(TransferError::UnwritableSink))
            },
            _ => DumpStepView::Continue(self),
        }
    }
}

enum DumpStage {
    Scan,
    Read { job: DumpJob, set: HandheldSet, request: PageRequest },
    Progress { job: DumpJob, set: HandheldSet },
    Store { image: Vec<u8> },
}

impl View for DumpStage {
    type V = DumpStageView;

    closed spec fn view(&self) -> DumpStageView {
        match self {
            DumpStage::Scan => DumpStageView::Scan,
            DumpStage::Read { job, set, request } => DumpStageView::Read {
                pages: job@,
                names: set@,
                request: request@,
            },
            DumpStage::Progress { job, set } => DumpStageView::Progress {
                pages: job@,
                names: set@,
            },
            DumpStage::Store { image } => DumpStageView::Store { image: image@ },
        }
    }
}

/// A dumping that the worker runs: the handheld `device` is read into a new
/// image stored in `file`.
pub struct DumpRun {
    file: String,
    device: String,
    stage: DumpStage,
}

impl View for DumpRun {
    type V = DumpRunView;

    closed spec fn view(&self) -> DumpRunView {
        DumpRunView { file: self.file@, device: self.device@, stage: self.stage@ }
    }
}

/// What a step of a [`DumpRun`] leads to.
pub enum DumpStep {
    /// The dumping goes on.
    Continue(DumpRun),
    /// The dumping is over, with this result.
    Finished(Result<(), TransferError>),
}

impl View for DumpStep {
    type V = DumpStepView;

    open spec fn view(&self) -> DumpStepView {
        match self {
            DumpStep::Continue(run) => DumpStepView::Continue(run@),
            DumpStep::Finished(result) => DumpStepView::Finished(*result),
        }
    }
}

impl DumpRun {
    #[verifier::type_invariant]
    spec fn inv(self) -> bool {
        self@.wf()
    }

    /// A dumping that has not begun.
    pub fn new(file: String, device: String) -> (run: DumpRun)
        ensures
            run@ == (DumpRunView { file: file@, device: device@, stage: DumpStageView::Scan }),
    {
        DumpRun { file, device, stage: DumpStage::Scan }
    }

    /// The action that the dumping waits for.
    pub fn action(&self) -> (action: Action)
        ensures
            self@.wf(),
            action@ == self@.pending(),
            action matches Action::ReportProgress(done, total) ==> done <= total == PAGE_NUM,
    {
        proof {
            use_type_invariant(self);
        }
        match &self.stage {
            DumpStage::Scan => Action::Enumerate,
            DumpStage::Read { job, set, request } => Action::Transfer(request.clone()),
            DumpStage::Progress { job, set } => {
                let progress: (u32, u32) = job.progress();
                Action::ReportProgress(progress.0, progress.1)
            },
            DumpStage::Store { image } => Action::StoreSink(self.file.clone(), image.clone()),
        }
    }

    fn proceed(file: String, device: String, job: DumpJob, set: HandheldSet) -> (step: DumpStep)
        ensures
            step@ == DumpRunView::proceed(file@, device@, job@, set@),
    {
        match job.next_read() {
            Some(page) => match set.read_page(device.as_str(), page) {
                Ok(request) => DumpStep::Continue(
                    DumpRun { file, device, stage: DumpStage::Read { job, set, request } },
                ),
                Err(absent) => DumpStep::Finished(Err(absent)),
            },
            None => DumpStep::Continue(
                DumpRun { file, device, stage: DumpStage::Store { image: job.into_image() } },
            ),
        }
    }

    /// Takes in the event that the host answered with.
    pub fn advance(self, event: Event) -> (step: DumpStep)
        ensures
            step@ == self@.next(event@),
    {
        proof {
            use_type_invariant(&self);
        }
        let DumpRun { file, device, stage } = self;
        match stage {
            DumpStage::Scan => match event {
                Event::Handhelds(set) => Self::proceed(file, device, DumpJob::new(), set),
                _ => DumpStep::Continue(DumpRun { file, device, stage: DumpStage::Scan }),
            },
            DumpStage::Read { job, set, request } => match event {
                Event::PageRead { code, data } => {
                    let mut job = job;
                    match job.record(code, data) {
                        Err(failed) => DumpStep::Finished(Err(failed)),
                        Ok(_) => DumpStep::Continue(
                            DumpRun { file, device, stage: DumpStage::Progress { job, set } },
                        ),
                    }
                },
                _ => DumpStep::Continue(
                    DumpRun { file, device, stage: DumpStage::Read { job, set, request } },
                ),
            },
            DumpStage::Progress { job, set } => match event {
                Event::Delivered(_) => Self::proceed(file, device, job, set),
                _ => DumpStep::Continue(
                    DumpRun { file, device, stage: DumpStage::Progress { job, set } },
                ),
            },
            DumpStage::Store { image } => match event {
                Event::Stored(stored) => if stored {
                    DumpStep::Finished(Ok(()))
                } else {
                    DumpStep::Finished(Err(TransferError::UnwritableSink))
                },
                _ => DumpStep::Continue(DumpRun { file, device, stage: DumpStage::Store { image } }),
            },
        }
    }
}

/// What a dumping has come to after some events, and what it has read and
/// stored by then.
pub struct DumpTrace {
    /// Where the dumping stands, or how it ended.
    pub step: DumpStepView,
    /// What each page read delivered, in the order of the reads.
    pub reads: Seq<Seq<u8>>,
    /// The image that was stored, once one was.
    pub stored: Option<Seq<u8>>,
}

impl DumpRunView {
    /// The page that the event reports as read, if it reports one.
    pub open spec fn delivered_page(self, event: EventView) -> Option<Seq<u8>> {
        match (self.stage, event) {
            (
                DumpStageView::Read { pages, names, request },
                EventView::PageRead { code, data },
            ) => if page_delivered(code, data) {
                Some(data)
            } else {
                None
            },
            _ => None,
        }
    }

    /// The image that the event reports as stored, if it reports one.
    pub open spec fn stored_image(self, event: EventView) -> Option<Seq<u8>> {
        match (self.stage, event) {
            (DumpStageView::Store { image }, EventView::Stored(stored)) => if stored {
                Some(image)
            } else {
                None
            },
            _ => None,
        }
    }

    /// Whether the event, where it answers a page read, delivers what the
    /// handheld holds in that page: `memory` are the handheld's pages.
    pub open spec fn echoed(self, event: EventView, memory: Seq<Seq<u8>>) -> bool {
        match (self.stage, event) {
            (
                DumpStageView::Read {
                    pages,
                    names,
                    request: PageRequestView::Read { handle, page },
                },
                EventView::PageRead { code, data },
            ) => code >= 0 && data == memory[page as int],
            _ => true,
        }
    }

    /// The dumping after the events, taken in one after the other, with
    /// what the page reads among them delivered. Events after the end of the
    /// dumping count for nothing.
    pub open spec fn trace(self, events: Seq<EventView>) -> DumpTrace
        decreases events.len(),
    {
        if events.len() == 0 {
            DumpTrace { step: DumpStepView::Continue(self), reads: Seq::empty(), stored: None }
        } else {
            let before = self.trace(events.drop_last());
            match before.step {
                DumpStepView::Continue(run) => DumpTrace {
                    step: run.next(events.last()),
                    reads: match run.delivered_page(events.last()) {
                        Some(data) => before.reads.push(data),
                        None => before.reads,
                    },
                    stored: match run.stored_image(events.last()) {
                        Some(image) => Some(image),
                        None => before.stored,
                    },
                },
                DumpStepView::Finished(result) => before,
            }
        }
    }

    /// Whether every page read among the events delivered what the handheld
    /// holds in that page.
    pub open spec fn echoing(self, events: Seq<EventView>, memory: Seq<Seq<u8>>) -> bool
        decreases events.len(),
    {
        if events.len() == 0 {
            true
        } else {
            &&& self.echoing(events.drop_last(), memory)
            &&& match self.trace(events.drop_last()).step {
                DumpStepView::Continue(run) => run.echoed(events.last(), memory),
                DumpStepView::Finished(result) => true,
            }
        }
    }
}

/// What holds of a dumping at every moment: the pages it holds are what
/// the reads delivered, and the image it stores is those pages laid end to
/// end.
pub open spec fn dump_inv(trace: DumpTrace) -> bool {
    match trace.step {
        DumpStepView::Continue(run) => run.wf() && trace.stored is None && match run.stage {
            DumpStageView::Scan => trace.reads.len() == 0,
            DumpStageView::Read { pages, names, request } => pages == trace.reads,
            DumpStageView::Progress { pages, names } => pages == trace.reads,
            DumpStageView::Store { image } => {
                &&& dump_wf(trace.reads)
                &&& trace.reads.len() == PAGE_NUM
                &&& image == joined(trace.reads)
            },
        },
        DumpStepView::Finished(Ok(_)) => {
            &&& dump_wf(trace.reads)
            &&& trace.reads.len() == PAGE_NUM
            &&& trace.stored == Some(joined(trace.reads))
        },
        DumpStepView::Finished(Err(_)) => true,
    }
}

/// The dumping holds what the reads delivered, whatever the events.
pub proof fn lemma_dump_inv(run: DumpRunView, events: Seq<EventView>)
    requires
        run.stage is Scan,
    ensures
        dump_inv(run.trace(events)),
    decreases events.len(),
{
    if events.len() > 0 {
        lemma_dump_inv(run, events.drop_last());
        let before = run.trace(events.drop_last());
        match before.step {
            DumpStepView::Continue(at) => {
                match at.stage {
                    DumpStageView::Scan => {
                        assert(before.reads =~= Seq::<Seq<u8>>::empty());
                    },
                    _ => {},
                }
            },
            DumpStepView::Finished(result) => {},
        }
    }
}

/// A dumping that ends well has stored an image of the length of a flash
/// image, whose page `index` is what the read of page `index` delivered,
/// for every page of the handheld.
pub proof fn lemma_dump_stores_reads(run: DumpRunView, events: Seq<EventView>)
    requires
        run.stage is Scan,
        run.trace(events).step == DumpStepView::Finished(Ok(())),
    ensures
        run.trace(events).reads.len() == PAGE_NUM,
        run.trace(events).stored matches Some(image) && image.len() == FLASH_FILE_SIZE
            && forall|index: int|
            0 <= index < PAGE_NUM ==> #[trigger] page_of(image, index) == run.trace(
                events,
            ).reads[index],
{
    lemma_dump_inv(run, events);
    lemma_dump_holds_pages(run.trace(events).reads);
}

/// While the reads deliver what the handheld holds, the pages read are the
/// first pages of the handheld.
pub proof fn lemma_dump_reads_memory(
    run: DumpRunView,
    events: Seq<EventView>,
    memory: Seq<Seq<u8>>,
)
    requires
        run.stage is Scan,
        run.echoing(events, memory),
    ensures
        run.trace(events).reads.len() <= PAGE_NUM,
        forall|index: int|
            0 <= index < run.trace(events).reads.len() ==> #[trigger] run.trace(
                events,
            ).reads[index] == memory[index],
    decreases events.len(),
{
    lemma_dump_inv(run, events);
    if events.len() > 0 {
        lemma_dump_reads_memory(run, events.drop_last(), memory);
        lemma_dump_inv(run, events.drop_last());
    }
}

/// Dumping a handheld right after flashing an image to it stores that image
/// byte for byte, when the handheld returns for each page what was last
/// written to it.
///
/// `memory` holds the handheld's pages before the flashing. The flashing
/// loads `image` and ends well after `flash_events`; the dumping ends well
/// after `dump_events`, and each of its reads delivered what the flashing
/// left in the page.
pub proof fn lemma_dump_after_flash(
    flash: FlashRunView,
    image: Seq<u8>,
    memory: Seq<Seq<u8>>,
    flash_events: Seq<EventView>,
    dump: DumpRunView,
    dump_events: Seq<EventView>,
)
    requires
        flash.stage is Load,
        memory.len() >= PAGE_NUM,
        flash_events.len() > 0,
        flash_events[0] == EventView::Source(Some(image)),
        flash.trace(memory, flash_events).step == FlashStepView::Finished(Ok(())),
        dump.stage is Scan,
        dump.echoing(dump_events, flash.trace(memory, flash_events).memory),
        dump.trace(dump_events).step == DumpStepView::Finished(Ok(())),
    ensures
        dump.trace(dump_events).stored == Some(image),
{
    let flashed = flash.trace(memory, flash_events).memory;
    lemma_flash_writes_image(flash, image, memory, flash_events);
    lemma_dump_inv(dump, dump_events);
    lemma_dump_reads_memory(dump, dump_events, flashed);
    lemma_image_rejoin(image);
    assert(dump.trace(dump_events).reads =~= pages_of(image, PAGE_NUM as nat));
}

/// A step of a well-formed dumping leads to a well-formed dumping.
pub proof fn lemma_dump_next_wf(run: DumpRunView, event: EventView)
    requires
        run.wf(),
    ensures
        run.next(event) matches DumpStepView::Continue(after) ==> after.wf(),
{
}

/// A dumping cannot read from a handheld that the enumeration does not
/// list: with a page left to read it ends, the device not found.
pub proof fn lemma_dump_absent_handheld(
    file: Seq<char>,
    device: Seq<char>,
    pages: Seq<Seq<u8>>,
    names: Seq<Seq<u8>>,
)
    requires
        handle_of(names, device) is None,
        pages.len() < PAGE_NUM,
    ensures
        DumpRunView::proceed(file, device, pages, names) == DumpStepView::Finished(
            Err(TransferError::DeviceNotFound),
        ),
{
}

/// Whatever a well-formed dumping reports as progress lies between zero
/// and the page count, which is the total it reports.
pub proof fn lemma_dump_progress_bounded(run: DumpRunView)
    requires
        run.wf(),
    ensures
        run.pending() matches ActionView::ReportProgress(done, total) ==> done <= total
            == PAGE_NUM,
{
}

} // verus!
