//! The flashing procedure: the pages of an image are written in ascending
//! order, and a page whose write took too long is written again together
//! with the page before it.

use crate::error::TransferError;
use crate::handheld::page_written;
use crate::image::{page_of, slice, validate, FLASH_FILE_SIZE, PAGE_NUM};
use crate::text::{decimal, decimal_digits};
use vstd::prelude::*;
use vstd::string::*;

verus! {

/// The longest a page write may take before it counts as slow, in
/// nanoseconds: three seconds.
pub const MAX_PAGE_NANOS: u128 = 3_000_000_000;

/// How long the handheld is left to settle after a slow write, in
/// milliseconds.
pub const SETTLE_MILLIS: u64 = 1000;

/// Whether a page write that took this long counts as slow.
pub open spec fn is_slow(elapsed_nanos: u128) -> bool {
    elapsed_nanos > MAX_PAGE_NANOS
}

/// The page to resume from after a slow write of `page`: the page before
/// it, or the first page.
pub open spec fn rewound(page: nat) -> nat {
    if page == 0 {
        0
    } else {
        (page - 1) as nat
    }
}

/// The page to write after `page` was written in the given time.
pub open spec fn next_page(page: nat, elapsed_nanos: u128) -> nat {
    if is_slow(elapsed_nanos) {
        rewound(page)
    } else {
        page + 1
    }
}

/// The status line that tells of a slow page write.
pub open spec fn slow_notice_text(page: u32, resume: u32) -> Seq<char> {
    "Page "@ + decimal_digits(page as nat) + " took a long time to write. Restarting from "@
        + decimal_digits(resume as nat) + "."@
}

/// Renders the status line that tells of a slow write of `page`, after
/// which the flashing resumes from `resume`.
pub fn slow_notice(page: u32, resume: u32) -> (text: String)
    ensures
        text@ == slow_notice_text(page, resume),
{
    let mut text: String = String::from_str("Page ");
    let written: String = decimal(page as u64);
    text.append(written.as_str());
    text.append(" took a long time to write. Restarting from ");
    let resumed: String = decimal(resume as u64);
    text.append(resumed.as_str());
    text.append(".");
    text
}

/// What came of one page write that the transport carried out.
#[derive(Clone, Copy, Debug, PartialEq, Eq, Structural)]
pub struct WriteReport {
    /// The page that was written.
    pub page: u32,
    /// Whether the write took longer than allowed.
    pub slow: bool,
    /// The page to write next; the page count when none is left.
    pub next: u32,
}

/// A flashing in progress: the image, and the page to write next.
pub struct FlashJob {
    image: Vec<u8>,
    page: usize,
}

/// The state of a [`FlashJob`].
pub struct FlashJobView {
    pub image: Seq<u8>,
    pub page: nat,
}

impl FlashJobView {
    /// The image is a whole flash image and the page to write next is one
    /// of its pages, or the page count when all are written.
    pub open spec fn wf(self) -> bool {
        self.image.len() == FLASH_FILE_SIZE && self.page <= PAGE_NUM
    }
}

impl FlashJobView {
    /// The flashing after the current page was written in the given time.
    pub open spec fn stepped(self, elapsed_nanos: u128) -> FlashJobView {
        FlashJobView { image: self.image, page: next_page(self.page, elapsed_nanos) }
    }
}

impl View for FlashJob {
    type V = FlashJobView;

    closed spec fn view(&self) -> FlashJobView {
        FlashJobView { image: self.image@, page: self.page as nat }
    }
}

impl FlashJob {
    #[verifier::type_invariant]
    spec fn inv(self) -> bool {
        self.image.len() == FLASH_FILE_SIZE && self.page <= PAGE_NUM
    }

    /// Starts flashing the image, at its first page. An image of the wrong
    /// length is refused before anything is written.
    pub fn new(image: Vec<u8>) -> (started: Result<FlashJob, TransferError>)
        ensures
            image.len() == FLASH_FILE_SIZE ==> started is Ok && started->Ok_0@ == (FlashJobView {
                image: image@,
                page: 0,
            }),
            image.len() != FLASH_FILE_SIZE ==> started is Err && started->Err_0 == (
            TransferError::SizeMismatch { expected: FLASH_FILE_SIZE, actual: image.len() }),
    {
        match validate(&image) {
            Ok(()) => Ok(FlashJob { image, page: 0 }),
            Err(refused) => Err(refused),
        }
    }

    /// The page to write next and its bytes, or nothing when every page is
    /// written.
    pub fn next_write(&self) -> (next: Option<(u32, Vec<u8>)>)
        ensures
            self@.wf(),
            self@.page < PAGE_NUM ==> next is Some && next->Some_0.0 == self@.page
                && next->Some_0.1@ == page_of(self@.image, self@.page as int),
            self@.page >= PAGE_NUM ==> next is None,
    {
        proof {
            use_type_invariant(self);
        }
        if self.page < PAGE_NUM {
            Some((self.page as u32, slice(&self.image, self.page)))
        } else {
            None
        }
    }

    /// The progress of the flashing: the page to write next, of how many.
    pub fn progress(&self) -> (progress: (u32, u32))
        ensures
            progress.0 == self@.page,
            progress.1 == PAGE_NUM,
            progress.0 <= progress.1,
    {
        proof {
            use_type_invariant(self);
        }
        (self.page as u32, PAGE_NUM as u32)
    }

    /// Takes note of how the write of the current page went: `code` is what
    /// the transport returned for it, `elapsed_nanos` how long it took.
    ///
    /// A failed write abandons the flashing and leaves the job as it was.
    /// After a slow write the job steps back one page; after any other it
    /// moves on to the next.
    pub fn record(&mut self, code: i32, elapsed_nanos: u128) -> (report: Result<
        WriteReport,
        TransferError,
    >)
        requires
            old(self)@.page < PAGE_NUM,
        ensures
            final(self)@.wf(),
            final(self)@.image == old(self)@.image,
            code < 0 ==> final(self)@ == old(self)@ && report == Err::<WriteReport, TransferError>(
                TransferError::PageWriteFailed { index: old(self)@.page as u32 },
            ),
            code >= 0 ==> final(self)@ == old(self)@.stepped(elapsed_nanos) && report == Ok::<
                WriteReport,
                TransferError,
            >(
                WriteReport {
                    page: old(self)@.page as u32,
                    slow: is_slow(elapsed_nanos),
                    next: next_page(old(self)@.page, elapsed_nanos) as u32,
                },
            ),
    {
        proof {
            use_type_invariant(&*self);
        }
        let page: usize = self.page;
        match page_written(code) {
            Err(_) => Err(TransferError::PageWriteFailed { index: page as u32 }),
            Ok(()) => {
                let slow: bool = elapsed_nanos > MAX_PAGE_NANOS;
                let next: usize = if slow {
                    if page == 0 {
                        0
                    } else {
                        page - 1
                    }
                } else {
                    page + 1
                };
                self.page = next;
                Ok(WriteReport { page: page as u32, slow, next: next as u32 })
            },
        }
    }
}

} // verus!
