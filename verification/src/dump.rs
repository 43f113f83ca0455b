//! The dumping procedure: the pages of a handheld are read in ascending
//! order and laid end to end into a flash image. A page that cannot be read
//! abandons the dumping; no read is tried again.

use crate::error::TransferError;
use crate::handheld::{page_delivered, page_read};
use crate::image::{
    joined, lemma_joined_len, lemma_joined_page, lemma_pages_rejoin, page_of, page_sized,
    pages_of, FLASH_FILE_SIZE, PAGE_NUM, PAGE_SIZE,
};
use vstd::prelude::*;

verus! {

/// A dumping in progress: the pages read so far.
pub struct DumpJob {
    data: Vec<u8>,
    page: usize,
}

/// Pages read by a dumping: each is a whole page, and there are no more of
/// them than the handheld has.
pub open spec fn dump_wf(pages: Seq<Seq<u8>>) -> bool {
    pages.len() <= PAGE_NUM && page_sized(pages)
}

impl View for DumpJob {
    type V = Seq<Seq<u8>>;

    /// The pages read so far, in index order.
    closed spec fn view(&self) -> Seq<Seq<u8>> {
        pages_of(self.data@, self.page as nat)
    }
}

impl DumpJob {
    #[verifier::type_invariant]
    spec fn inv(self) -> bool {
        self.data.len() == self.page * PAGE_SIZE && self.page <= PAGE_NUM
    }

    /// Starts a dumping, with no page read yet.
    pub fn new() -> (job: DumpJob)
        ensures
            job@ == Seq::<Seq<u8>>::empty(),
    {
        let job = DumpJob { data: Vec::new(), page: 0 };
        assert(job@ =~= Seq::<Seq<u8>>::empty());
        job
    }

    /// The page to read next, or nothing when every page is read.
    pub fn next_read(&self) -> (next: Option<u32>)
        ensures
            dump_wf(self@),
            self@.len() < PAGE_NUM ==> next == Some(self@.len() as u32),
            self@.len() >= PAGE_NUM ==> next is None,
    {
        proof {
            use_type_invariant(self);
        }
        if self.page < PAGE_NUM {
            Some(self.page as u32)
        } else {
            None
        }
    }

    /// The progress of the dumping: how many pages are read, of how many.
    pub fn progress(&self) -> (progress: (u32, u32))
        ensures
            progress.0 == self@.len(),
            progress.1 == PAGE_NUM,
            progress.0 <= progress.1,
    {
        proof {
            use_type_invariant(self);
        }
        (self.page as u32, PAGE_NUM as u32)
    }

    /// Takes note of how the read of the current page went: `code` is what
    /// the transport returned for it, `data` the bytes it handed over.
    ///
    /// A page that was not delivered abandons the dumping and leaves the job
    /// as it was. A delivered page is added to the pages read.
    pub fn record(&mut self, code: i32, data: Vec<u8>) -> (progress: Result<
        (u32, u32),
        TransferError,
    >)
        requires
            old(self)@.len() < PAGE_NUM,
        ensures
            dump_wf(final(self)@),
            page_delivered(code, data@) ==> final(self)@ == old(self)@.push(data@) && progress
                == Ok::<(u32, u32), TransferError>(
                ((old(self)@.len() + 1) as u32, PAGE_NUM as u32),
            ),
            !page_delivered(code, data@) ==> final(self)@ == old(self)@ && progress == Err::<
                (u32, u32),
                TransferError,
            >(TransferError::PageReadFailed { index: old(self)@.len() as u32 }),
    {
        proof {
            use_type_invariant(&*self);
        }
        let page: usize = self.page;
        let ghost before = self.data@;
        match page_read(code, data) {
            Err(_) => Err(TransferError::PageReadFailed { index: page as u32 }),
            Ok(delivered) => {
                let mut delivered = delivered;
                let ghost bytes = delivered@;
                let mut taken = DumpJob { data: Vec::new(), page: 0 };
                core::mem::swap(self, &mut taken);
                let mut data: Vec<u8> = taken.data;
                data.append(&mut delivered);
                *self = DumpJob { data, page: page + 1 };
                proof {
                    let after = before + bytes;
                    assert(self.data@ == after);
                    assert(page_of(after, page as int) =~= bytes);
                    assert forall|i: int| 0 <= i < page implies page_of(after, i) == page_of(
                        before,
                        i,
                    ) by {
                        assert(page_of(after, i) =~= page_of(before, i));
                    }
                    assert(pages_of(after, (page + 1) as nat) =~= pages_of(before, page as nat).push(
                        bytes,
                    ));
                }
                Ok(((page + 1) as u32, PAGE_NUM as u32))
            },
        }
    }

    /// The image assembled from the pages read: the pages laid end to end.
    pub fn into_image(self) -> (image: Vec<u8>)
        ensures
            image@ == joined(self@),
    {
        proof {
            use_type_invariant(&self);
            lemma_pages_rejoin(self.data@, self.page as nat);
            assert(self.data@.take(self.page * PAGE_SIZE) =~= self.data@);
        }
        self.data
    }
}

/// The image of a dumping that read every page has the length of a flash
/// image, and its page `index` is what the read of page `index` delivered.
pub proof fn lemma_dump_holds_pages(pages: Seq<Seq<u8>>)
    requires
        dump_wf(pages),
        pages.len() == PAGE_NUM,
    ensures
        joined(pages).len() == FLASH_FILE_SIZE,
        forall|index: int|
            0 <= index < PAGE_NUM ==> #[trigger] page_of(joined(pages), index) == pages[index],
{
    lemma_joined_len(pages);
    assert forall|index: int| 0 <= index < PAGE_NUM implies #[trigger] page_of(
        joined(pages),
        index,
    ) == pages[index] by {
        lemma_joined_page(pages, index);
    }
}

} // verus!
