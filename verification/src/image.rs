//! The flash image model: a handheld's flash memory is a fixed number of
//! pages of a fixed size, and an image is all of them in index order.

use crate::error::TransferError;
use vstd::prelude::*;
use vstd::slice::{slice_subrange, slice_to_vec};

verus! {

/// Bytes in one page.
pub const PAGE_SIZE: usize = 0x1000;

/// Pages in a handheld's flash memory.
pub const PAGE_NUM: usize = 512;

/// Bytes in a whole flash image.
pub const FLASH_FILE_SIZE: usize = PAGE_SIZE * PAGE_NUM;

/// The page with the given index inside an image.
pub open spec fn page_of(image: Seq<u8>, index: int) -> Seq<u8> {
    image.subrange(index * PAGE_SIZE, (index + 1) * PAGE_SIZE)
}

/// The chunks laid end to end, first chunk first.
pub open spec fn joined(pages: Seq<Seq<u8>>) -> Seq<u8>
    decreases pages.len(),
{
    if pages.len() == 0 {
        Seq::empty()
    } else {
        joined(pages.drop_last()) + pages.last()
    }
}

/// Every chunk has exactly the size of a page.
pub open spec fn page_sized(pages: Seq<Seq<u8>>) -> bool {
    forall|i: int| 0 <= i < pages.len() ==> (#[trigger] pages[i]).len() == PAGE_SIZE
}

/// The first `count` pages of an image, in index order.
pub open spec fn pages_of(image: Seq<u8>, count: nat) -> Seq<Seq<u8>> {
    Seq::new(count, |i: int| page_of(image, i))
}

/// Checks that a byte buffer has the exact length of a flash image.
pub fn validate(image: &Vec<u8>) -> (checked: Result<(), TransferError>)
    ensures
        image.len() == FLASH_FILE_SIZE ==> checked == Ok::<(), TransferError>(()),
        image.len() != FLASH_FILE_SIZE ==> checked == Err::<(), TransferError>(
            TransferError::SizeMismatch { expected: FLASH_FILE_SIZE, actual: image.len() },
        ),
{
    if image.len() == FLASH_FILE_SIZE {
        Ok(())
    } else {
        Err(TransferError::SizeMismatch { expected: FLASH_FILE_SIZE, actual: image.len() })
    }
}

/// Copies one page out of a flash image.
pub fn slice(image: &Vec<u8>, page_index: usize) -> (page: Vec<u8>)
    requires
        image.len() == FLASH_FILE_SIZE,
        page_index < PAGE_NUM,
    ensures
        page@ == page_of(image@, page_index as int),
        page.len() == PAGE_SIZE,
{
    let start: usize = page_index * PAGE_SIZE;
    let end: usize = start + PAGE_SIZE;
    slice_to_vec(slice_subrange(image.as_slice(), start, end))
}

/// Lays the chunks end to end into one buffer.
pub fn assemble(pages: &Vec<Vec<u8>>) -> (image: Vec<u8>)
    ensures
        image@ == joined(pages.deep_view()),
{
    let mut image: Vec<u8> = Vec::new();
    let mut i: usize = 0;
    while i < pages.len()
        invariant
            i <= pages.len(),
            image@ == joined(pages.deep_view().take(i as int)),
        decreases pages.len() - i,
    {
        let mut chunk: Vec<u8> = pages[i].clone();
        proof {
            let whole = pages.deep_view();
            assert(whole.take(i + 1).drop_last() =~= whole.take(i as int));
            assert(whole.take(i + 1).last() == pages[i as int]@);
            assert(chunk@ =~= pages[i as int]@);
        }
        image.append(&mut chunk);
        i = i + 1;
    }
    proof {
        assert(pages.deep_view().take(pages.len() as int) =~= pages.deep_view());
    }
    image
}

/// Joining page-sized chunks gives as many bytes as the chunks hold together.
pub proof fn lemma_joined_len(pages: Seq<Seq<u8>>)
    requires
        page_sized(pages),
    ensures
        joined(pages).len() == pages.len() * PAGE_SIZE,
    decreases pages.len(),
{
    if pages.len() > 0 {
        lemma_joined_len(pages.drop_last());
    }
}

/// Slicing an image assembled from page-sized chunks gives the chunks back:
/// page `index` of the image is the chunk with that index.
pub proof fn lemma_joined_page(pages: Seq<Seq<u8>>, index: int)
    requires
        page_sized(pages),
        0 <= index < pages.len(),
    ensures
        page_of(joined(pages), index) == pages[index],
    decreases pages.len(),
{
    let front = pages.drop_last();
    lemma_joined_len(front);
    if index == pages.len() - 1 {
        assert(page_of(joined(pages), index) =~= pages.last());
    } else {
        lemma_joined_page(front, index);
        assert(page_of(joined(pages), index) =~= page_of(joined(front), index));
    }
}

/// Assembling the pages sliced from a buffer gives the bytes they were
/// sliced from.
pub proof fn lemma_pages_rejoin(image: Seq<u8>, count: nat)
    requires
        count * PAGE_SIZE <= image.len(),
    ensures
        joined(pages_of(image, count)) == image.take(count * PAGE_SIZE),
    decreases count,
{
    if count == 0 {
        assert(image.take(0) =~= Seq::<u8>::empty());
    } else {
        let fewer = (count - 1) as nat;
        lemma_pages_rejoin(image, fewer);
        assert(pages_of(image, count).drop_last() =~= pages_of(image, fewer));
        assert(pages_of(image, count).last() == page_of(image, count - 1));
        assert(image.take(fewer * PAGE_SIZE) + page_of(image, count - 1) =~= image.take(
            count * PAGE_SIZE,
        ));
    }
}

/// Slicing then assembling is the identity on flash images.
pub proof fn lemma_image_rejoin(image: Seq<u8>)
    requires
        image.len() == FLASH_FILE_SIZE,
    ensures
        joined(pages_of(image, PAGE_NUM as nat)) == image,
        page_sized(pages_of(image, PAGE_NUM as nat)),
{
    lemma_pages_rejoin(image, PAGE_NUM as nat);
    assert(image.take(FLASH_FILE_SIZE as int) =~= image);
}

} // verus!
