//! The registry of connected handhelds and the page requests that address
//! them.
//!
//! A handheld is known by its device name, as the transport reported it. The
//! name identifies a handheld only when it is well-formed text; a handheld
//! whose name is not counts as absent. A request names the handheld by its
//! position in the set, so that the transport can find its handle again.

use crate::error::TransferError;
use crate::image::PAGE_SIZE;
use vstd::prelude::*;
use vstd::string::*;
use vstd::utf8::{decode_utf8, valid_utf8};

verus! {

/// The page outside the flash image whose read makes a handheld disconnect.
pub const EJECT_PAGE: u32 = 0x200;

/// The identifier that a device name stands for, if it stands for one.
pub open spec fn name_text(name: Seq<u8>) -> Option<Seq<char>> {
    if valid_utf8(name) {
        Some(decode_utf8(name))
    } else {
        None
    }
}

/// The identifiers of the handhelds with these device names, in discovery
/// order.
pub open spec fn paths_of(names: Seq<Seq<u8>>) -> Seq<Seq<char>>
    decreases names.len(),
{
    if names.len() == 0 {
        Seq::empty()
    } else {
        match name_text(names.last()) {
            Some(text) => paths_of(names.drop_last()).push(text),
            None => paths_of(names.drop_last()),
        }
    }
}

/// The position of the first handheld that the identifier names.
pub open spec fn handle_of(names: Seq<Seq<u8>>, path: Seq<char>) -> Option<usize>
    decreases names.len(),
{
    if names.len() == 0 {
        None
    } else {
        match handle_of(names.drop_last(), path) {
            Some(handle) => Some(handle),
            None => if name_text(names.last()) == Some(path) {
                Some((names.len() - 1) as usize)
            } else {
                None
            },
        }
    }
}

/// One page transfer for the transport to carry out.
#[derive(Debug, PartialEq, Eq)]
pub enum PageRequest {
    /// Write `data` to page `page` of the handheld at position `handle`.
    Write { handle: usize, page: u32, data: Vec<u8> },
    /// Read page `page` of the handheld at position `handle`.
    Read { handle: usize, page: u32 },
}

/// What a [`PageRequest`] asks for.
pub enum PageRequestView {
    Write { handle: usize, page: u32, data: Seq<u8> },
    Read { handle: usize, page: u32 },
}

impl View for PageRequest {
    type V = PageRequestView;

    open spec fn view(&self) -> PageRequestView {
        match self {
            PageRequest::Write { handle, page, data } => PageRequestView::Write {
                handle: *handle,
                page: *page,
                data: data@,
            },
            PageRequest::Read { handle, page } => PageRequestView::Read {
                handle: *handle,
                page: *page,
            },
        }
    }
}

impl Clone for PageRequest {
    fn clone(&self) -> (copy: PageRequest)
        ensures
            copy@ == self@,
    {
        match self {
            PageRequest::Write { handle, page, data } => PageRequest::Write {
                handle: *handle,
                page: *page,
                data: data.clone(),
            },
            PageRequest::Read { handle, page } => PageRequest::Read {
                handle: *handle,
                page: *page,
            },
        }
    }
}

/// `core::str::from_utf8`: the bytes taken as text. The call succeeds exactly
/// when the bytes are well-formed UTF-8, and the text it gives is made of
/// those same bytes.
#[verifier::external_body]
fn text_of<'a>(bytes: &'a [u8]) -> (text: Option<&'a str>)
    ensures
        text is Some <==> valid_utf8(bytes@),
        text matches Some(found) ==> found.spec_bytes() == bytes@,
{
    match core::str::from_utf8(bytes) {
        Ok(found) => Some(found),
        Err(_) => None,
    }
}

/// The handhelds found by one enumeration, in discovery order.
#[derive(Debug, PartialEq, Eq)]
pub struct HandheldSet {
    names: Vec<Vec<u8>>,
}

impl View for HandheldSet {
    type V = Seq<Seq<u8>>;

    /// The device names, one for each handheld.
    closed spec fn view(&self) -> Seq<Seq<u8>> {
        self.names.deep_view()
    }
}

impl HandheldSet {
    /// How many handhelds an enumeration found, given what the transport
    /// returned for it: a negative value reports a failure, and a failed
    /// enumeration has found none.
    pub fn count_found(result: i32) -> (count: usize)
        ensures
            result >= 0 ==> count == result,
            result < 0 ==> count == 0,
    {
        if result >= 0 {
            result as usize
        } else {
            0
        }
    }

    /// The set of the handhelds with the given device names.
    pub fn new(names: Vec<Vec<u8>>) -> (set: HandheldSet)
        ensures
            set@ == names.deep_view(),
    {
        HandheldSet { names }
    }

    /// How many handhelds the set holds.
    pub fn num_handhelds(&self) -> (count: usize)
        ensures
            count == self@.len(),
    {
        self.names.len()
    }

    /// The identifiers of the connected handhelds, in discovery order.
    pub fn get_handheld_paths(&self) -> (paths: Vec<String>)
        ensures
            paths.deep_view() == paths_of(self@),
    {
        let mut paths: Vec<String> = Vec::new();
        let mut i: usize = 0;
        assert(paths.deep_view() =~= paths_of(self@.take(0)));
        while i < self.names.len()
            invariant
                i <= self.names.len(),
                paths.deep_view() == paths_of(self@.take(i as int)),
            decreases self.names.len() - i,
        {
            let ghost before = paths.deep_view();
            proof {
                broadcast use vstd::utf8::group_utf8_lib;

                assert(self@.take(i + 1).drop_last() =~= self@.take(i as int));
                assert(self@.take(i + 1).last() == self.names[i as int]@);
            }
            match text_of(self.names[i].as_slice()) {
                Some(found) => {
                    let path: String = found.to_owned();
                    paths.push(path);
                    assert(paths.deep_view() =~= before.push(found@));
                },
                None => {},
            }
            i = i + 1;
        }
        assert(self@.take(self.names.len() as int) =~= self@);
        paths
    }

    /// Resolves an identifier to the position of the handheld it names.
    pub fn get_handheld_by_path(&self, path: &str) -> (handle: Option<usize>)
        ensures
            handle == handle_of(self@, path@),
    {
        let wanted: String = path.to_owned();
        let mut i: usize = 0;
        while i < self.names.len()
            invariant
                i <= self.names.len(),
                wanted@ == path@,
                handle_of(self@.take(i as int), path@) is None,
            decreases self.names.len() - i,
        {
            proof {
                broadcast use vstd::utf8::group_utf8_lib;

                assert(self@.take(i + 1).drop_last() =~= self@.take(i as int));
                assert(self@.take(i + 1).last() == self.names[i as int]@);
            }
            match text_of(self.names[i].as_slice()) {
                Some(found) => {
                    let candidate: String = found.to_owned();
                    if candidate == wanted {
                        proof {
                            lemma_handle_stays(self@, path@, i + 1);
                        }
                        return Some(i);
                    }
                },
                None => {},
            }
            i = i + 1;
        }
        assert(self@.take(self.names.len() as int) =~= self@);
        None
    }

    /// Addresses a page write to the handheld that the identifier names.
    pub fn write_page(&self, path: &str, page: u32, buf: &Vec<u8>) -> (request: Result<
        PageRequest,
        TransferError,
    >)
        ensures
            match handle_of(self@, path@) {
                Some(handle) => request is Ok && request->Ok_0@ == (PageRequestView::Write {
                    handle,
                    page,
                    data: buf@,
                }),
                None => request is Err && request->Err_0 == TransferError::DeviceNotFound,
            },
    {
        match self.get_handheld_by_path(path) {
            Some(handle) => Ok(PageRequest::Write { handle, page, data: buf.clone() }),
            None => Err(TransferError::DeviceNotFound),
        }
    }

    /// Addresses a page read to the handheld that the identifier names.
    pub fn read_page(&self, path: &str, page: u32) -> (request: Result<PageRequest, TransferError>)
        ensures
            match handle_of(self@, path@) {
                Some(handle) => request is Ok && request->Ok_0@ == (PageRequestView::Read {
                    handle,
                    page,
                }),
                None => request is Err && request->Err_0 == TransferError::DeviceNotFound,
            },
    {
        match self.get_handheld_by_path(path) {
            Some(handle) => Ok(PageRequest::Read { handle, page }),
            None => Err(TransferError::DeviceNotFound),
        }
    }

    /// The request that makes the named handheld disconnect: a read of the
    /// eject page, whose outcome nobody waits for. There is none when the
    /// handheld is absent.
    pub fn eject(&self, path: &str) -> (request: Option<PageRequest>)
        ensures
            match handle_of(self@, path@) {
                Some(handle) => request is Some && request->Some_0@ == (PageRequestView::Read {
                    handle,
                    page: EJECT_PAGE,
                }),
                None => request is None,
            },
    {
        match self.read_page(path, EJECT_PAGE) {
            Ok(request) => Some(request),
            Err(_) => None,
        }
    }

    /// Forgets every handheld: after their handles are released none can be
    /// addressed.
    pub fn destroy_all(&mut self)
        ensures
            final(self)@ == Seq::<Seq<u8>>::empty(),
    {
        self.names.clear();
        assert(self.names.deep_view() =~= Seq::<Seq<u8>>::empty());
    }
}

/// Judges what the transport returned for a page write: a negative value
/// reports a failure.
pub fn page_written(code: i32) -> (outcome: Result<(), TransferError>)
    ensures
        code >= 0 ==> outcome == Ok::<(), TransferError>(()),
        code < 0 ==> outcome == Err::<(), TransferError>(TransferError::IoError),
{
    if code < 0 {
        Err(TransferError::IoError)
    } else {
        Ok(())
    }
}

/// Whether the transport delivered a page: it reported no failure and handed
/// over exactly one page of bytes.
pub open spec fn page_delivered(code: i32, data: Seq<u8>) -> bool {
    code >= 0 && data.len() == PAGE_SIZE
}

/// Judges what the transport returned for a page read. A negative value
/// reports a failure, and so does anything but one whole page of bytes.
pub fn page_read(code: i32, data: Vec<u8>) -> (outcome: Result<Vec<u8>, TransferError>)
    ensures
        page_delivered(code, data@) ==> outcome is Ok && outcome->Ok_0@ == data@,
        !page_delivered(code, data@) ==> outcome is Err && outcome->Err_0
            == TransferError::IoError,
{
    if code < 0 || data.len() != PAGE_SIZE {
        Err(TransferError::IoError)
    } else {
        Ok(data)
    }
}

/// A handheld found among the first names is found at the same position
/// among all of them.
pub proof fn lemma_handle_stays(names: Seq<Seq<u8>>, path: Seq<char>, count: int)
    requires
        0 <= count <= names.len(),
        handle_of(names.take(count), path) is Some,
    ensures
        handle_of(names, path) == handle_of(names.take(count), path),
    decreases names.len() - count,
{
    if count < names.len() {
        assert(names.take(count + 1).drop_last() =~= names.take(count));
        lemma_handle_stays(names, path, count + 1);
    } else {
        assert(names.take(count) =~= names);
    }
}

/// A handle is the position of a handheld that the identifier names, and of
/// the first such.
pub proof fn lemma_handle_is_first(names: Seq<Seq<u8>>, path: Seq<char>)
    requires
        names.len() <= usize::MAX,
    ensures
        match handle_of(names, path) {
            Some(handle) => {
                &&& handle < names.len()
                &&& name_text(names[handle as int]) == Some(path)
                &&& forall|i: int| 0 <= i < handle ==> name_text(#[trigger] names[i]) != Some(path)
            },
            None => forall|i: int|
                0 <= i < names.len() ==> name_text(#[trigger] names[i]) != Some(path),
        },
    decreases names.len(),
{
    if names.len() > 0 {
        let front = names.drop_last();
        lemma_handle_is_first(front, path);
        assert(forall|i: int| 0 <= i < front.len() ==> front[i] == names[i]);
    }
}

/// An identifier resolves to a handheld exactly when the enumeration lists
/// it: opening what is not enumerable finds nothing.
pub proof fn lemma_handle_iff_listed(names: Seq<Seq<u8>>, path: Seq<char>)
    ensures
        handle_of(names, path) is Some <==> paths_of(names).contains(path),
    decreases names.len(),
{
    if names.len() > 0 {
        let front = names.drop_last();
        lemma_handle_iff_listed(front, path);
        match name_text(names.last()) {
            Some(text) => {
                let listed = paths_of(front);
                assert(listed.push(text).last() == text);
                if listed.contains(path) {
                    let at = choose|i: int| 0 <= i < listed.len() && listed[i] == path;
                    assert(listed.push(text)[at] == path);
                }
                if listed.push(text).contains(path) && text != path {
                    let at = choose|i: int|
                        0 <= i < listed.push(text).len() && listed.push(text)[i] == path;
                    assert(listed[at] == path);
                }
            },
            None => {},
        }
    }
}

} // verus!
