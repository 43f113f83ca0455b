use miuchiz_usb::error::TransferError;
use miuchiz_usb::handheld::{page_read, page_written, HandheldSet, PageRequest, EJECT_PAGE};
use miuchiz_usb::image::PAGE_SIZE;

fn names(list: &[&[u8]]) -> Vec<Vec<u8>> {
    list.iter().map(|name| name.to_vec()).collect()
}

#[test]
fn eject_page_lies_right_after_the_image() {
    assert_eq!(EJECT_PAGE, 0x200);
    assert_eq!(EJECT_PAGE, 512);
}

#[test]
fn failed_enumeration_finds_nothing() {
    assert_eq!(HandheldSet::count_found(-1), 0);
    assert_eq!(HandheldSet::count_found(i32::MIN), 0);
    assert_eq!(HandheldSet::count_found(0), 0);
    assert_eq!(HandheldSet::count_found(3), 3);
    assert_eq!(HandheldSet::count_found(i32::MAX), 2_147_483_647);
}

#[test]
fn empty_set_lists_nothing() {
    let set = HandheldSet::new(Vec::new());
    assert_eq!(set.num_handhelds(), 0);
    assert_eq!(set.get_handheld_paths(), Vec::<String>::new());
    assert_eq!(set.get_handheld_by_path("/dev/sdb"), None);
}

#[test]
fn paths_come_in_discovery_order() {
    let set = HandheldSet::new(names(&[b"/dev/sdc", b"/dev/sdb", b"/dev/sdd"]));
    assert_eq!(set.num_handhelds(), 3);
    assert_eq!(set.get_handheld_paths(), vec!["/dev/sdc", "/dev/sdb", "/dev/sdd"]);
}

#[test]
fn name_that_is_not_text_counts_as_absent() {
    let set = HandheldSet::new(names(&[b"/dev/sdb", &[0xff, 0xfe, 0x2f], b"/dev/sdd", &[0xc3]]));
    assert_eq!(set.num_handhelds(), 4);
    assert_eq!(set.get_handheld_paths(), vec!["/dev/sdb", "/dev/sdd"]);
    assert_eq!(set.get_handheld_by_path("/dev/sdd"), Some(2));
}

#[test]
fn text_beyond_ascii_is_kept() {
    let set = HandheldSet::new(names(&["/dev/gerät".as_bytes(), "/dev/装置".as_bytes()]));
    assert_eq!(set.get_handheld_paths(), vec!["/dev/gerät", "/dev/装置"]);
    assert_eq!(set.get_handheld_by_path("/dev/装置"), Some(1));
    assert_eq!(set.get_handheld_by_path("/dev/gerat"), None);
}

#[test]
fn lookup_gives_the_first_of_equal_names() {
    let set = HandheldSet::new(names(&[b"a", b"b", b"a", b"b"]));
    assert_eq!(set.get_handheld_by_path("a"), Some(0));
    assert_eq!(set.get_handheld_by_path("b"), Some(1));
}

#[test]
fn opening_what_is_not_enumerable_finds_no_device() {
    let set = HandheldSet::new(names(&[b"/dev/sdb", &[0xff]]));
    let buf = vec![0u8; PAGE_SIZE];
    for path in ["/dev/sdc", "", "/dev/sd", "/dev/sdbb", "\u{fffd}"] {
        assert!(!set.get_handheld_paths().contains(&path.to_string()));
        assert_eq!(set.get_handheld_by_path(path), None);
        assert_eq!(set.write_page(path, 0, &buf), Err(TransferError::DeviceNotFound));
        assert_eq!(set.read_page(path, 0), Err(TransferError::DeviceNotFound));
        assert_eq!(set.eject(path), None);
    }
}

#[test]
fn write_page_addresses_the_named_handheld() {
    let set = HandheldSet::new(names(&[b"/dev/sdb", b"/dev/sdc"]));
    let buf: Vec<u8> = (0..PAGE_SIZE).map(|i| (i % 7) as u8).collect();
    assert_eq!(
        set.write_page("/dev/sdc", 17, &buf),
        Ok(PageRequest::Write { handle: 1, page: 17, data: buf.clone() })
    );
}

#[test]
fn read_page_addresses_the_named_handheld() {
    let set = HandheldSet::new(names(&[b"/dev/sdb", b"/dev/sdc"]));
    assert_eq!(set.read_page("/dev/sdb", 511), Ok(PageRequest::Read { handle: 0, page: 511 }));
}

#[test]
fn eject_reads_the_page_outside_the_image() {
    let set = HandheldSet::new(names(&[b"/dev/sdb", b"/dev/sdc"]));
    assert_eq!(set.eject("/dev/sdc"), Some(PageRequest::Read { handle: 1, page: 0x200 }));
}

#[test]
fn destroy_all_leaves_no_handheld() {
    let mut set = HandheldSet::new(names(&[b"/dev/sdb", b"/dev/sdc"]));
    set.destroy_all();
    assert_eq!(set.num_handhelds(), 0);
    assert_eq!(set.get_handheld_paths(), Vec::<String>::new());
    assert_eq!(set.read_page("/dev/sdb", 0), Err(TransferError::DeviceNotFound));
}

#[test]
fn negative_code_is_a_failed_write() {
    assert_eq!(page_written(0), Ok(()));
    assert_eq!(page_written(4096), Ok(()));
    assert_eq!(page_written(-1), Err(TransferError::IoError));
    assert_eq!(page_written(i32::MIN), Err(TransferError::IoError));
}

#[test]
fn read_delivers_exactly_one_page() {
    let page = vec![9u8; PAGE_SIZE];
    assert_eq!(page_read(0, page.clone()), Ok(page.clone()));
    assert_eq!(page_read(-1, page.clone()), Err(TransferError::IoError));
    assert_eq!(page_read(0, vec![9u8; PAGE_SIZE - 1]), Err(TransferError::IoError));
    assert_eq!(page_read(0, vec![9u8; PAGE_SIZE + 1]), Err(TransferError::IoError));
    assert_eq!(page_read(0, Vec::new()), Err(TransferError::IoError));
}

#[test]
fn page_request_clone_is_equal() {
    let request = PageRequest::Write { handle: 2, page: 5, data: vec![1, 2, 3] };
    assert_eq!(request.clone(), request);
    let request = PageRequest::Read { handle: 2, page: 5 };
    assert_eq!(request.clone(), request);
}
