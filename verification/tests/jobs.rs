use miuchiz_usb::dump::DumpJob;
use miuchiz_usb::error::TransferError;
use miuchiz_usb::flash::{slow_notice, FlashJob, WriteReport, MAX_PAGE_NANOS, SETTLE_MILLIS};
use miuchiz_usb::image::{slice, FLASH_FILE_SIZE, PAGE_NUM, PAGE_SIZE};

const FAST: u128 = 1_000_000;
const SLOW: u128 = 3_000_000_001;

fn patterned_image() -> Vec<u8> {
    let mut image = Vec::with_capacity(FLASH_FILE_SIZE);
    for i in 0..FLASH_FILE_SIZE {
        image.push(((i / PAGE_SIZE) as u8).wrapping_mul(3) ^ ((i % 253) as u8));
    }
    image
}

/// A handheld that keeps what is written to it and returns it when read.
struct EchoDevice {
    pages: Vec<Vec<u8>>,
    writes: Vec<u32>,
}

impl EchoDevice {
    fn new() -> EchoDevice {
        EchoDevice { pages: vec![vec![0xeeu8; PAGE_SIZE]; PAGE_NUM], writes: Vec::new() }
    }

    fn write(&mut self, page: u32, data: Vec<u8>) -> i32 {
        self.writes.push(page);
        self.pages[page as usize] = data;
        0
    }
}

/// Flashes the image; `elapsed` tells how long the write numbered `n` takes.
fn flash(image: Vec<u8>, device: &mut EchoDevice, elapsed: impl Fn(usize) -> u128) -> Vec<(u32, u32)> {
    let mut job = FlashJob::new(image).unwrap();
    let mut progress = Vec::new();
    let mut n = 0;
    while let Some((page, data)) = job.next_write() {
        let code = device.write(page, data);
        job.record(code, elapsed(n)).unwrap();
        progress.push(job.progress());
        n += 1;
    }
    progress
}

fn dump(device: &EchoDevice) -> Vec<u8> {
    let mut job = DumpJob::new();
    while let Some(page) = job.next_read() {
        job.record(0, device.pages[page as usize].clone()).unwrap();
    }
    job.into_image()
}

#[test]
fn thresholds_are_as_configured() {
    assert_eq!(MAX_PAGE_NANOS, 3_000_000_000);
    assert_eq!(SETTLE_MILLIS, 1000);
}

#[test]
fn flash_job_refuses_wrong_length() {
    for len in [0usize, 1, FLASH_FILE_SIZE - 1, FLASH_FILE_SIZE + 1] {
        match FlashJob::new(vec![0u8; len]) {
            Err(refused) => assert_eq!(
                refused,
                TransferError::SizeMismatch { expected: FLASH_FILE_SIZE, actual: len }
            ),
            Ok(_) => panic!("an image of {} bytes was accepted", len),
        }
    }
}

#[test]
fn flash_job_starts_at_the_first_page() {
    let image = patterned_image();
    let job = FlashJob::new(image.clone()).unwrap();
    assert_eq!(job.progress(), (0, 512));
    assert_eq!(job.next_write(), Some((0, slice(&image, 0))));
}

#[test]
fn fast_write_advances() {
    let mut job = FlashJob::new(patterned_image()).unwrap();
    assert_eq!(job.record(0, FAST), Ok(WriteReport { page: 0, slow: false, next: 1 }));
    assert_eq!(job.progress(), (1, 512));
}

#[test]
fn write_at_the_threshold_is_not_slow() {
    let mut job = FlashJob::new(patterned_image()).unwrap();
    assert_eq!(job.record(0, MAX_PAGE_NANOS), Ok(WriteReport { page: 0, slow: false, next: 1 }));
    assert_eq!(
        job.record(0, MAX_PAGE_NANOS + 1),
        Ok(WriteReport { page: 1, slow: true, next: 0 })
    );
}

#[test]
fn slow_first_page_resumes_from_the_first_page() {
    let mut job = FlashJob::new(patterned_image()).unwrap();
    assert_eq!(job.record(0, SLOW), Ok(WriteReport { page: 0, slow: true, next: 0 }));
    assert_eq!(job.progress(), (0, 512));
    assert_eq!(job.next_write().unwrap().0, 0);
}

#[test]
fn failed_write_abandons_and_keeps_the_job() {
    let mut job = FlashJob::new(patterned_image()).unwrap();
    job.record(0, FAST).unwrap();
    job.record(0, FAST).unwrap();
    assert_eq!(job.record(-1, FAST), Err(TransferError::PageWriteFailed { index: 2 }));
    assert_eq!(job.record(-5, SLOW), Err(TransferError::PageWriteFailed { index: 2 }));
    assert_eq!(job.progress(), (2, 512));
}

#[test]
fn flash_writes_each_page_once_in_order() {
    let image = patterned_image();
    let mut device = EchoDevice::new();
    let progress = flash(image.clone(), &mut device, |_| FAST);
    assert_eq!(device.writes, (0..512).collect::<Vec<u32>>());
    assert_eq!(progress, (1..=512).map(|done| (done, 512)).collect::<Vec<(u32, u32)>>());
    for i in 0..PAGE_NUM {
        assert_eq!(device.pages[i], slice(&image, i));
    }
}

#[test]
fn slow_page_is_written_again_after_the_page_before_it() {
    let mut device = EchoDevice::new();
    // The write numbered 10 is the first write of page 10.
    flash(patterned_image(), &mut device, |n| if n == 10 { SLOW } else { FAST });
    assert_eq!(device.writes[..10], (0..10).collect::<Vec<u32>>()[..]);
    assert_eq!(device.writes[10..14], [10, 9, 10, 11]);
    assert_eq!(device.writes[14..], (12..512).collect::<Vec<u32>>()[..]);
    assert_eq!(device.writes.len(), 514);
}

#[test]
fn flash_covers_every_page_despite_slow_pages() {
    let image = patterned_image();
    let mut device = EchoDevice::new();
    let progress = flash(image.clone(), &mut device, |n| if n % 5 == 0 && n < 900 { SLOW } else { FAST });
    for i in 0..512u32 {
        assert!(device.writes.contains(&i), "page {} was never written", i);
    }
    assert!(device.writes.len() > 512);
    for (done, total) in progress {
        assert!(done <= total);
        assert_eq!(total, 512);
    }
    for i in 0..PAGE_NUM {
        assert_eq!(device.pages[i], slice(&image, i));
    }
}

#[test]
fn progress_after_a_slow_page_goes_down() {
    let mut device = EchoDevice::new();
    let progress = flash(patterned_image(), &mut device, |n| if n == 3 { SLOW } else { FAST });
    assert_eq!(progress[..6], [(1, 512), (2, 512), (3, 512), (2, 512), (3, 512), (4, 512)]);
    assert_eq!(*progress.last().unwrap(), (512, 512));
}

#[test]
fn finished_flash_job_has_nothing_to_write() {
    let mut device = EchoDevice::new();
    let mut job = FlashJob::new(patterned_image()).unwrap();
    while let Some((page, data)) = job.next_write() {
        device.write(page, data);
        job.record(0, FAST).unwrap();
    }
    assert_eq!(job.next_write(), None);
    assert_eq!(job.progress(), (512, 512));
}

#[test]
fn slow_notice_names_both_pages() {
    assert_eq!(slow_notice(10, 9), "Page 10 took a long time to write. Restarting from 9.");
    assert_eq!(slow_notice(0, 0), "Page 0 took a long time to write. Restarting from 0.");
    assert_eq!(slow_notice(511, 510), "Page 511 took a long time to write. Restarting from 510.");
}

#[test]
fn dump_job_starts_empty() {
    let job = DumpJob::new();
    assert_eq!(job.next_read(), Some(0));
    assert_eq!(job.progress(), (0, 512));
    assert_eq!(job.into_image(), Vec::<u8>::new());
}

#[test]
fn dump_job_counts_pages_read() {
    let mut job = DumpJob::new();
    assert_eq!(job.record(0, vec![1u8; PAGE_SIZE]), Ok((1, 512)));
    assert_eq!(job.record(7, vec![2u8; PAGE_SIZE]), Ok((2, 512)));
    assert_eq!(job.next_read(), Some(2));
    assert_eq!(job.progress(), (2, 512));
    let image = job.into_image();
    assert_eq!(image.len(), 2 * PAGE_SIZE);
    assert_eq!(image[..PAGE_SIZE], vec![1u8; PAGE_SIZE][..]);
    assert_eq!(image[PAGE_SIZE..], vec![2u8; PAGE_SIZE][..]);
}

#[test]
fn failed_read_abandons_and_keeps_the_job() {
    let mut job = DumpJob::new();
    job.record(0, vec![1u8; PAGE_SIZE]).unwrap();
    assert_eq!(job.record(-1, vec![2u8; PAGE_SIZE]), Err(TransferError::PageReadFailed { index: 1 }));
    assert_eq!(job.record(0, vec![2u8; 17]), Err(TransferError::PageReadFailed { index: 1 }));
    assert_eq!(job.progress(), (1, 512));
    assert_eq!(job.into_image(), vec![1u8; PAGE_SIZE]);
}

#[test]
fn dump_holds_what_each_read_returned() {
    let mut device = EchoDevice::new();
    for i in 0..PAGE_NUM {
        device.pages[i] = vec![(i % 200) as u8; PAGE_SIZE];
    }
    let image = dump(&device);
    assert_eq!(image.len(), FLASH_FILE_SIZE);
    for i in 0..PAGE_NUM {
        assert_eq!(slice(&image, i), device.pages[i]);
    }
}

#[test]
fn dump_after_flash_gives_the_image_back() {
    let image = patterned_image();
    let mut device = EchoDevice::new();
    flash(image.clone(), &mut device, |n| if n == 10 || n == 200 || n == 201 { SLOW } else { FAST });
    assert!(dump(&device) == image);
}
