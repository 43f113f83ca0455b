use miuchiz_usb::error::TransferError;
use miuchiz_usb::handheld::{HandheldSet, PageRequest};
use miuchiz_usb::image::{slice, FLASH_FILE_SIZE, PAGE_NUM, PAGE_SIZE};
use miuchiz_usb::process::{Mailbox, MiuchizProcess};
use miuchiz_usb::protocol::{Action, Event};
use miuchiz_usb::worker::{conclusion, Worker, POLL_MILLIS};
use std::collections::HashMap;

const FAST: u128 = 2_000_000;
const SLOW: u128 = 3_500_000_000;

fn patterned_image() -> Vec<u8> {
    let mut image = Vec::with_capacity(FLASH_FILE_SIZE);
    for i in 0..FLASH_FILE_SIZE {
        image.push(((i / PAGE_SIZE) as u8).wrapping_mul(5) ^ ((i % 241) as u8));
    }
    image
}

fn flashing(file: &str, device: &str) -> MiuchizProcess {
    MiuchizProcess::Flashing { file: file.to_string(), device: device.to_string() }
}

fn reading(file: &str, device: &str) -> MiuchizProcess {
    MiuchizProcess::Reading { file: file.to_string(), device: device.to_string() }
}

/// A host that carries out the worker's actions against handhelds kept in
/// memory, and that records all of them.
struct Host {
    names: Vec<Vec<u8>>,
    memory: Vec<Vec<Vec<u8>>>,
    files: HashMap<String, Vec<u8>>,
    sink_fails: bool,
    mailbox: Mailbox,
    driver_listens: bool,
    slow_writes: Vec<usize>,
    failing_write: Option<usize>,
    failing_read: Option<usize>,
    actions: Vec<Action>,
    states: Vec<MiuchizProcess>,
    lists: Vec<Vec<String>>,
    statuses: Vec<String>,
    progress: Vec<(u32, u32)>,
    pauses: Vec<u64>,
    writes: Vec<(usize, u32)>,
    reads: Vec<(usize, u32)>,
    polls: usize,
}

impl Host {
    fn new(names: &[&str]) -> Host {
        Host {
            names: names.iter().map(|name| name.as_bytes().to_vec()).collect(),
            memory: names.iter().map(|_| vec![vec![0x5au8; PAGE_SIZE]; PAGE_NUM + 1]).collect(),
            files: HashMap::new(),
            sink_fails: false,
            mailbox: Mailbox::new(),
            driver_listens: true,
            slow_writes: Vec::new(),
            failing_write: None,
            failing_read: None,
            actions: Vec::new(),
            states: Vec::new(),
            lists: Vec::new(),
            statuses: Vec::new(),
            progress: Vec::new(),
            pauses: Vec::new(),
            writes: Vec::new(),
            reads: Vec::new(),
            polls: 0,
        }
    }

    fn perform(&mut self, action: &Action) -> Event {
        match action {
            Action::PollCommand => {
                self.polls += 1;
                Event::Command(self.mailbox.take())
            }
            Action::ReportState(state) => {
                self.states.push(state.clone());
                Event::Delivered(self.driver_listens)
            }
            Action::Enumerate => Event::Handhelds(HandheldSet::new(self.names.clone())),
            Action::ReportHandhelds(list) => {
                self.lists.push(list.clone());
                Event::Delivered(self.driver_listens)
            }
            Action::Pause(millis) => {
                self.pauses.push(*millis);
                Event::Resumed
            }
            Action::ReportStatus(text) => {
                self.statuses.push(text.clone());
                Event::Delivered(self.driver_listens)
            }
            Action::ReportProgress(done, total) => {
                self.progress.push((*done, *total));
                Event::Delivered(self.driver_listens)
            }
            Action::LoadSource(file) => Event::Source(self.files.get(file).cloned()),
            Action::Transfer(PageRequest::Write { handle, page, data }) => {
                let n = self.writes.len();
                self.writes.push((*handle, *page));
                if self.failing_write == Some(n) {
                    return Event::PageWritten { code: -1, elapsed_nanos: FAST };
                }
                self.memory[*handle][*page as usize] = data.clone();
                let elapsed_nanos = if self.slow_writes.contains(&n) { SLOW } else { FAST };
                Event::PageWritten { code: 0, elapsed_nanos }
            }
            Action::Transfer(PageRequest::Read { handle, page }) => {
                let n = self.reads.len();
                self.reads.push((*handle, *page));
                if self.failing_read == Some(n) {
                    return Event::PageRead { code: -1, data: vec![0u8; PAGE_SIZE] };
                }
                Event::PageRead { code: 0, data: self.memory[*handle][*page as usize].clone() }
            }
            Action::StoreSink(file, image) => {
                if self.sink_fails {
                    Event::Stored(false)
                } else {
                    self.files.insert(file.clone(), image.clone());
                    Event::Stored(true)
                }
            }
            Action::Stop => panic!("a stopped worker was run"),
        }
    }

    /// Runs the worker until it has looked into the mailbox `rounds` more
    /// times and is about to look again, or has stopped.
    fn run(&mut self, mut worker: Worker, rounds: usize) -> Worker {
        let until = self.polls + rounds;
        loop {
            let action = worker.action();
            if action == Action::Stop || (action == Action::PollCommand && self.polls == until) {
                return worker;
            }
            let event = self.perform(&action);
            self.actions.push(action);
            worker = worker.advance(event);
        }
    }
}

#[test]
fn poll_interval_is_as_configured() {
    assert_eq!(POLL_MILLIS, 250);
}

#[test]
fn conclusion_tells_success_and_failure() {
    assert_eq!(conclusion(true, &Ok(())), "Finished writing to handheld.");
    assert_eq!(conclusion(false, &Ok(())), "Finished reading handheld.");
    assert_eq!(conclusion(true, &Err(TransferError::PageWriteFailed { index: 1 })), "Error writing page");
    assert_eq!(conclusion(false, &Err(TransferError::UnwritableSink)), "Unable to write to file.");
}

#[test]
fn new_worker_looks_into_the_mailbox() {
    let worker = Worker::new();
    assert!(!worker.is_stopped());
    assert_eq!(worker.action(), Action::PollCommand);
}

#[test]
fn idle_worker_watches_for_handhelds() {
    let mut host = Host::new(&["/dev/sdb", "/dev/sdc"]);
    let worker = host.run(Worker::new(), 1);
    assert_eq!(
        host.actions,
        vec![
            Action::PollCommand,
            Action::ReportState(MiuchizProcess::WatchingForHandhelds),
            Action::Enumerate,
            Action::ReportHandhelds(vec!["/dev/sdb".to_string(), "/dev/sdc".to_string()]),
            Action::Pause(250),
        ]
    );
    assert_eq!(worker.action(), Action::PollCommand);
}

#[test]
fn watching_goes_round_and_round() {
    let mut host = Host::new(&["/dev/sdb"]);
    let worker = host.run(Worker::new(), 2);
    host.names.clear();
    host.run(worker, 1);
    assert_eq!(host.states, vec![MiuchizProcess::WatchingForHandhelds; 3]);
    assert_eq!(host.lists, vec![vec!["/dev/sdb".to_string()], vec!["/dev/sdb".to_string()], vec![]]);
    assert_eq!(host.pauses, vec![250, 250, 250]);
    assert!(host.statuses.is_empty());
    assert!(host.progress.is_empty());
}

#[test]
fn event_that_answers_nothing_is_ignored() {
    let worker = Worker::new();
    let worker = worker.advance(Event::Resumed);
    assert_eq!(worker.action(), Action::PollCommand);
    let worker = worker.advance(Event::Delivered(false));
    assert_eq!(worker.action(), Action::PollCommand);
    let worker = worker.advance(Event::Command(None));
    assert_eq!(worker.action(), Action::ReportState(MiuchizProcess::WatchingForHandhelds));
    let worker = worker.advance(Event::Command(Some(flashing("f", "d"))));
    assert_eq!(worker.action(), Action::ReportState(MiuchizProcess::WatchingForHandhelds));
    let worker = worker.advance(Event::Delivered(true));
    assert_eq!(worker.action(), Action::Enumerate);
    let worker = worker.advance(Event::Stored(true));
    assert_eq!(worker.action(), Action::Enumerate);
}

#[test]
fn worker_stops_when_the_state_cannot_be_sent() {
    let mut host = Host::new(&["/dev/sdb"]);
    host.driver_listens = false;
    let worker = host.run(Worker::new(), 5);
    assert!(worker.is_stopped());
    assert_eq!(worker.action(), Action::Stop);
    assert_eq!(
        host.actions,
        vec![Action::PollCommand, Action::ReportState(MiuchizProcess::WatchingForHandhelds)]
    );
    let worker = worker.advance(Event::Command(Some(flashing("f", "d"))));
    assert!(worker.is_stopped());
}

#[test]
fn worker_stops_when_the_list_cannot_be_sent() {
    let worker = Worker::new()
        .advance(Event::Command(None))
        .advance(Event::Delivered(true))
        .advance(Event::Handhelds(HandheldSet::new(Vec::new())));
    assert_eq!(worker.action(), Action::ReportHandhelds(Vec::new()));
    let worker = worker.advance(Event::Delivered(false));
    assert!(worker.is_stopped());
}

#[test]
fn flashing_writes_the_image_and_ejects() {
    let image = patterned_image();
    let mut host = Host::new(&["/dev/sdb", "/dev/sdc"]);
    host.files.insert("image.bin".to_string(), image.clone());
    host.mailbox.post(flashing("image.bin", "/dev/sdc"));
    let worker = host.run(Worker::new(), 1);

    assert_eq!(host.states, vec![flashing("image.bin", "/dev/sdc")]);
    assert_eq!(host.statuses, vec!["OK", "Finished writing to handheld."]);
    assert_eq!(host.writes, (0..512).map(|page| (1, page)).collect::<Vec<(usize, u32)>>());
    assert_eq!(host.reads, vec![(1, 0x200)]);
    assert_eq!(host.progress, (1..=512).map(|done| (done, 512)).collect::<Vec<(u32, u32)>>());
    assert!(host.pauses.is_empty());
    for i in 0..PAGE_NUM {
        assert_eq!(host.memory[1][i], slice(&image, i));
        assert_eq!(host.memory[0][i], vec![0x5au8; PAGE_SIZE]);
    }
    assert_eq!(host.actions[..4], [
        Action::PollCommand,
        Action::ReportState(flashing("image.bin", "/dev/sdc")),
        Action::ReportStatus("OK".to_string()),
        Action::LoadSource("image.bin".to_string()),
    ]);
    assert_eq!(host.actions[4], Action::Enumerate);
    assert_eq!(
        host.actions[5],
        Action::Transfer(PageRequest::Write { handle: 1, page: 0, data: slice(&image, 0) })
    );
    assert_eq!(host.actions[6], Action::ReportProgress(1, 512));

    // One-shot: the next round watches again.
    assert_eq!(worker.action(), Action::PollCommand);
    host.run(worker, 1);
    assert_eq!(*host.states.last().unwrap(), MiuchizProcess::WatchingForHandhelds);
    assert_eq!(host.lists.len(), 1);
}

#[test]
fn unreadable_source_fails_the_flashing() {
    let mut host = Host::new(&["/dev/sdb"]);
    host.mailbox.post(flashing("missing.bin", "/dev/sdb"));
    let worker = host.run(Worker::new(), 1);
    assert_eq!(host.statuses, vec!["OK", "Unable to read file."]);
    assert!(host.writes.is_empty());
    assert!(host.reads.is_empty());
    assert!(host.progress.is_empty());
    assert_eq!(worker.action(), Action::PollCommand);
}

#[test]
fn wrong_size_fails_before_any_write() {
    for len in [0usize, 4096, FLASH_FILE_SIZE - 1, FLASH_FILE_SIZE + 1] {
        let mut host = Host::new(&["/dev/sdb"]);
        host.files.insert("image.bin".to_string(), vec![7u8; len]);
        host.mailbox.post(flashing("image.bin", "/dev/sdb"));
        let worker = host.run(Worker::new(), 1);
        assert_eq!(host.statuses, vec!["OK", "Flash file is not the correct size (2097152)."]);
        assert!(host.writes.is_empty());
        assert!(host.reads.is_empty());
        assert!(!host.actions.contains(&Action::Enumerate));
        assert_eq!(worker.action(), Action::PollCommand);
    }
}

#[test]
fn flashing_an_absent_handheld_finds_no_device() {
    let mut host = Host::new(&["/dev/sdb"]);
    host.files.insert("image.bin".to_string(), patterned_image());
    host.mailbox.post(flashing("image.bin", "/dev/sdz"));
    host.run(Worker::new(), 1);
    assert_eq!(host.statuses, vec!["OK", "Could not find handheld"]);
    assert!(host.writes.is_empty());
    assert!(host.reads.is_empty());
}

#[test]
fn failed_write_abandons_the_flashing() {
    let mut host = Host::new(&["/dev/sdb"]);
    host.files.insert("image.bin".to_string(), patterned_image());
    host.failing_write = Some(3);
    host.mailbox.post(flashing("image.bin", "/dev/sdb"));
    let worker = host.run(Worker::new(), 1);
    assert_eq!(host.statuses, vec!["OK", "Error writing page"]);
    assert_eq!(host.writes, vec![(0, 0), (0, 1), (0, 2), (0, 3)]);
    assert_eq!(host.progress, vec![(1, 512), (2, 512), (3, 512)]);
    assert!(host.reads.is_empty());
    assert_eq!(worker.action(), Action::PollCommand);
}

#[test]
fn slow_page_rewinds_one_page() {
    let image = patterned_image();
    let mut host = Host::new(&["/dev/sdb"]);
    host.files.insert("image.bin".to_string(), image.clone());
    host.slow_writes = vec![10];
    host.mailbox.post(flashing("image.bin", "/dev/sdb"));
    host.run(Worker::new(), 1);

    let pages: Vec<u32> = host.writes.iter().map(|write| write.1).collect();
    assert_eq!(pages[..10], (0..10).collect::<Vec<u32>>()[..]);
    assert_eq!(pages[10..14], [10, 9, 10, 11]);
    assert_eq!(pages[14..], (12..512).collect::<Vec<u32>>()[..]);
    assert_eq!(
        host.statuses,
        vec![
            "OK",
            "Page 10 took a long time to write. Restarting from 9.",
            "Finished writing to handheld.",
        ]
    );
    assert_eq!(host.pauses, vec![1000]);
    assert_eq!(host.progress[9..13], [(10, 512), (9, 512), (10, 512), (11, 512)]);
    for i in 0..PAGE_NUM {
        assert_eq!(host.memory[0][i], slice(&image, i));
    }

    // The notice comes before the pause, the pause before the progress.
    let at = host
        .actions
        .iter()
        .position(|action| matches!(action, Action::ReportStatus(text) if text.starts_with("Page 10")))
        .unwrap();
    assert!(matches!(host.actions[at - 1], Action::Transfer(PageRequest::Write { page: 10, .. })));
    assert_eq!(host.actions[at + 1], Action::Pause(1000));
    assert_eq!(host.actions[at + 2], Action::ReportProgress(9, 512));
    assert!(matches!(host.actions[at + 3], Action::Transfer(PageRequest::Write { page: 9, .. })));
}

#[test]
fn slow_first_page_is_written_again() {
    let mut host = Host::new(&["/dev/sdb"]);
    host.files.insert("image.bin".to_string(), patterned_image());
    host.slow_writes = vec![0, 1];
    host.mailbox.post(flashing("image.bin", "/dev/sdb"));
    host.run(Worker::new(), 1);
    let pages: Vec<u32> = host.writes.iter().map(|write| write.1).collect();
    assert_eq!(pages[..4], [0, 0, 0, 1]);
    assert_eq!(host.statuses[1], "Page 0 took a long time to write. Restarting from 0.");
    assert_eq!(host.statuses[2], "Page 0 took a long time to write. Restarting from 0.");
    assert_eq!(host.progress[..3], [(0, 512), (0, 512), (1, 512)]);
}

#[test]
fn every_progress_value_is_within_bounds() {
    let mut host = Host::new(&["/dev/sdb"]);
    host.files.insert("image.bin".to_string(), patterned_image());
    host.slow_writes = (0..600).filter(|n| n % 3 == 0).collect();
    host.mailbox.post(flashing("image.bin", "/dev/sdb"));
    let worker = host.run(Worker::new(), 1);
    host.mailbox.post(reading("dump.bin", "/dev/sdb"));
    host.run(worker, 1);
    assert!(host.progress.len() > 1024);
    for (done, total) in &host.progress {
        assert!(done <= total);
        assert_eq!(*total, 512);
    }
    let pages: Vec<u32> = host.writes.iter().map(|write| write.1).collect();
    for page in 0..512u32 {
        assert!(pages.contains(&page));
    }
}

#[test]
fn flashing_goes_on_without_a_listening_driver() {
    let mut worker = Worker::new()
        .advance(Event::Command(Some(flashing("image.bin", "/dev/sdb"))))
        .advance(Event::Delivered(true));
    assert_eq!(worker.action(), Action::ReportStatus("OK".to_string()));
    worker = worker.advance(Event::Delivered(false));
    assert_eq!(worker.action(), Action::LoadSource("image.bin".to_string()));
    worker = worker.advance(Event::Source(None));
    assert_eq!(worker.action(), Action::ReportStatus("Unable to read file.".to_string()));
    worker = worker.advance(Event::Delivered(false));
    assert!(!worker.is_stopped());
    assert_eq!(worker.action(), Action::PollCommand);
}

#[test]
fn flashing_ends_well_when_the_handheld_is_gone_at_the_end() {
    let mut host = Host::new(&["/dev/sdb"]);
    host.files.insert("image.bin".to_string(), patterned_image());
    host.mailbox.post(flashing("image.bin", "/dev/sdb"));
    let mut worker = Worker::new();
    loop {
        let action = worker.action();
        if action == Action::ReportProgress(512, 512) {
            break;
        }
        let event = host.perform(&action);
        worker = worker.advance(event);
    }
    // The set that the flashing holds is the one enumerated at its start.
    worker = worker.advance(Event::Delivered(true));
    assert_eq!(worker.action(), Action::Transfer(PageRequest::Read { handle: 0, page: 512 }));
    worker = worker.advance(Event::PageRead { code: -1, data: Vec::new() });
    assert_eq!(worker.action(), Action::ReportStatus("Finished writing to handheld.".to_string()));
}

#[test]
fn dumping_reads_every_page_and_stores_the_image() {
    let mut host = Host::new(&["/dev/sdb", "/dev/sdc"]);
    for i in 0..PAGE_NUM {
        host.memory[1][i] = vec![(i % 199) as u8; PAGE_SIZE];
    }
    host.mailbox.post(reading("dump.bin", "/dev/sdc"));
    let worker = host.run(Worker::new(), 1);

    assert_eq!(host.states, vec![reading("dump.bin", "/dev/sdc")]);
    assert_eq!(host.statuses, vec!["OK", "Finished reading handheld."]);
    assert_eq!(host.reads, (0..512).map(|page| (1, page)).collect::<Vec<(usize, u32)>>());
    assert!(host.writes.is_empty());
    assert_eq!(host.progress, (1..=512).map(|done| (done, 512)).collect::<Vec<(u32, u32)>>());
    let image = host.files.get("dump.bin").unwrap();
    assert_eq!(image.len(), FLASH_FILE_SIZE);
    for i in 0..PAGE_NUM {
        assert_eq!(slice(image, i), host.memory[1][i]);
    }
    assert_eq!(worker.action(), Action::PollCommand);
}

#[test]
fn dumping_an_absent_handheld_finds_no_device() {
    let mut host = Host::new(&[]);
    host.mailbox.post(reading("dump.bin", "/dev/sdb"));
    host.run(Worker::new(), 1);
    assert_eq!(host.statuses, vec!["OK", "Could not find handheld"]);
    assert!(host.reads.is_empty());
    assert!(host.files.is_empty());
}

#[test]
fn failed_read_abandons_the_dumping() {
    let mut host = Host::new(&["/dev/sdb"]);
    host.failing_read = Some(2);
    host.mailbox.post(reading("dump.bin", "/dev/sdb"));
    host.run(Worker::new(), 1);
    assert_eq!(host.statuses, vec!["OK", "Error reading page"]);
    assert_eq!(host.reads, vec![(0, 0), (0, 1), (0, 2)]);
    assert_eq!(host.progress, vec![(1, 512), (2, 512)]);
    assert!(host.files.is_empty());
}

#[test]
fn short_read_abandons_the_dumping() {
    let worker = Worker::new()
        .advance(Event::Command(Some(reading("dump.bin", "/dev/sdb"))))
        .advance(Event::Delivered(true))
        .advance(Event::Delivered(true))
        .advance(Event::Handhelds(HandheldSet::new(vec![b"/dev/sdb".to_vec()])));
    assert_eq!(worker.action(), Action::Transfer(PageRequest::Read { handle: 0, page: 0 }));
    let worker = worker.advance(Event::PageRead { code: 0, data: vec![0u8; 100] });
    assert_eq!(worker.action(), Action::ReportStatus("Error reading page".to_string()));
}

#[test]
fn unwritable_sink_fails_the_dumping() {
    let mut host = Host::new(&["/dev/sdb"]);
    host.sink_fails = true;
    host.mailbox.post(reading("dump.bin", "/dev/sdb"));
    host.run(Worker::new(), 1);
    assert_eq!(host.statuses, vec!["OK", "Unable to write to file."]);
    assert_eq!(host.reads.len(), 512);
}

#[test]
fn dump_after_flash_is_the_image() {
    let image = patterned_image();
    let mut host = Host::new(&["/dev/sdb"]);
    host.files.insert("image.bin".to_string(), image.clone());
    host.slow_writes = vec![10, 11, 300];
    host.mailbox.post(flashing("image.bin", "/dev/sdb"));
    let worker = host.run(Worker::new(), 1);
    host.mailbox.post(reading("dump.bin", "/dev/sdb"));
    host.run(worker, 1);
    assert!(*host.files.get("dump.bin").unwrap() == image);
}

#[test]
fn only_the_latest_command_starts() {
    let mut host = Host::new(&["/dev/sdb"]);
    host.files.insert("image.bin".to_string(), patterned_image());
    host.mailbox.post(flashing("image.bin", "/dev/sdb"));
    host.mailbox.post(reading("dump.bin", "/dev/sdb"));
    let worker = host.run(Worker::new(), 3);
    assert_eq!(
        host.states,
        vec![
            reading("dump.bin", "/dev/sdb"),
            MiuchizProcess::WatchingForHandhelds,
            MiuchizProcess::WatchingForHandhelds,
        ]
    );
    assert!(host.writes.is_empty());
    assert!(!host.actions.contains(&Action::LoadSource("image.bin".to_string())));
    assert_eq!(host.reads.len(), 512);
    assert_eq!(worker.action(), Action::PollCommand);
}

#[test]
fn command_posted_during_a_transfer_runs_next() {
    let mut host = Host::new(&["/dev/sdb"]);
    host.mailbox.post(reading("first.bin", "/dev/sdb"));
    let mut worker = Worker::new();
    let mut posted = false;
    loop {
        let action = worker.action();
        if action == Action::PollCommand && host.polls == 2 {
            break;
        }
        if !posted && action == Action::ReportProgress(100, 512) {
            host.mailbox.post(reading("second.bin", "/dev/sdb"));
            posted = true;
        }
        let event = host.perform(&action);
        worker = worker.advance(event);
    }
    assert_eq!(host.states, vec![reading("first.bin", "/dev/sdb"), reading("second.bin", "/dev/sdb")]);
    assert!(host.files.contains_key("first.bin"));
    assert!(host.files.contains_key("second.bin"));
    assert!(host.lists.is_empty());
}
