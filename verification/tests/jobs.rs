use ellefuanti::jobs::{Job, JobSlots};
use std::cell::RefCell;
use std::rc::Rc;

struct FakeTask {
    job: Job,
    cancelled: Rc<RefCell<Vec<Job>>>,
}

impl Drop for FakeTask {
    fn drop(&mut self) {
        self.cancelled.borrow_mut().push(self.job);
    }
}

struct Harness {
    slots: JobSlots<FakeTask>,
    cancelled: Rc<RefCell<Vec<Job>>>,
}

impl Harness {
    fn new() -> Self {
        Self { slots: JobSlots::default(), cancelled: Rc::new(RefCell::new(Vec::new())) }
    }

    fn start(&mut self, job: Job) {
        let task = FakeTask { job, cancelled: self.cancelled.clone() };
        self.slots.start(job, task);
    }

    fn cancelled(&self) -> Vec<Job> {
        self.cancelled.borrow().clone()
    }
}

#[test]
fn starting_a_save_does_not_cancel_an_in_flight_folder_load() {
    let mut h = Harness::new();
    h.start(Job::OpenFolder);
    h.start(Job::Save);
    assert!(h.cancelled().is_empty(), "unrelated work must survive: {:?}", h.cancelled());
}

#[test]
fn starting_a_folder_load_does_not_cancel_an_in_flight_save() {
    let mut h = Harness::new();
    h.start(Job::Save);
    h.start(Job::OpenFolder);
    assert!(h.cancelled().is_empty(), "the save must survive: {:?}", h.cancelled());
}

#[test]
fn opening_a_file_does_not_cancel_a_quick_open_walk() {
    let mut h = Harness::new();
    h.start(Job::QuickOpenIndex);
    h.start(Job::OpenFile);
    assert!(h.cancelled().is_empty());
}

#[test]
fn a_close_prompt_survives_every_other_operation() {
    let mut h = Harness::new();
    h.start(Job::ClosePrompt);
    h.start(Job::Save);
    h.start(Job::OpenFolder);
    h.start(Job::OpenFile);
    h.start(Job::QuickOpenIndex);
    assert!(h.cancelled().is_empty(), "{:?}", h.cancelled());
}

#[test]
fn a_second_request_of_the_same_kind_cancels_the_first() {
    let mut h = Harness::new();
    h.start(Job::OpenFolder);
    h.start(Job::OpenFolder);
    assert_eq!(h.cancelled(), vec![Job::OpenFolder]);
}

#[test]
fn cancelling_a_job_drops_only_that_job() {
    let mut h = Harness::new();
    h.start(Job::QuickOpenIndex);
    h.start(Job::Save);
    h.slots.cancel(Job::QuickOpenIndex);
    assert_eq!(h.cancelled(), vec![Job::QuickOpenIndex]);
}

#[test]
fn cancelling_a_job_that_is_not_running_is_a_no_op() {
    let mut h = Harness::new();
    h.slots.cancel(Job::QuickOpenIndex);
    assert!(h.cancelled().is_empty());
}

#[test]
fn every_job_gets_its_own_slot() {
    let mut h = Harness::new();
    let all = [
        Job::OpenFolder,
        Job::OpenFile,
        Job::Save,
        Job::QuickOpenIndex,
        Job::ClosePrompt,
        Job::Lsp,
        Job::TestRun,
    ];
    for job in all {
        h.start(job);
    }
    assert_eq!(h.slots.slots.len(), all.len());
    assert!(h.cancelled().is_empty());
}

#[test]
fn starting_a_language_server_cancels_only_the_previous_one() {
    let mut h = Harness::new();
    h.start(Job::Save);
    h.start(Job::Lsp);
    h.start(Job::QuickOpenIndex);
    assert!(h.cancelled().is_empty());

    h.start(Job::Lsp);
    assert_eq!(h.cancelled(), vec![Job::Lsp]);
}

#[test]
fn nothing_the_user_does_while_a_suite_runs_cancels_it() {
    let mut h = Harness::new();
    h.start(Job::TestRun);

    for job in [Job::Save, Job::OpenFile, Job::QuickOpenIndex, Job::Lsp, Job::OpenFolder] {
        h.start(job);
    }
    assert!(
        !h.cancelled().contains(&Job::TestRun),
        "a test run was cancelled by unrelated work: {:?}",
        h.cancelled()
    );

    h.start(Job::TestRun);
    assert_eq!(h.cancelled(), vec![Job::TestRun]);
}

fn order(h: &Harness) -> Vec<Job> {
    h.slots.slots.iter().map(|slot| slot.0).collect()
}

#[test]
fn the_other_slots_keep_their_order() {
    let mut h = Harness::new();
    for job in [Job::OpenFolder, Job::Save, Job::Lsp, Job::TestRun] {
        h.start(job);
    }
    h.start(Job::Save);
    assert_eq!(order(&h), vec![Job::OpenFolder, Job::Save, Job::Lsp, Job::TestRun]);
    h.slots.cancel(Job::OpenFolder);
    assert_eq!(order(&h), vec![Job::Save, Job::Lsp, Job::TestRun]);
    h.slots.cancel(Job::OpenFolder);
    assert_eq!(order(&h), vec![Job::Save, Job::Lsp, Job::TestRun]);
    h.start(Job::OpenFolder);
    assert_eq!(order(&h), vec![Job::Save, Job::Lsp, Job::TestRun, Job::OpenFolder]);
}
