use openless::platform::TargetOs;
use openless::selection::{ClipboardPoll, SelectionCaptureMissReason};
use openless::simulated_copy::{copy_step, CopyReply, CopyStage, CopyStep};

/// A clipboard, and an application that copies into it some time after the shortcut.
struct Machine {
    opens: bool,
    holds: Option<String>,
    writable: bool,
    selection: Option<String>,
    posts: bool,
    /// The post that the application hears.
    heard_post: u32,
    posted: u32,
    now: u64,
    since: u64,
    written: Vec<String>,
}

fn machine(holds: Option<&str>, selection: Option<&str>) -> Machine {
    Machine {
        opens: true,
        holds: holds.map(str::to_string),
        writable: true,
        selection: selection.map(str::to_string),
        posts: true,
        heard_post: 1,
        posted: 0,
        now: 0,
        since: 0,
        written: Vec::new(),
    }
}

impl Machine {
    fn write(&mut self, text: &str) -> bool {
        if self.writable {
            self.written.push(text.to_string());
            self.holds = Some(text.to_string());
        }
        self.writable
    }

    fn post(&mut self) -> bool {
        self.posted += 1;
        if self.posts && self.posted == self.heard_post {
            if let Some(selection) = &self.selection {
                self.holds = Some(selection.clone());
            }
        }
        self.posts
    }

    fn answer(&mut self, stage: &CopyStage) -> CopyReply {
        match stage {
            CopyStage::Opening => CopyReply::Opened(self.opens),
            CopyStage::ReadingOriginal => {
                CopyReply::Original { text: self.holds.clone(), nanos: 255 }
            }
            CopyStage::WritingSentinel(backup) => {
                assert_eq!(backup.sentinel, "__openless_qa_sentinel_ff__");
                CopyReply::Written(self.write(&backup.sentinel))
            }
            CopyStage::CountingChanges(_) => {
                self.since = self.now;
                CopyReply::Changes(1)
            }
            CopyStage::TimingSettle { pause_ms, .. } | CopyStage::TimingPoll { pause_ms, .. } => {
                self.now += pause_ms;
                CopyReply::Elapsed(self.now - self.since)
            }
            CopyStage::TimingResend { .. } => CopyReply::Elapsed(self.now - self.since),
            CopyStage::LookingAtClipboard { .. } => CopyReply::Look { is_free: true, changes: 1 },
            CopyStage::Posting(_) => {
                let posted = self.post();
                self.since = self.now;
                CopyReply::Posted(posted)
            }
            CopyStage::Resending { .. } => CopyReply::Posted(self.post()),
            CopyStage::ReadingCopy { pause_ms, .. } => {
                self.now += pause_ms;
                CopyReply::Text(self.holds.clone())
            }
            CopyStage::Restoring { text, .. } => CopyReply::Written(self.write(text)),
        }
    }

    fn run(&mut self, target: TargetOs) -> Result<String, SelectionCaptureMissReason> {
        let mut stage = CopyStage::Opening;
        loop {
            let reply = self.answer(&stage);
            match copy_step(stage, reply, target) {
                CopyStep::Ask(next) => stage = next,
                CopyStep::Done(result) => return result,
            }
        }
    }
}

#[test]
fn the_clipboard_is_put_back_after_a_copy() {
    for target in [TargetOs::Windows, TargetOs::Macos] {
        let mut machine = machine(Some("mine"), Some("selected"));
        assert_eq!(machine.run(target), Ok("selected".to_string()));
        assert_eq!(machine.holds.as_deref(), Some("mine"));
        assert_eq!(machine.written, vec!["__openless_qa_sentinel_ff__", "mine"]);
        assert_eq!(machine.posted, 1);
    }
}

#[test]
fn an_empty_clipboard_is_emptied_again() {
    let mut machine = machine(None, Some("selected"));
    assert_eq!(machine.run(TargetOs::Macos), Ok("selected".to_string()));
    assert_eq!(machine.holds.as_deref(), Some(""));
    assert_eq!(machine.now, 80);
}

#[test]
fn the_clipboard_is_put_back_when_nothing_was_copied() {
    for target in [TargetOs::Windows, TargetOs::Macos] {
        let mut machine = machine(Some("mine"), None);
        assert_eq!(
            machine.run(target),
            Err(SelectionCaptureMissReason::ClipboardUnchangedSentinel)
        );
        assert_eq!(machine.holds.as_deref(), Some("mine"));
    }
    let mut deaf = machine(Some("mine"), Some("selected"));
    deaf.posts = false;
    assert_eq!(deaf.run(TargetOs::Macos), Err(SelectionCaptureMissReason::CopyShortcutFailed));
    assert_eq!(deaf.holds.as_deref(), Some("mine"));
}

#[test]
fn windows_waits_and_sends_the_copy_once_more() {
    let mut machine = machine(Some("mine"), Some("selected"));
    machine.heard_post = 2;
    assert_eq!(machine.run(TargetOs::Windows), Ok("selected".to_string()));
    assert_eq!(machine.posted, 2);
    assert_eq!(machine.now - machine.since, 175);
    let mut silent = self::machine(Some("mine"), None);
    assert!(silent.run(TargetOs::Windows).is_err());
    assert_eq!(silent.posted, 2);
    assert_eq!(silent.now - silent.since, 450);
    assert_eq!(silent.since, 20);
}

#[test]
fn a_clipboard_that_cannot_be_written_is_left_alone() {
    let mut closed = machine(Some("mine"), Some("selected"));
    closed.opens = false;
    assert_eq!(
        closed.run(TargetOs::Windows),
        Err(SelectionCaptureMissReason::ClipboardInitFailed)
    );
    let mut locked = machine(Some("mine"), Some("selected"));
    locked.writable = false;
    assert_eq!(
        locked.run(TargetOs::Windows),
        Err(SelectionCaptureMissReason::ClipboardSentinelWriteFailed)
    );
    for machine in [closed, locked] {
        assert_eq!(machine.posted, 0);
        assert_eq!(machine.holds.as_deref(), Some("mine"));
    }
}

#[test]
fn the_wait_for_a_copy_has_an_end() {
    let poll = ClipboardPoll::new(true);
    assert!(poll.goes_on(0));
    assert!(poll.goes_on(449));
    assert!(!poll.goes_on(450));
}
