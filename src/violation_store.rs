//! The violation store: an append-only log of observed policy breaches and a
//! broadcast hub that hands every new breach to each subscriber's inbox.

use vstd::prelude::*;
use crate::text::{char_is_whitespace, contains_seq, contains_str, is_white_space, trimmed_end};

verus! {

/// The kind of resource a violation concerns.
#[derive(Debug, Clone, Copy, PartialEq, Eq, Structural)]
pub enum ViolationType {
    /// Network access.
    Network,
    /// Reading a file.
    FilesystemRead,
    /// Writing a file.
    FilesystemWrite,
    /// Reaching a Unix socket.
    UnixSocket,
    /// Anything else.
    Other,
}

/// One observed policy breach.
#[derive(Debug, Clone)]
pub struct Violation {
    /// The kind of resource.
    pub violation_type: ViolationType,
    /// What was reached for (a domain, a file path).
    pub target: String,
    /// The process that made the attempt.
    pub process: String,
    /// When it was observed, in milliseconds since the Unix epoch.
    pub timestamp: u64,
}

/// A violation as plain values.
pub struct ViolationRecord {
    pub kind: ViolationType,
    pub target: Seq<char>,
    pub process: Seq<char>,
    pub timestamp: u64,
}

impl View for Violation {
    type V = ViolationRecord;

    open spec fn view(&self) -> ViolationRecord {
        ViolationRecord {
            kind: self.violation_type,
            target: self.target@,
            process: self.process@,
            timestamp: self.timestamp,
        }
    }
}

impl Violation {
    /// A copy with the same fields.
    pub fn duplicate(&self) -> (r: Violation)
        ensures
            r@ == self@,
    {
        Violation {
            violation_type: self.violation_type,
            target: self.target.clone(),
            process: self.process.clone(),
            timestamp: self.timestamp,
        }
    }
}

/// The views of a list of violations.
pub open spec fn records(v: Seq<Violation>) -> Seq<ViolationRecord> {
    v.map_values(|x: Violation| x@)
}

/// The records of the given kind, in log order.
pub open spec fn of_kind(log: Seq<ViolationRecord>, kind: ViolationType) -> Seq<ViolationRecord> {
    log.filter(|r: ViolationRecord| r.kind == kind)
}

/// The store's state: the log in insertion order, and what each subscriber
/// has been handed and not yet taken.
pub struct StoreState {
    pub log: Seq<ViolationRecord>,
    pub inboxes: Seq<Seq<ViolationRecord>>,
}

/// The state after recording `v`: appended to the log and to every inbox.
pub open spec fn recorded(s: StoreState, v: ViolationRecord) -> StoreState {
    StoreState {
        log: s.log.push(v),
        inboxes: s.inboxes.map_values(|inbox: Seq<ViolationRecord>| inbox.push(v)),
    }
}

/// Stores violations and delivers each new one to every subscriber.
pub struct ViolationStore {
    violations: Vec<Violation>,
    inboxes: Vec<Vec<Violation>>,
}

impl View for ViolationStore {
    type V = StoreState;

    closed spec fn view(&self) -> StoreState {
        StoreState {
            log: records(self.violations@),
            inboxes: self.inboxes@.map_values(|inbox: Vec<Violation>| records(inbox@)),
        }
    }
}

impl ViolationStore {
    /// An empty store with no subscribers.
    pub fn new() -> (r: ViolationStore)
        ensures
            r@.log == Seq::<ViolationRecord>::empty(),
            r@.inboxes == Seq::<Seq<ViolationRecord>>::empty(),
    {
        let r = ViolationStore { violations: Vec::new(), inboxes: Vec::new() };
        assert(r@.log =~= Seq::<ViolationRecord>::empty());
        assert(r@.inboxes =~= Seq::<Seq<ViolationRecord>>::empty());
        r
    }

    /// Appends a violation to the log, then hands it to every subscriber.
    pub fn add_violation(&mut self, violation: Violation)
        ensures
            final(self)@ == recorded(old(self)@, violation@),
    {
        self.violations.push(violation.duplicate());
        assert(records(self.violations@) =~= records(old(self).violations@).push(violation@));
        let n = self.inboxes.len();
        let mut i: usize = 0;
        while i < n
            invariant
                n == self.inboxes@.len(),
                n == old(self).inboxes@.len(),
                i <= n,
                records(self.violations@) == records(old(self).violations@).push(violation@),
                forall|k: int|
                    0 <= k < i ==> records((#[trigger] self.inboxes@[k])@) == records(
                        old(self).inboxes@[k]@,
                    ).push(violation@),
                forall|k: int| i <= k < n ==> #[trigger] self.inboxes@[k] == old(self).inboxes@[k],
            decreases n - i,
        {
            let copy = violation.duplicate();
            self.inboxes[i].push(copy);
            proof {
                assert(records(self.inboxes@[i as int]@) =~= records(old(self).inboxes@[i as int]@).push(
                    violation@,
                ));
            }
            i = i + 1;
        }
        assert(self@.log =~= old(self)@.log.push(violation@));
        assert(self@.inboxes =~= recorded(old(self)@, violation@).inboxes);
    }

    /// Registers a new subscriber and returns its number; from now on it is
    /// handed every violation recorded.
    pub fn subscribe(&mut self) -> (id: usize)
        ensures
            id == old(self)@.inboxes.len(),
            final(self)@.log == old(self)@.log,
            final(self)@.inboxes == old(self)@.inboxes.push(Seq::<ViolationRecord>::empty()),
    {
        let id = self.inboxes.len();
        self.inboxes.push(Vec::new());
        assert(records(self.inboxes@[id as int]@) =~= Seq::<ViolationRecord>::empty());
        assert(self@.inboxes =~= old(self)@.inboxes.push(Seq::<ViolationRecord>::empty()));
        id
    }

    /// Takes what subscriber `id` has been handed since it last took; an
    /// unknown subscriber has nothing.
    pub fn take_notifications(&mut self, id: usize) -> (r: Vec<Violation>)
        ensures
            final(self)@.log == old(self)@.log,
            id < old(self)@.inboxes.len() ==> records(r@) == old(self)@.inboxes[id as int]
                && final(self)@.inboxes == old(self)@.inboxes.update(
                id as int,
                Seq::<ViolationRecord>::empty(),
            ),
            id >= old(self)@.inboxes.len() ==> r@.len() == 0 && final(self)@ == old(self)@,
    {
        if id >= self.inboxes.len() {
            return Vec::new();
        }
        let mut taken: Vec<Violation> = Vec::new();
        std::mem::swap(&mut taken, &mut self.inboxes[id]);
        assert(records(self.inboxes@[id as int]@) =~= Seq::<ViolationRecord>::empty());
        assert(self@.inboxes =~= old(self)@.inboxes.update(id as int, Seq::<ViolationRecord>::empty()));
        taken
    }

    /// Every recorded violation, in the order recorded.
    pub fn get_violations(&self) -> (r: Vec<Violation>)
        ensures
            records(r@) == self@.log,
    {
        let mut out: Vec<Violation> = Vec::new();
        let mut i: usize = 0;
        while i < self.violations.len()
            invariant
                i <= self.violations@.len(),
                out@.len() == i,
                forall|k: int| 0 <= k < i ==> (#[trigger] out@[k])@ == self.violations@[k]@,
            decreases self.violations@.len() - i,
        {
            out.push(self.violations[i].duplicate());
            i = i + 1;
        }
        assert(records(out@) =~= records(self.violations@));
        out
    }

    /// The recorded violations of one kind, in the order recorded.
    pub fn get_violations_by_type(&self, violation_type: ViolationType) -> (r: Vec<Violation>)
        ensures
            records(r@) == of_kind(self@.log, violation_type),
    {
        let mut out: Vec<Violation> = Vec::new();
        let mut i: usize = 0;
        while i < self.violations.len()
            invariant
                i <= self.violations@.len(),
                records(out@) == of_kind(records(self.violations@.subrange(0, i as int)), violation_type),
            decreases self.violations@.len() - i,
        {
            let ghost prefix = records(self.violations@.subrange(0, i as int));
            let ghost next = records(self.violations@.subrange(0, i + 1));
            proof {
                assert(next =~= prefix.push(self.violations@[i as int]@));
                prefix.lemma_filter_push(
                    self.violations@[i as int]@,
                    |r: ViolationRecord| r.kind == violation_type,
                );
            }
            if self.violations[i].violation_type == violation_type {
                out.push(self.violations[i].duplicate());
                assert(records(out@) =~= of_kind(next, violation_type));
            }
            i = i + 1;
        }
        assert(self.violations@.subrange(0, i as int) =~= self.violations@);
        out
    }

    /// Empties the log; subscribers and their inboxes stay.
    pub fn clear(&mut self)
        ensures
            final(self)@.log == Seq::<ViolationRecord>::empty(),
            final(self)@.inboxes == old(self)@.inboxes,
    {
        self.violations.clear();
        assert(self@.log =~= Seq::<ViolationRecord>::empty());
    }

    /// The number of recorded violations.
    pub fn count(&self) -> (r: usize)
        ensures
            r == self@.log.len(),
    {
        self.violations.len()
    }
}

/// Recording a violation grows the count by one, makes a query for its kind
/// contain it, and hands it, once, to every subscriber registered before,
/// after what that subscriber already held.
pub proof fn lemma_record_law(before: StoreState, v: ViolationRecord)
    ensures
        recorded(before, v).log.len() == before.log.len() + 1,
        of_kind(recorded(before, v).log, v.kind).contains(v),
        recorded(before, v).inboxes.len() == before.inboxes.len(),
        forall|i: int|
            0 <= i < before.inboxes.len() ==> #[trigger] recorded(before, v).inboxes[i]
                == before.inboxes[i].push(v),
{
    let pred = |r: ViolationRecord| r.kind == v.kind;
    before.log.lemma_filter_push(v, pred);
    let q = of_kind(recorded(before, v).log, v.kind);
    assert(q[q.len() - 1] == v);
}

/// Where the run of non-white-space characters that ends at `end` begins.
pub open spec fn word_start(s: Seq<char>, end: int) -> int
    decreases end,
{
    if end <= 0 {
        0
    } else if is_white_space(s[end - 1]) {
        end
    } else {
        word_start(s, end - 1)
    }
}

/// The last white-space-separated word of a line, if it has one.
pub open spec fn last_word(s: Seq<char>) -> Option<Seq<char>> {
    let end = trimmed_end(s) as int;
    if end == 0 {
        None
    } else {
        Some(s.subrange(word_start(s, end), end))
    }
}

/// The kind of violation a denial line reports, by the first of these it
/// mentions: file reads, file writes, the network, Unix sockets.
pub open spec fn classify_line(line: Seq<char>) -> ViolationType {
    if contains_seq(line, "file-read"@) {
        ViolationType::FilesystemRead
    } else if contains_seq(line, "file-write"@) {
        ViolationType::FilesystemWrite
    } else if contains_seq(line, "network"@) {
        ViolationType::Network
    } else if contains_seq(line, "unix-socket"@) {
        ViolationType::UnixSocket
    } else {
        ViolationType::Other
    }
}

/// The violation a denial line of the security log describes.
pub open spec fn parsed_violation(line: Seq<char>, timestamp: u64) -> ViolationRecord {
    ViolationRecord {
        kind: classify_line(line),
        target: match last_word(line) {
            Some(w) => w,
            None => "unknown"@,
        },
        process: "sandboxed-process"@,
        timestamp,
    }
}

/// Whether a line of the security log reports a denial.
pub fn is_denial_line(line: &str) -> (r: bool)
    ensures
        r == contains_seq(line@, "deny"@),
{
    contains_str(line, "deny")
}

/// Classifies a denial line by what it mentions.
pub fn classify_violation_line(line: &str) -> (r: ViolationType)
    ensures
        r == classify_line(line@),
{
    if contains_str(line, "file-read") {
        ViolationType::FilesystemRead
    } else if contains_str(line, "file-write") {
        ViolationType::FilesystemWrite
    } else if contains_str(line, "network") {
        ViolationType::Network
    } else if contains_str(line, "unix-socket") {
        ViolationType::UnixSocket
    } else {
        ViolationType::Other
    }
}

/// The last white-space-separated word of a line, if any.
pub fn last_word_of(line: &str) -> (r: Option<String>)
    ensures
        r is Some <==> last_word(line@) is Some,
        r matches Some(w) ==> last_word(line@) == Some(w@),
{
    let n = line.unicode_len();
    let mut end: usize = n;
    assert(line@.subrange(0, n as int) =~= line@);
    while end > 0 && char_is_whitespace(line.get_char(end - 1))
        invariant
            n == line@.len(),
            end <= n,
            trimmed_end(line@.subrange(0, end as int)) == trimmed_end(line@),
        decreases end,
    {
        proof {
            let pre = line@.subrange(0, end as int);
            assert(pre.drop_last() =~= line@.subrange(0, end - 1));
        }
        end = end - 1;
    }
    proof {
        if end > 0 {
            assert(line@.subrange(0, end as int).last() == line@[end - 1]);
        }
        assert(line@.subrange(0, end as int).len() == end);
    }
    if end == 0 {
        proof {
            assert(line@.subrange(0, 0).len() == 0);
        }
        return None;
    }
    let mut start: usize = end;
    while start > 0 && !char_is_whitespace(line.get_char(start - 1))
        invariant
            n == line@.len(),
            0 < end <= n,
            start <= end,
            word_start(line@, start as int) == word_start(line@, end as int),
        decreases start,
    {
        start = start - 1;
    }
    Some(String::from_str(line.substring_char(start, end)))
}

/// Reads a denial line of the security log into a violation.
pub fn parse_violation_line(line: &str, timestamp: u64) -> (r: Violation)
    ensures
        r@ == parsed_violation(line@, timestamp),
{
    let violation_type = classify_violation_line(line);
    let target = match last_word_of(line) {
        Some(w) => w,
        None => String::from_str("unknown"),
    };
    Violation { violation_type, target, process: String::from_str("sandboxed-process"), timestamp }
}

impl ViolationStore {
    /// Reads a denial line of the security log and records the violation it describes.
    pub fn parse_and_add_violation(&mut self, line: &str, timestamp: u64)
        ensures
            final(self)@ == recorded(old(self)@, parsed_violation(line@, timestamp)),
    {
        let violation = parse_violation_line(line, timestamp);
        self.add_violation(violation);
    }
}

} // verus!
