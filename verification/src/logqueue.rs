//! The log queue: an ordered sequence of log entries that rotates on each
//! tick — the front entry moves to the back, nothing is created or destroyed.

use vstd::prelude::*;

verus! {

/// Severity of a log entry.
#[derive(Clone, Copy, Debug, PartialEq, Eq, Structural)]
pub enum Severity {
    Info,
    Warning,
    Error,
    Critical,
}

/// One log entry: a label and its severity.
pub struct LogEntry {
    pub label: String,
    pub severity: Severity,
}

/// Mathematical image of a `LogEntry`.
pub ghost struct LogEntryView {
    pub label: Seq<char>,
    pub severity: Severity,
}

impl View for LogEntry {
    type V = LogEntryView;

    open spec fn view(&self) -> LogEntryView {
        LogEntryView { label: self.label@, severity: self.severity }
    }
}

impl DeepView for LogEntry {
    type V = LogEntryView;

    open spec fn deep_view(&self) -> LogEntryView {
        self@
    }
}

impl Clone for LogEntry {
    fn clone(&self) -> (r: Self)
        ensures
            r == *self,
    {
        LogEntry { label: self.label.clone(), severity: self.severity }
    }
}

/// One rotation step: the front element moves to the back; the empty
/// sequence is left unchanged.
pub open spec fn rotate1<A>(s: Seq<A>) -> Seq<A> {
    if s.len() == 0 {
        s
    } else {
        s.subrange(1, s.len() as int).push(s[0])
    }
}

/// `k` rotation steps.
pub open spec fn rotate_iter<A>(s: Seq<A>, k: nat) -> Seq<A>
    decreases k,
{
    if k == 0 {
        s
    } else {
        rotate1(rotate_iter(s, (k - 1) as nat))
    }
}

proof fn lemma_rotate_iter_split<A>(s: Seq<A>, k: nat)
    requires
        k <= s.len(),
    ensures
        rotate_iter(s, k) =~= s.subrange(k as int, s.len() as int) + s.subrange(0, k as int),
    decreases k,
{
    if k > 0 {
        lemma_rotate_iter_split(s, (k - 1) as nat);
        let t = rotate_iter(s, (k - 1) as nat);
        assert(t =~= s.subrange(k - 1, s.len() as int) + s.subrange(0, k - 1));
        assert(t.len() == s.len());
        assert(t[0] == s[k - 1]);
        assert(rotate_iter(s, k) == rotate1(t));
        assert(rotate1(t) =~= s.subrange(k as int, s.len() as int) + s.subrange(0, k as int));
    }
}

/// One rotation is count-preserving: the entry formerly at the front is now
/// at the back, and every other entry shifts forward by one position.
pub proof fn lemma_rotate_once<A>(s: Seq<A>)
    requires
        s.len() > 0,
    ensures
        rotate1(s).len() == s.len(),
        rotate1(s)[s.len() - 1] == s[0],
        forall|j: int| 0 <= j < s.len() - 1 ==> #[trigger] rotate1(s)[j] == s[j + 1],
{
}

/// Rotating as many times as the sequence is long returns it to its original
/// order.
pub proof fn lemma_rotate_full_cycle<A>(s: Seq<A>)
    ensures
        rotate_iter(s, s.len()) == s,
{
    lemma_rotate_iter_split(s, s.len());
    assert(rotate_iter(s, s.len()) =~= s);
}

/// The log queue: a strictly ordered sequence of entries, rotated once per
/// tick.
pub struct LogQueue {
    entries: Vec<LogEntry>,
}

impl View for LogQueue {
    type V = Seq<LogEntryView>;

    closed spec fn view(&self) -> Seq<LogEntryView> {
        self.entries.deep_view()
    }
}

/// The fixed set of entries every fresh queue starts from.
pub open spec fn seed_entries() -> Seq<LogEntryView> {
    seq![
        LogEntryView { label: "Event1"@, severity: Severity::Info },
        LogEntryView { label: "Event2"@, severity: Severity::Info },
        LogEntryView { label: "Event3"@, severity: Severity::Critical },
        LogEntryView { label: "Event4"@, severity: Severity::Error },
        LogEntryView { label: "Event5"@, severity: Severity::Info },
        LogEntryView { label: "Event6"@, severity: Severity::Info },
        LogEntryView { label: "Event7"@, severity: Severity::Warning },
        LogEntryView { label: "Event8"@, severity: Severity::Info },
        LogEntryView { label: "Event9"@, severity: Severity::Info },
        LogEntryView { label: "Event10"@, severity: Severity::Info },
        LogEntryView { label: "Event11"@, severity: Severity::Critical },
        LogEntryView { label: "Event12"@, severity: Severity::Info },
        LogEntryView { label: "Event13"@, severity: Severity::Info },
        LogEntryView { label: "Event14"@, severity: Severity::Info },
        LogEntryView { label: "Event15"@, severity: Severity::Info },
        LogEntryView { label: "Event16"@, severity: Severity::Info },
        LogEntryView { label: "Event17"@, severity: Severity::Error },
        LogEntryView { label: "Event18"@, severity: Severity::Error },
        LogEntryView { label: "Event19"@, severity: Severity::Info },
        LogEntryView { label: "Event20"@, severity: Severity::Info },
        LogEntryView { label: "Event21"@, severity: Severity::Warning },
        LogEntryView { label: "Event22"@, severity: Severity::Info },
        LogEntryView { label: "Event23"@, severity: Severity::Info },
        LogEntryView { label: "Event24"@, severity: Severity::Warning },
        LogEntryView { label: "Event25"@, severity: Severity::Info },
        LogEntryView { label: "Event26"@, severity: Severity::Info },
    ]
}

impl LogQueue {
    /// A fresh queue holding the seed entries.
    pub fn new() -> (r: LogQueue)
        ensures
            r@ == seed_entries(),
    {
        let mut entries: Vec<LogEntry> = Vec::new();
        entries.push(LogEntry { label: "Event1".to_owned(), severity: Severity::Info });
        entries.push(LogEntry { label: "Event2".to_owned(), severity: Severity::Info });
        entries.push(LogEntry { label: "Event3".to_owned(), severity: Severity::Critical });
        entries.push(LogEntry { label: "Event4".to_owned(), severity: Severity::Error });
        entries.push(LogEntry { label: "Event5".to_owned(), severity: Severity::Info });
        entries.push(LogEntry { label: "Event6".to_owned(), severity: Severity::Info });
        entries.push(LogEntry { label: "Event7".to_owned(), severity: Severity::Warning });
        entries.push(LogEntry { label: "Event8".to_owned(), severity: Severity::Info });
        entries.push(LogEntry { label: "Event9".to_owned(), severity: Severity::Info });
        entries.push(LogEntry { label: "Event10".to_owned(), severity: Severity::Info });
        entries.push(LogEntry { label: "Event11".to_owned(), severity: Severity::Critical });
        entries.push(LogEntry { label: "Event12".to_owned(), severity: Severity::Info });
        entries.push(LogEntry { label: "Event13".to_owned(), severity: Severity::Info });
        entries.push(LogEntry { label: "Event14".to_owned(), severity: Severity::Info });
        entries.push(LogEntry { label: "Event15".to_owned(), severity: Severity::Info });
        entries.push(LogEntry { label: "Event16".to_owned(), severity: Severity::Info });
        entries.push(LogEntry { label: "Event17".to_owned(), severity: Severity::Error });
        entries.push(LogEntry { label: "Event18".to_owned(), severity: Severity::Error });
        entries.push(LogEntry { label: "Event19".to_owned(), severity: Severity::Info });
        entries.push(LogEntry { label: "Event20".to_owned(), severity: Severity::Info });
        entries.push(LogEntry { label: "Event21".to_owned(), severity: Severity::Warning });
        entries.push(LogEntry { label: "Event22".to_owned(), severity: Severity::Info });
        entries.push(LogEntry { label: "Event23".to_owned(), severity: Severity::Info });
        entries.push(LogEntry { label: "Event24".to_owned(), severity: Severity::Warning });
        entries.push(LogEntry { label: "Event25".to_owned(), severity: Severity::Info });
        entries.push(LogEntry { label: "Event26".to_owned(), severity: Severity::Info });
        proof {
            assert(entries.deep_view() =~= seed_entries());
        }
        LogQueue { entries }
    }

    /// A queue over the given entries.
    pub fn with_entries(entries: Vec<LogEntry>) -> (r: LogQueue)
        ensures
            r@ == entries.deep_view(),
    {
        LogQueue { entries }
    }

    /// How many entries the queue holds.
    pub fn len(&self) -> (r: usize)
        ensures
            r == self@.len(),
    {
        self.entries.len()
    }

    /// Read access to the entries, front first.
    pub fn entries(&self) -> (r: &Vec<LogEntry>)
        ensures
            r.deep_view() == self@,
    {
        &self.entries
    }

    /// Rotate once: the front entry moves to the back. A pure reordering —
    /// count-preserving, and a no-op on an empty queue.
    pub fn advance(&mut self)
        ensures
            final(self)@ == rotate1(old(self)@),
    {
        if self.entries.len() > 0 {
            let e = self.entries.remove(0);
            self.entries.push(e);
            proof {
                assert(self@ =~= rotate1(old(self)@));
            }
        }
    }
}

} // verus!
