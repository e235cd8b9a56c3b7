use vstd::prelude::*;
use crate::level::{Level, LevelFilter, level_rank, filter_rank};
use crate::record::{LogRecord, make_record, format_line, record_matches, record_bounded, line_of};

verus! {

/// Most records the staging buffer holds at once.
pub const LOG_BUFFER_CAPACITY: usize = 64;

#[verifier::external_type_specification]
#[verifier::external_body]
#[verifier::reject_recursive_types(T)]
pub struct ExDeque<T, const N: usize>(heapless::Deque<T, N>);

/// The records held by a staging queue, front first.
pub uninterp spec fn queued(d: heapless::Deque<LogRecord, 64>) -> Seq<LogRecord>;

/// Relies on heapless::Deque::new: a new deque is empty.
#[verifier::external_body]
fn deque_new() -> (r: heapless::Deque<LogRecord, 64>)
    ensures
        queued(r) == Seq::<LogRecord>::empty(),
{
    heapless::Deque::new()
}

/// Relies on heapless::Deque::push_back: the item joins the back unless the
/// deque already holds its capacity, in which case it is handed back and the
/// deque is unchanged.
#[verifier::external_body]
fn deque_push_back(d: &mut heapless::Deque<LogRecord, 64>, item: LogRecord) -> (r: Result<(), LogRecord>)
    ensures
        queued(*old(d)).len() < 64 ==> r is Ok && queued(*final(d)) == queued(*old(d)).push(item),
        queued(*old(d)).len() >= 64 ==> r is Err && r->Err_0 == item && queued(*final(d))
            == queued(*old(d)),
    no_unwind
{
    d.push_back(item)
}

/// Relies on heapless::Deque::pop_front: removes and returns the front item,
/// or `None` when the deque is empty.
#[verifier::external_body]
fn deque_pop_front(d: &mut heapless::Deque<LogRecord, 64>) -> (r: Option<LogRecord>)
    ensures
        queued(*old(d)).len() == 0 ==> r is None && queued(*final(d)) == queued(*old(d)),
        queued(*old(d)).len() > 0 ==> r == Some(queued(*old(d))[0]) && queued(*final(d))
            == queued(*old(d)).drop_first(),
    no_unwind
{
    d.pop_front()
}

/// Drop-newest enqueue: a full queue is left as it was.
pub open spec fn enqueue(q: Seq<LogRecord>, r: LogRecord) -> Seq<LogRecord> {
    if q.len() < LOG_BUFFER_CAPACITY {
        q.push(r)
    } else {
        q
    }
}

/// The queue after enqueueing `rs` in order, starting from `q`.
pub open spec fn enqueue_all(q: Seq<LogRecord>, rs: Seq<LogRecord>) -> Seq<LogRecord>
    decreases rs.len(),
{
    if rs.len() == 0 {
        q
    } else {
        enqueue_all(enqueue(q, rs[0]), rs.drop_first())
    }
}

/// The lines a drain writes for the records `rs`, in order.
pub open spec fn lines_of(rs: Seq<LogRecord>) -> Seq<Seq<char>> {
    rs.map_values(|r: LogRecord| line_of(r))
}

/// The bounded log staging buffer together with its severity filter.
pub struct SerialLogger {
    level: LevelFilter,
    logs: heapless::Deque<LogRecord, 64>,
}

impl SerialLogger {
    /// The staged records, oldest first.
    pub closed spec fn records(&self) -> Seq<LogRecord> {
        queued(self.logs)
    }

    /// The severity filter the logger was made with.
    pub closed spec fn filter(&self) -> LevelFilter {
        self.level
    }

    /// The capacity is never exceeded and every staged record keeps within
    /// its byte caps.
    #[verifier::type_invariant]
    closed spec fn within_capacity(&self) -> bool {
        &&& queued(self.logs).len() <= LOG_BUFFER_CAPACITY
        &&& forall|i: int| 0 <= i < queued(self.logs).len() ==> record_bounded(
            #[trigger] queued(self.logs)[i],
        )
    }

    /// Whether records of severity `level` pass the filter.
    pub open spec fn enabled_spec(&self, level: Level) -> bool {
        level_rank(level) <= filter_rank(self.filter())
    }

    /// Whether records of severity `level` are staged at all.
    pub fn enabled(&self, level: Level) -> (r: bool)
        ensures
            r == self.enabled_spec(level),
    {
        self.level.admits(level)
    }

    /// Stages one record. Disabled severities are ignored; when the buffer is
    /// full the new record is dropped and the staged ones stay as they were.
    /// Never fails and never blocks.
    pub fn log(&mut self, level: Level, tag: &str, message: &str, now_ticks: u64)
        ensures
            final(self).records().len() <= LOG_BUFFER_CAPACITY,
            forall|i: int| 0 <= i < final(self).records().len() ==> record_bounded(
                #[trigger] final(self).records()[i],
            ),
            final(self).filter() == old(self).filter(),
            !old(self).enabled_spec(level) ==> final(self).records() == old(self).records(),
            old(self).enabled_spec(level) ==> exists|r: LogRecord|
                record_matches(r, level, tag@, message@, now_ticks) && final(self).records()
                    == enqueue(old(self).records(), r),
    {
        proof {
            use_type_invariant(&*self);
        }
        if !self.enabled(level) {
            return ;
        }
        let record = make_record(level, tag, message, now_ticks);
        let ghost staged = record;
        let _ = deque_push_back(&mut self.logs, record);
        assert(forall|i: int| 0 <= i < self.records().len() ==> record_bounded(
            #[trigger] self.records()[i],
        ));
        assert(record_matches(staged, level, tag@, message@, now_ticks) && self.records()
            == enqueue(old(self).records(), staged));
    }
}

/// A logger with an empty buffer that stages records up to `level`.
pub fn init_logger(level: LevelFilter) -> (r: SerialLogger)
    ensures
        r.filter() == level,
        r.records() == Seq::<LogRecord>::empty(),
{
    SerialLogger { level, logs: deque_new() }
}

/// Drain step. When no reader is attached (`ready` is false) nothing is
/// consumed and no line is produced. Otherwise every staged record is taken
/// out in order and formatted as one line; the caller writes the lines to the
/// log stream and then flushes it.
pub fn flush_logs(logger: &mut SerialLogger, ready: bool) -> (lines: Vec<String>)
    ensures
        final(logger).filter() == old(logger).filter(),
        lines@.len() <= LOG_BUFFER_CAPACITY,
        !ready ==> lines@.len() == 0 && final(logger).records() == old(logger).records(),
        ready ==> final(logger).records().len() == 0,
        ready ==> lines@.map_values(|l: String| l@) == lines_of(old(logger).records()),
{
    let mut lines: Vec<String> = Vec::new();
    if !ready {
        return lines;
    }
    proof {
        use_type_invariant(&*logger);
    }
    let ghost all = logger.records();
    loop
        invariant
            logger.filter() == old(logger).filter(),
            all == old(logger).records(),
            all.len() <= LOG_BUFFER_CAPACITY,
            forall|i: int| 0 <= i < all.len() ==> record_bounded(#[trigger] all[i]),
            lines@.len() + logger.records().len() == all.len(),
            logger.records() == all.subrange(lines@.len() as int, all.len() as int),
            forall|i: int| 0 <= i < lines@.len() ==> #[trigger] lines@[i]@ == line_of(all[i]),
        ensures
            logger.records().len() == 0,
            lines@.len() == all.len(),
            forall|i: int| 0 <= i < lines@.len() ==> #[trigger] lines@[i]@ == line_of(all[i]),
        decreases logger.records().len(),
    {
        match deque_pop_front(&mut logger.logs) {
            Some(record) => {
                let line = format_line(&record);
                lines.push(line);
            },
            None => {
                break;
            },
        }
    }
    assert(lines@.map_values(|l: String| l@) =~= lines_of(all));
    lines
}

/// Whatever sequence of records is logged, the buffer never holds more than
/// its capacity, and what it holds is the oldest of the new records that fit,
/// after the ones already staged, in the order they were logged.
pub proof fn lemma_enqueue_keeps_order(q: Seq<LogRecord>, rs: Seq<LogRecord>)
    requires
        q.len() <= LOG_BUFFER_CAPACITY,
    ensures
        enqueue_all(q, rs).len() <= LOG_BUFFER_CAPACITY,
        rs.len() <= LOG_BUFFER_CAPACITY - q.len() ==> enqueue_all(q, rs) == q + rs,
        rs.len() > LOG_BUFFER_CAPACITY - q.len() ==> enqueue_all(q, rs) == q + rs.take(
            LOG_BUFFER_CAPACITY - q.len(),
        ),
    decreases rs.len(),
{
    if rs.len() > 0 {
        let q2 = enqueue(q, rs[0]);
        lemma_enqueue_keeps_order(q2, rs.drop_first());
        if q.len() < LOG_BUFFER_CAPACITY {
            assert(q2 == q.push(rs[0]));
            if rs.len() <= LOG_BUFFER_CAPACITY - q.len() {
                assert(q2 + rs.drop_first() =~= q + rs);
            } else {
                assert(q2 + rs.drop_first().take(LOG_BUFFER_CAPACITY - q2.len()) =~= q + rs.take(
                    LOG_BUFFER_CAPACITY - q.len(),
                ));
            }
        } else {
            assert(q2 == q);
            if rs.len() > 1 {
                assert(rs.drop_first().take(0) =~= Seq::<LogRecord>::empty());
            }
            assert(rs.take(0) =~= Seq::<LogRecord>::empty());
            assert(q + Seq::<LogRecord>::empty() =~= q);
        }
    } else {
        assert(q + rs =~= q);
    }
}

/// Draining a buffer filled from empty yields one line per retained record,
/// in exactly the order the records were logged.
pub proof fn lemma_drain_reproduces_order(rs: Seq<LogRecord>)
    ensures
        lines_of(enqueue_all(Seq::empty(), rs)).len() <= LOG_BUFFER_CAPACITY,
        rs.len() <= LOG_BUFFER_CAPACITY ==> lines_of(enqueue_all(Seq::empty(), rs)) == lines_of(
            rs,
        ),
        rs.len() > LOG_BUFFER_CAPACITY ==> lines_of(enqueue_all(Seq::empty(), rs)) == lines_of(
            rs.take(LOG_BUFFER_CAPACITY as int),
        ),
{
    lemma_enqueue_keeps_order(Seq::empty(), rs);
    assert(Seq::<LogRecord>::empty() + rs =~= rs);
    assert(Seq::<LogRecord>::empty() + rs.take(LOG_BUFFER_CAPACITY as int) =~= rs.take(
        LOG_BUFFER_CAPACITY as int,
    ));
}

/// On a full buffer a further record is dropped: the staged records stay
/// exactly as they were (drop-newest, never drop-oldest).
pub proof fn lemma_full_buffer_drops_newest(q: Seq<LogRecord>, r: LogRecord)
    requires
        q.len() == LOG_BUFFER_CAPACITY,
    ensures
        enqueue(q, r) == q,
{
}

/// A run of log calls, each staging its record as `log` states, leaves the
/// buffer exactly as `enqueue_all` of the run: from an empty buffer, the
/// first records in call order up to the capacity, and nothing of the rest.
pub proof fn lemma_log_run(states: Seq<Seq<LogRecord>>, rs: Seq<LogRecord>)
    requires
        states.len() == rs.len() + 1,
        states[0].len() <= LOG_BUFFER_CAPACITY,
        forall|i: int| 0 <= i < rs.len() ==> #[trigger] states[i + 1] == enqueue(states[i], rs[i]),
    ensures
        states.last() == enqueue_all(states[0], rs),
        states.last().len() <= LOG_BUFFER_CAPACITY,
        states[0].len() == 0 && rs.len() <= LOG_BUFFER_CAPACITY ==> states.last() == rs,
        states[0].len() == 0 && rs.len() > LOG_BUFFER_CAPACITY ==> states.last() == rs.take(
            LOG_BUFFER_CAPACITY as int,
        ),
    decreases rs.len(),
{
    if rs.len() > 0 {
        let tail = states.drop_first();
        assert(states[0int + 1] == enqueue(states[0int], rs[0int]));
        assert forall|i: int| 0 <= i < rs.drop_first().len() implies #[trigger] tail[i + 1]
            == enqueue(tail[i], rs.drop_first()[i]) by {
            assert(states[(i + 1) + 1] == enqueue(states[i + 1], rs[i + 1]));
        }
        lemma_enqueue_keeps_order(states[0], Seq::empty());
        assert(enqueue(states[0], rs[0]).len() <= LOG_BUFFER_CAPACITY);
        lemma_log_run(tail, rs.drop_first());
        assert(tail.last() == states.last());
    }
    lemma_enqueue_keeps_order(states[0], rs);
    assert(Seq::<LogRecord>::empty() + rs =~= rs);
    assert(Seq::<LogRecord>::empty() + rs.take(LOG_BUFFER_CAPACITY as int) =~= rs.take(
        LOG_BUFFER_CAPACITY as int,
    ));
}

} // verus!
