//! Log of records stamped with time and CPU, kept in a ring buffer: when it
//! is full, the oldest record gives way to the newest.
use vstd::prelude::*;

verus! {

/// Slots of the ring buffer; one is always left free, so it holds at most
/// `LOG_BUFFER_SIZE - 1` records.
pub const LOG_BUFFER_SIZE: usize = 128;

/// A log record.
#[derive(Copy, Clone, Debug, PartialEq, Eq, Structural)]
pub struct LogRecord {
    /// Timestamp value (unit is user-defined).
    pub timestamp: usize,
    /// CPU core that logged it.
    pub core_id: usize,
    /// User-supplied identifier.
    pub ident: u64,
}

/// The number of records between `tail` (oldest) and `head` (next slot to
/// write).
pub open spec fn ring_len(head: int, tail: int) -> int {
    if head >= tail {
        head - tail
    } else {
        LOG_BUFFER_SIZE - tail + head
    }
}

/// A ring buffer of log records.
pub struct LogRingBuffer {
    buffer: Vec<LogRecord>,
    head: usize,
    tail: usize,
}

impl View for LogRingBuffer {
    type V = Seq<LogRecord>;

    /// The records, oldest first.
    closed spec fn view(&self) -> Seq<LogRecord> {
        Seq::new(
            ring_len(self.head as int, self.tail as int) as nat,
            |i: int| self.buffer@[(self.tail + i) % (LOG_BUFFER_SIZE as int)],
        )
    }
}

impl LogRingBuffer {
    /// The buffer has its slots and both ends point into it.
    pub closed spec fn wf(&self) -> bool {
        &&& self.buffer@.len() == LOG_BUFFER_SIZE
        &&& self.head < LOG_BUFFER_SIZE
        &&& self.tail < LOG_BUFFER_SIZE
    }

    /// An empty log.
    pub fn new() -> (r: Self)
        ensures
            r.wf(),
            r@ == Seq::<LogRecord>::empty(),
    {
        let r = LogRingBuffer {
            buffer: vec![LogRecord { timestamp: 0, core_id: 0, ident: 0 }; LOG_BUFFER_SIZE],
            head: 0,
            tail: 0,
        };
        assert(r@ =~= Seq::<LogRecord>::empty());
        r
    }

    /// Logs `ident` with `timestamp` and the CPU `core_id` that logs it. When
    /// the log is full, its oldest record is dropped.
    pub fn log_record(&mut self, ident: u64, timestamp: usize, core_id: usize)
        requires
            old(self).wf(),
        ensures
            final(self).wf(),
            ({
                let rec = LogRecord { timestamp, core_id, ident };
                &&& old(self)@.len() < LOG_BUFFER_SIZE - 1 ==> final(self)@ == old(self)@.push(rec)
                &&& old(self)@.len() == LOG_BUFFER_SIZE - 1 ==> final(self)@ == old(self)@.drop_first().push(rec)
            }),
    {
        let ghost old_view = self@;
        let head = self.head;
        let next_head = (head + 1) % LOG_BUFFER_SIZE;
        let rec = LogRecord { timestamp, core_id, ident };
        self.buffer.set(head, rec);
        self.head = next_head;
        if next_head == self.tail {
            self.tail = (self.tail + 1) % LOG_BUFFER_SIZE;
        }
        proof {
            let t = old(self).tail as int;
            let h = old(self).head as int;
            let n = ring_len(h, t);
            assert(h == (t + n) % 128);
            if n < 127 {
                assert(self@ =~= old_view.push(rec)) by {
                    assert forall|i: int| 0 <= i < n implies self@[i] == old_view[i] by {
                        assert((t + i) % 128 != h);
                    }
                }
            } else {
                assert(self@ =~= old_view.drop_first().push(rec)) by {
                    assert forall|i: int| 0 <= i < n - 1 implies self@[i] == old_view[i + 1] by {
                        assert((t + 1) % 128 + i == t + 1 + i || (t + 1) % 128 + i == t + 1 + i - 128);
                        assert(((t + 1) % 128 + i) % 128 == (t + (i + 1)) % 128);
                        assert((t + (i + 1)) % 128 != h);
                    }
                    assert(((t + 1) % 128 + (n - 1)) % 128 == h);
                }
            }
        }
    }

    /// Record `idx`, counting from the oldest; `None` past the newest.
    pub fn get_record(&self, idx: usize) -> (r: Option<LogRecord>)
        requires
            self.wf(),
        ensures
            idx < self@.len() ==> r == Some(self@[idx as int]),
            idx >= self@.len() ==> r is None,
    {
        let tail = self.tail;
        let head = self.head;
        let len = if head >= tail {
            head - tail
        } else {
            LOG_BUFFER_SIZE - tail + head
        };
        if idx >= len {
            return None;
        }
        let pos = (tail + idx) % LOG_BUFFER_SIZE;
        Some(self.buffer[pos])
    }

    /// The number of records.
    pub fn len(&self) -> (r: usize)
        requires
            self.wf(),
        ensures
            r == self@.len(),
            r < LOG_BUFFER_SIZE,
    {
        let tail = self.tail;
        let head = self.head;
        if head >= tail {
            head - tail
        } else {
            LOG_BUFFER_SIZE - tail + head
        }
    }
}

/// The timestamp a log uses until it is given a clock: always 0.
pub fn default_timestamp_fn() -> (r: usize)
    ensures
        r == 0,
{
    0
}

/// A record logged is the only one, with its timestamp and identifier.
pub fn test_log_record_and_retrieve() -> (r: Result<(), &'static str>)
    ensures
        r is Ok,
{
    let mut logger = LogRingBuffer::new();
    logger.log_record(1234u64, 42, 0);
    if logger.len() != 1 {
        return Err("len != 1");
    }
    let rec = match logger.get_record(0) {
        Some(rec) => rec,
        None => return Err("no record"),
    };
    if rec.timestamp != 42 {
        return Err("timestamp != 42");
    }
    if rec.ident != 1234u64 {
        return Err("ident != 1234");
    }
    Ok(())
}

/// A full log stays full when one more record comes, and the newest record
/// is the last one.
pub fn test_ring_buffer_overwrite() -> (r: Result<(), &'static str>)
    ensures
        r is Ok,
{
    let mut logger = LogRingBuffer::new();
    let mut i: usize = 0;
    while i < LOG_BUFFER_SIZE - 1
        invariant
            i <= LOG_BUFFER_SIZE - 1,
            logger.wf(),
            logger@.len() == i,
        decreases LOG_BUFFER_SIZE - 1 - i,
    {
        logger.log_record(i as u64, 1, 0);
        i = i + 1;
    }
    if logger.len() != LOG_BUFFER_SIZE - 1 {
        return Err("buffer not full");
    }
    logger.log_record(0xdeadbeefu64, 1, 0);
    if logger.len() != LOG_BUFFER_SIZE - 1 {
        return Err("buffer size changed");
    }
    let first = match logger.get_record(0) {
        Some(rec) => rec,
        None => return Err("no first record"),
    };
    let last = match logger.get_record(LOG_BUFFER_SIZE - 2) {
        Some(rec) => rec,
        None => return Err("no last record"),
    };
    if last.ident != 0xdeadbeefu64 {
        return Err("last ident not correct");
    }
    Ok(())
}

/// Each record keeps the timestamp of the clock when it was logged: a
/// record logged after the clock changes has the new clock's time.
pub fn test_set_timestamp_fn() -> (r: Result<(), &'static str>)
    ensures
        r is Ok,
{
    let mut logger = LogRingBuffer::new();
    logger.log_record(0x11u64, 1, 0);
    match logger.get_record(0) {
        Some(rec) => {
            if rec.timestamp != 1 {
                return Err("timestamp != 1");
            }
            if rec.ident != 0x11u64 {
                return Err("ident != 0x11");
            }
        },
        None => return Err("no record"),
    }
    logger.log_record(0x22u64, 99, 0);
    match logger.get_record(1) {
        Some(rec) => {
            if rec.timestamp != 99 {
                return Err("timestamp != 99");
            }
            if rec.ident != 0x22u64 {
                return Err("ident != 0x22");
            }
        },
        None => return Err("no record"),
    }
    Ok(())
}

/// There is no record past the newest.
pub fn test_get_record_out_of_bounds() -> (r: Result<(), &'static str>)
    ensures
        r is Ok,
{
    let mut logger = LogRingBuffer::new();
    if logger.get_record(0).is_some() {
        return Err("should be none");
    }
    logger.log_record(0x55u64, default_timestamp_fn(), 0);
    if logger.get_record(1).is_some() {
        return Err("should be none");
    }
    Ok(())
}

} // verus!
