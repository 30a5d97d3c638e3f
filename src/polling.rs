//! Change detection for periodically read sysfs attributes, and the event
//! source built on the `capacity` and `online` attributes.
use vstd::prelude::*;
use crate::error::ParseError;
use crate::model::BatEvent;
use crate::parse::{adapter_of_line, battery_of_line, parse_adapter, parse_battery};

verus! {

/// The cache and the value emitted, if any, after one read of a file.
pub open spec fn cache_step(cache: Seq<u8>, read: Seq<u8>) -> (Seq<u8>, Option<Seq<u8>>) {
    if read == cache {
        (cache, None)
    } else {
        (read, Some(read))
    }
}

/// Two reads of the same bytes in a row emit nothing the second time; a read
/// that differs from the one before it emits exactly its own bytes.
pub proof fn lemma_change_detection(cache: Seq<u8>, read: Seq<u8>)
    ensures
        cache_step(cache_step(cache, read).0, read).1 is None,
        read != cache ==> cache_step(cache, read).1 == Some(read),
        read == cache ==> cache_step(cache, read).1 is None,
{
}

/// Whether two byte strings are equal, byte for byte.
pub(crate) fn bytes_equal(a: &[u8], b: &[u8]) -> (r: bool)
    ensures
        r == (a@ == b@),
{
    if a.len() != b.len() {
        return false;
    }
    let mut i: usize = 0;
    while i < a.len()
        invariant
            a@.len() == b@.len(),
            0 <= i <= a@.len(),
            a@.subrange(0, i as int) == b@.subrange(0, i as int),
        decreases a@.len() - i,
    {
        if a[i] != b[i] {
            assert(a@[i as int] != b@[i as int]);
            return false;
        }
        assert(a@.subrange(0, i + 1) =~= a@.subrange(0, i as int).push(a@[i as int]));
        assert(b@.subrange(0, i + 1) =~= b@.subrange(0, i as int).push(b@[i as int]));
        i = i + 1;
    }
    assert(a@ =~= a@.subrange(0, i as int));
    assert(b@ =~= b@.subrange(0, i as int));
    true
}

/// The last bytes read from one file; emits a read only where it differs.
#[derive(Debug)]
pub struct FilePollerCache {
    pub cache: Vec<u8>,
}

impl FilePollerCache {
    /// A cache that has seen no read: its content is empty.
    pub fn new() -> (r: FilePollerCache)
        ensures
            r.cache@ == Seq::<u8>::empty(),
    {
        FilePollerCache { cache: Vec::new() }
    }

    /// Takes the bytes of one read; returns them where they differ from the
    /// previous read, and nothing where they are the same.
    pub fn observe(&mut self, read: Vec<u8>) -> (r: Option<Vec<u8>>)
        ensures
            final(self).cache@ == cache_step(old(self).cache@, read@).0,
            r matches Some(v) ==> cache_step(old(self).cache@, read@).1 == Some(v@),
            r is None ==> cache_step(old(self).cache@, read@).1 is None,
    {
        if bytes_equal(self.cache.as_slice(), read.as_slice()) {
            None
        } else {
            let out = read.clone();
            assert(out@ =~= read@);
            self.cache = read;
            Some(out)
        }
    }
}

/// The outcome of one read of the `online` file for a stream in state `s`.
pub open spec fn adapter_outcome(s: PollingStream, read: Seq<u8>) -> Result<Option<BatEvent>, ParseError> {
    match cache_step(s.adapter.cache@, read).1 {
        None => Ok(None),
        Some(b) => if !s.adapter_started {
            Ok(None)
        } else {
            match adapter_of_line(b) {
                Ok(st) => Ok(Some(BatEvent::Adapter(st))),
                Err(e) => Err(e),
            }
        },
    }
}

/// The outcome of one read of the `capacity` file, with the level as a
/// number, for a stream in state `s`.
pub open spec fn battery_outcome(s: PollingStream, read: Seq<u8>) -> Result<Option<nat>, ParseError> {
    match cache_step(s.battery.cache@, read).1 {
        None => Ok(None),
        Some(b) => match battery_of_line(b) {
            Ok(v) => Ok(Some(v)),
            Err(e) => Err(e),
        },
    }
}

/// Whether an event carries what a battery outcome says.
pub open spec fn battery_event_matches(r: Option<BatEvent>, o: Option<nat>) -> bool {
    match o {
        None => r is None,
        Some(v) => r matches Some(BatEvent::Battery(l)) && l@ == v,
    }
}

/// Events from the `capacity` and `online` attributes of the battery and the
/// adapter, read at each tick of a timer.
#[derive(Debug)]
pub struct PollingStream {
    pub battery: FilePollerCache,
    pub adapter: FilePollerCache,
    /// Whether the first value of the adapter file, which is not reported,
    /// has been seen.
    pub adapter_started: bool,
    /// A battery read put off because the adapter's read of the same tick
    /// gave an event; it is taken at the next call of `resume`.
    pub deferred: Option<Vec<u8>>,
}

impl PollingStream {
    pub fn new() -> (r: PollingStream)
        ensures
            r.battery.cache@ == Seq::<u8>::empty(),
            r.adapter.cache@ == Seq::<u8>::empty(),
            !r.adapter_started,
            r.deferred is None,
    {
        PollingStream {
            battery: FilePollerCache::new(),
            adapter: FilePollerCache::new(),
            adapter_started: false,
            deferred: None,
        }
    }

    /// Takes one read of the `online` file; the first value that it emits is
    /// dropped, each later one becomes an adapter event.
    pub fn on_adapter_read(&mut self, read: Vec<u8>) -> (r: Result<Option<BatEvent>, ParseError>)
        ensures
            r == adapter_outcome(*old(self), read@),
            final(self).adapter.cache@ == cache_step(old(self).adapter.cache@, read@).0,
            final(self).adapter_started == (old(self).adapter_started || cache_step(
                old(self).adapter.cache@,
                read@,
            ).1 is Some),
            final(self).battery == old(self).battery,
            final(self).deferred == old(self).deferred,
    {
        match self.adapter.observe(read) {
            None => Ok(None),
            Some(b) => {
                if !self.adapter_started {
                    self.adapter_started = true;
                    Ok(None)
                } else {
                    match parse_adapter(b.as_slice()) {
                        Ok(st) => Ok(Some(BatEvent::Adapter(st))),
                        Err(e) => Err(e),
                    }
                }
            },
        }
    }

    /// Takes one read of the `capacity` file; a changed value becomes a
    /// battery event.
    pub fn on_battery_read(&mut self, read: Vec<u8>) -> (r: Result<Option<BatEvent>, ParseError>)
        ensures
            match battery_outcome(*old(self), read@) {
                Ok(o) => r matches Ok(e) && battery_event_matches(e, o),
                Err(e) => r == Err::<Option<BatEvent>, ParseError>(e),
            },
            final(self).battery.cache@ == cache_step(old(self).battery.cache@, read@).0,
            final(self).adapter == old(self).adapter,
            final(self).adapter_started == old(self).adapter_started,
            final(self).deferred == old(self).deferred,
    {
        match self.battery.observe(read) {
            None => Ok(None),
            Some(b) => match parse_battery(b.as_slice()) {
                Ok(l) => Ok(Some(BatEvent::Battery(l))),
                Err(e) => Err(e),
            },
        }
    }

    /// Takes the battery read that a tick put off, if there is one.
    pub fn resume(&mut self) -> (r: Result<Option<BatEvent>, ParseError>)
        ensures
            final(self).deferred is None,
            final(self).adapter == old(self).adapter,
            final(self).adapter_started == old(self).adapter_started,
            old(self).deferred is None ==> r == Ok::<Option<BatEvent>, ParseError>(None)
                && final(self).battery == old(self).battery,
            old(self).deferred matches Some(b) ==> (match battery_outcome(*old(self), b@) {
                Ok(o) => r matches Ok(e) && battery_event_matches(e, o),
                Err(e) => r == Err::<Option<BatEvent>, ParseError>(e),
            }) && final(self).battery.cache@ == cache_step(old(self).battery.cache@, b@).0,
    {
        match self.deferred.take() {
            None => Ok(None),
            Some(b) => self.on_battery_read(b),
        }
    }

    /// Takes the reads of one tick, the adapter's first. Where the adapter's
    /// read gives an event or an error, that is the result and the battery's
    /// read waits for the next call of `resume`; else the battery's read is
    /// taken now.
    pub fn on_tick(&mut self, adapter_read: Vec<u8>, battery_read: Vec<u8>) -> (r: Result<
        Option<BatEvent>,
        ParseError,
    >)
        requires
            old(self).deferred is None,
        ensures
            final(self).adapter.cache@ == cache_step(old(self).adapter.cache@, adapter_read@).0,
            final(self).adapter_started == (old(self).adapter_started || cache_step(
                old(self).adapter.cache@,
                adapter_read@,
            ).1 is Some),
            adapter_outcome(*old(self), adapter_read@) matches Ok(Some(ev)) ==> r == Ok::<
                Option<BatEvent>,
                ParseError,
            >(Some(ev)) && final(self).battery == old(self).battery && final(self).deferred
                == Some(battery_read),
            adapter_outcome(*old(self), adapter_read@) matches Err(e) ==> r == Err::<
                Option<BatEvent>,
                ParseError,
            >(e) && final(self).battery == old(self).battery && final(self).deferred == Some(
                battery_read,
            ),
            adapter_outcome(*old(self), adapter_read@) == Ok::<Option<BatEvent>, ParseError>(None)
                ==> (match battery_outcome(*old(self), battery_read@) {
                Ok(o) => r matches Ok(e) && battery_event_matches(e, o),
                Err(e) => r == Err::<Option<BatEvent>, ParseError>(e),
            }) && final(self).battery.cache@ == cache_step(
                old(self).battery.cache@,
                battery_read@,
            ).0 && final(self).deferred is None,
    {
        match self.on_adapter_read(adapter_read) {
            Ok(None) => self.on_battery_read(battery_read),
            other => {
                self.deferred = Some(battery_read);
                other
            },
        }
    }
}

} // verus!
