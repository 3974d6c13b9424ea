//! Decision logic of the X-protocol selection provider: parsing the format
//! enumeration, waiting for the conversion of a requested format, the
//! two-phase size probe, and the incremental large-payload transfer.
//!
//! The platform driver owns the connection and performs every native call;
//! each notification it polls and each property it fetches is handed to
//! the functions here, which decide the next protocol step. Identifiers
//! (atoms) are plain 32-bit handles; a property handle of zero is the
//! protocol's "none" marker.

use vstd::prelude::*;

verus! {

/// A 32-bit word assembled from four bytes, least-significant byte first —
/// the byte order in which the connection delivers words on the targets
/// this library supports.
pub open spec fn le_word(bytes: Seq<u8>) -> u32
    recommends
        bytes.len() >= 4,
{
    (bytes[0] + bytes[1] * 0x100 + bytes[2] * 0x10000 + bytes[3] * 0x1000000) as u32
}

/// Reads the 32-bit word at `off`, least-significant byte first.
pub fn read_le_word(bytes: &Vec<u8>, off: usize) -> (r: u32)
    requires
        off + 4 <= bytes@.len(),
    ensures
        r == le_word(bytes@.skip(off as int)),
{
    let n = bytes.len();
    let w: u64 = bytes[off] as u64 + bytes[off + 1] as u64 * 0x100 + bytes[off + 2] as u64
        * 0x10000 + bytes[off + 3] as u64 * 0x1000000;
    proof {
        assert(n == bytes@.len());
        assert(bytes@.skip(off as int)[0] == bytes@[off as int]);
        assert(bytes@.skip(off as int)[1] == bytes@[off as int + 1]);
        assert(bytes@.skip(off as int)[2] == bytes@[off as int + 2]);
        assert(bytes@.skip(off as int)[3] == bytes@[off as int + 3]);
        assert(w <= 0xFFFFFFFF);
    }
    w as u32
}

/// Whether the enumeration contains this atom.
pub fn contains_atom(atoms: &Vec<u32>, atom: u32) -> (r: bool)
    ensures
        r == atoms@.contains(atom),
{
    let n = atoms.len();
    let mut i: usize = 0;
    while i < n
        invariant
            n == atoms@.len(),
            0 <= i <= n,
            forall|k: int| 0 <= k < i ==> atoms@[k] != atom,
        decreases n - i,
    {
        if atoms[i] == atom {
            return true;
        }
        i = i + 1;
    }
    false
}

/// The format enumeration parsed from the raw reply of the targets
/// request: consecutive 32-bit words, with the provider bookkeeping atoms
/// (the targets, multiple, save-targets and timestamp markers, which are
/// never valid content) discarded. Trailing bytes that do not fill a word
/// are dropped.
pub open spec fn spec_atoms(bytes: Seq<u8>, ignored: Seq<u32>) -> Seq<u32>
    decreases bytes.len(),
{
    if bytes.len() < 4 {
        Seq::empty()
    } else {
        let a = le_word(bytes);
        let rest = spec_atoms(bytes.skip(4), ignored);
        if ignored.contains(a) {
            rest
        } else {
            seq![a] + rest
        }
    }
}

/// Parses the raw targets reply into the list of advertised formats,
/// discarding the bookkeeping atoms.
pub fn atoms_from_property(bytes: &Vec<u8>, ignored: &Vec<u32>) -> (r: Vec<u32>)
    ensures
        r@ == spec_atoms(bytes@, ignored@),
{
    let n = bytes.len();
    let mut r: Vec<u32> = Vec::new();
    let mut i: usize = 0;
    proof {
        assert(bytes@.skip(0) =~= bytes@);
        assert(r@ + spec_atoms(bytes@, ignored@) =~= spec_atoms(bytes@, ignored@));
    }
    while n - i >= 4
        invariant
            n == bytes@.len(),
            0 <= i <= n,
            spec_atoms(bytes@, ignored@) == r@ + spec_atoms(bytes@.skip(i as int), ignored@),
        decreases n - i,
    {
        let a = read_le_word(bytes, i);
        proof {
            assert(bytes@.skip(i as int).skip(4) =~= bytes@.skip(i as int + 4));
        }
        if !contains_atom(ignored, a) {
            let ghost r0 = r@;
            r.push(a);
            proof {
                assert(r0.push(a) + spec_atoms(bytes@.skip(i as int + 4), ignored@) =~= r0 + (
                seq![a] + spec_atoms(bytes@.skip(i as int + 4), ignored@)));
            }
        }
        i = i + 4;
    }
    proof {
        assert(spec_atoms(bytes@.skip(i as int), ignored@) =~= Seq::<u32>::empty());
        assert(r@ + Seq::<u32>::empty() =~= r@);
    }
    r
}

/// The first advertised text format, preferring the two UTF-8 MIME
/// spellings over the plain UTF-8 string atom.
pub fn available_text_format(
    available: &Vec<u32>,
    utf8_mime_a: u32,
    utf8_mime_b: u32,
    utf8_string: u32,
) -> (r: Option<u32>)
    ensures
        match r {
            Some(f) => {
                ||| (f == utf8_mime_a && available@.contains(utf8_mime_a))
                ||| (f == utf8_mime_b && !available@.contains(utf8_mime_a) && available@.contains(
                    utf8_mime_b,
                ))
                ||| (f == utf8_string && !available@.contains(utf8_mime_a) && !available@.contains(
                    utf8_mime_b,
                ) && available@.contains(utf8_string))
            },
            None => !available@.contains(utf8_mime_a) && !available@.contains(utf8_mime_b)
                && !available@.contains(utf8_string),
        },
{
    if contains_atom(available, utf8_mime_a) {
        Some(utf8_mime_a)
    } else if contains_atom(available, utf8_mime_b) {
        Some(utf8_mime_b)
    } else if contains_atom(available, utf8_string) {
        Some(utf8_string)
    } else {
        None
    }
}

/// One event polled while waiting for the owner of the selection to stage
/// a requested conversion.
pub enum WaitEvent {
    /// No event was pending.
    NoEvent,
    /// An event that is not a selection notification.
    Unrelated,
    /// A selection notification, with the requesting window, the selection
    /// it answers for, the property the data was staged under (zero when
    /// the owner refused the conversion), and its sequence number.
    SelectionNotify { requestor: u32, selection: u32, property: u32, seq: u64 },
}

/// The next step while waiting for a conversion.
#[derive(Debug, PartialEq, Eq)]
pub enum WaitStep {
    /// Nothing pending: sleep briefly, then poll again.
    SleepRetry,
    /// Not the awaited notification: poll again at once.
    Ignore,
    /// The owner staged the data under this property.
    Ready { property: u32 },
    /// The owner could not convert the selection: the read fails.
    Refused,
}

/// Decides one step of the conversion wait: notifications older than the
/// request, and any event that is not the awaited selection notification
/// for this window and selection, are passed over; a staged property of
/// zero means the owner refused the conversion.
pub fn selection_wait_step(win_id: u32, selection_atom: u32, request_seq: u64, event: &WaitEvent) -> (r:
    WaitStep)
    ensures
        match *event {
            WaitEvent::NoEvent => r == WaitStep::SleepRetry,
            WaitEvent::Unrelated => r == WaitStep::Ignore,
            WaitEvent::SelectionNotify { requestor, selection, property, seq } => r == if seq
                < request_seq {
                WaitStep::Ignore
            } else if requestor != win_id || selection != selection_atom {
                WaitStep::Ignore
            } else if property == 0 {
                WaitStep::Refused
            } else {
                (WaitStep::Ready { property })
            },
        },
{
    match event {
        WaitEvent::NoEvent => WaitStep::SleepRetry,
        WaitEvent::Unrelated => WaitStep::Ignore,
        WaitEvent::SelectionNotify { requestor, selection, property, seq } => {
            if *seq < request_seq {
                WaitStep::Ignore
            } else if *requestor != win_id || *selection != selection_atom {
                WaitStep::Ignore
            } else if *property == 0 {
                WaitStep::Refused
            } else {
                WaitStep::Ready { property: *property }
            }
        },
    }
}

/// How a staged property is to be read: a property whose type is the
/// incremental-transfer marker announces a chunked transfer — the reader
/// deletes the marker to signal readiness and then collects chunks — while
/// any other property holds the whole payload directly, and is deleted
/// after the copy so no server-side state leaks.
#[derive(Debug)]
pub enum PropertyReadStart {
    /// Incremental transfer: delete the marker property, then feed every
    /// chunk notification to an [`IncrTransfer`].
    Incremental,
    /// The payload was staged directly; delete the property after reading.
    Direct(Vec<u8>),
}

/// Classifies a staged property by its type marker.
pub fn classify_property_read(type_atom: u32, incr_atom: u32, value: Vec<u8>) -> (r:
    PropertyReadStart)
    ensures
        type_atom == incr_atom ==> r == PropertyReadStart::Incremental,
        type_atom != incr_atom ==> (r matches PropertyReadStart::Direct(v) && v@ == value@),
{
    if type_atom == incr_atom {
        PropertyReadStart::Incremental
    } else {
        PropertyReadStart::Direct(value)
    }
}

/// One event polled during an incremental transfer.
pub enum ChunkEvent {
    /// No event was pending.
    NoEvent,
    /// An event that is not a property notification.
    Unrelated,
    /// A property notification: the atom it concerns, and whether it
    /// reports a new value (as opposed to a deletion).
    PropertyNotify { atom: u32, new_value: bool },
}

/// The next step of an incremental transfer.
#[derive(Debug, PartialEq, Eq)]
pub enum ChunkStep {
    /// Nothing pending: sleep briefly, then poll again.
    SleepRetry,
    /// Not a chunk arrival for this transfer: poll again at once.
    Ignore,
    /// A chunk was staged: fetch it (deleting the property) and feed it to
    /// the [`IncrTransfer`].
    FetchChunk,
}

/// Decides one step of the chunk wait: only a new value staged under the
/// transfer's own property is a chunk arrival.
pub fn incr_wait_step(property_atom: u32, event: &ChunkEvent) -> (r: ChunkStep)
    ensures
        match *event {
            ChunkEvent::NoEvent => r == ChunkStep::SleepRetry,
            ChunkEvent::Unrelated => r == ChunkStep::Ignore,
            ChunkEvent::PropertyNotify { atom, new_value } => r == if atom == property_atom
                && new_value {
                ChunkStep::FetchChunk
            } else {
                ChunkStep::Ignore
            },
        },
{
    match event {
        ChunkEvent::NoEvent => ChunkStep::SleepRetry,
        ChunkEvent::Unrelated => ChunkStep::Ignore,
        ChunkEvent::PropertyNotify { atom, new_value } => {
            if *atom == property_atom && *new_value {
                ChunkStep::FetchChunk
            } else {
                ChunkStep::Ignore
            }
        },
    }
}

/// The concatenation of a sequence of chunks.
pub open spec fn concat_chunks(chunks: Seq<Seq<u8>>) -> Seq<u8>
    decreases chunks.len(),
{
    if chunks.len() == 0 {
        Seq::empty()
    } else {
        concat_chunks(chunks.drop_last()) + chunks.last()
    }
}

/// The assembly state of one incremental transfer: every non-empty chunk
/// is appended in arrival order, and the zero-length chunk terminates the
/// transfer. The assembled payload is exactly the concatenation of the
/// chunks fed so far.
pub struct IncrTransfer {
    data: Vec<u8>,
    complete: bool,
    chunks: Ghost<Seq<Seq<u8>>>,
}

impl IncrTransfer {
    /// The chunks fed so far, in arrival order.
    pub closed spec fn chunks(&self) -> Seq<Seq<u8>> {
        self.chunks@
    }

    /// The payload assembled so far.
    pub closed spec fn assembled(&self) -> Seq<u8> {
        self.data@
    }

    /// Whether the terminating zero-length chunk has arrived.
    pub closed spec fn complete(&self) -> bool {
        self.complete
    }

    /// The assembly invariant: the buffer is the concatenation of the
    /// chunks fed so far.
    pub open spec fn wf(&self) -> bool {
        self.assembled() == concat_chunks(self.chunks())
    }

    /// Starts an incremental transfer, after the marker property was
    /// deleted to signal readiness for the first chunk.
    pub fn begin() -> (r: IncrTransfer)
        ensures
            r.wf(),
            !r.complete(),
            r.chunks() == Seq::<Seq<u8>>::empty(),
            r.assembled() == Seq::<u8>::empty(),
    {
        let r = IncrTransfer { data: Vec::new(), complete: false, chunks: Ghost(Seq::empty()) };
        proof {
            assert(concat_chunks(r.chunks@) =~= Seq::<u8>::empty());
        }
        r
    }

    /// Feeds the next fetched chunk: a non-empty chunk is appended to the
    /// payload, the zero-length chunk ends the transfer.
    pub fn feed_chunk(&mut self, chunk: Vec<u8>)
        requires
            old(self).wf(),
            !old(self).complete(),
            old(self).assembled().len() + chunk@.len() <= usize::MAX,
        ensures
            final(self).wf(),
            chunk@.len() == 0 ==> final(self).complete() && final(self).chunks() == old(
                self,
            ).chunks() && final(self).assembled() == old(self).assembled(),
            chunk@.len() > 0 ==> !final(self).complete() && final(self).chunks() == old(
                self,
            ).chunks().push(chunk@) && final(self).assembled() == old(self).assembled() + chunk@,
    {
        if chunk.len() == 0 {
            self.complete = true;
        } else {
            let ghost c = chunk@;
            let mut chunk = chunk;
            self.data.append(&mut chunk);
            proof {
                self.chunks@ = self.chunks@.push(c);
                assert(self.chunks@.drop_last() =~= old(self).chunks@);
                assert(concat_chunks(self.chunks@) == concat_chunks(old(self).chunks@) + c);
            }
        }
    }

    /// Whether the transfer is finished.
    pub fn is_complete(&self) -> (r: bool)
        ensures
            r == self.complete(),
    {
        self.complete
    }

    /// The assembled payload of a finished transfer: the concatenation of
    /// every non-empty chunk, in arrival order.
    pub fn take_data(self) -> (r: Vec<u8>)
        requires
            self.wf(),
            self.complete(),
        ensures
            r@ == concat_chunks(self.chunks()),
    {
        self.data
    }
}

/// Whether the cheap size probe applies: a size limit is configured and
/// the owner advertises the length metadata format. Only then is the
/// length read first, so the payload is never transferred before the
/// limit is checked.
pub fn cheap_size_probe_applies(max_bytes: Option<u32>, length_format_present: bool) -> (r: bool)
    ensures
        r == (max_bytes is Some && length_format_present),
{
    max_bytes.is_some() && length_format_present
}

/// The decision taken on the reply of the cheap length probe.
#[derive(Debug, PartialEq, Eq)]
pub enum LengthProbe {
    /// The owner reports size zero: empty content, effectively absent.
    Empty,
    /// The reported size exceeds the limit: skip the transfer.
    TooLarge,
    /// The size fits: request and read the payload.
    ReadData,
    /// The reply is too short to hold a size: fall back to requesting the
    /// transfer and peeking at the staged property's size.
    Fallback,
}

/// Decides on the raw reply of the length probe: a reply of at least one
/// 32-bit word carries the payload size, checked against the limit; a
/// shorter reply forces the expensive fallback probe.
pub fn length_probe_decision(size_bytes: &Vec<u8>, max_bytes: u32) -> (r: LengthProbe)
    ensures
        size_bytes@.len() < 4 ==> r == LengthProbe::Fallback,
        size_bytes@.len() >= 4 ==> {
            let size = le_word(size_bytes@);
            r == if size == 0 {
                LengthProbe::Empty
            } else if size > max_bytes {
                LengthProbe::TooLarge
            } else {
                LengthProbe::ReadData
            }
        },
{
    if size_bytes.len() < 4 {
        LengthProbe::Fallback
    } else {
        let size = read_le_word(size_bytes, 0);
        proof {
            assert(size_bytes@.skip(0) =~= size_bytes@);
        }
        if size == 0 {
            LengthProbe::Empty
        } else if size > max_bytes {
            LengthProbe::TooLarge
        } else {
            LengthProbe::ReadData
        }
    }
}

} // verus!
