//! Values logged from the comparisons a target makes, and the metadata that
//! keeps them for mutations, leaving out comparisons that only count a loop.
use vstd::prelude::*;

verus! {

/// The kind of a logged comparison made by an instruction (else a routine call).
pub const CMPLOG_KIND_INS: u8 = 0;

/// The number of bytes logged for each operand of a routine call.
pub const CMPLOG_RTN_LEN: usize = 32;

/// `v` cut to its low 8 bits.
pub open spec fn spec_low8(v: u64) -> u8 {
    v as u8
}

/// `v` cut to its low 16 bits.
pub open spec fn spec_low16(v: u64) -> u16 {
    v as u16
}

/// `v` cut to its low 32 bits.
pub open spec fn spec_low32(v: u64) -> u32 {
    v as u32
}

/// `v` widened to 64 bits.
pub open spec fn spec_wide8(v: u8) -> u64 {
    v as u64
}

/// `v` widened to 64 bits.
pub open spec fn spec_wide16(v: u16) -> u64 {
    v as u64
}

/// `v` widened to 64 bits.
pub open spec fn spec_wide32(v: u32) -> u64 {
    v as u64
}

/// Whether `b` follows `a`, wrapping around 64 bits.
pub open spec fn spec_succ(a: u64, b: u64) -> bool {
    if a == u64::MAX {
        b == 0
    } else {
        b == a + 1
    }
}

/// Whether `b` precedes `a`, wrapping around 64 bits.
pub open spec fn spec_pred(a: u64, b: u64) -> bool {
    if a == 0 {
        b == u64::MAX
    } else {
        b == a - 1
    }
}

/// Whether `b` follows `a`, wrapping around 64 bits.
fn succ(a: u64, b: u64) -> (r: bool)
    ensures
        r == spec_succ(a, b),
{
    if a == u64::MAX {
        b == 0
    } else {
        b == a + 1
    }
}

/// Whether `b` precedes `a`, wrapping around 64 bits.
fn pred(a: u64, b: u64) -> (r: bool)
    ensures
        r == spec_pred(a, b),
{
    if a == 0 {
        b == u64::MAX
    } else {
        b == a - 1
    }
}

/// A count as a natural number.
pub open spec fn nat64(n: u64) -> nat {
    n as nat
}

/// A count as an integer.
pub open spec fn ix(n: usize) -> int {
    n as int
}

/// `v` cut to its low 8 bits.
fn low8(v: u64) -> (r: u8)
    ensures
        r == spec_low8(v),
{
    v as u8
}

/// `v` cut to its low 16 bits.
fn low16(v: u64) -> (r: u16)
    ensures
        r == spec_low16(v),
{
    v as u16
}

/// `v` cut to its low 32 bits.
fn low32(v: u64) -> (r: u32)
    ensures
        r == spec_low32(v),
{
    v as u32
}

/// `v` widened to 64 bits.
fn widen8(v: u8) -> (r: u64)
    ensures
        r == v,
{
    v as u64
}

/// `v` widened to 64 bits.
fn widen16(v: u16) -> (r: u64)
    ensures
        r == v,
{
    v as u64
}

/// `v` widened to 64 bits.
fn widen32(v: u32) -> (r: u64)
    ensures
        r == v,
{
    v as u64
}

/// A length as a 64-bit count.
fn len64(n: usize) -> (r: u64)
    ensures
        r == n,
{
    n as u64
}

/// A byte count as a length.
fn len_of(n: u8) -> (r: usize)
    ensures
        r == n,
{
    n as usize
}

/// An observer of the comparisons logged during a run, in a map of type `Self::Map`.
pub trait CmpObserver {
    /// The map the comparisons are logged in.
    type Map;

    /// The number of usable comparison sites.
    fn usable_count(&self) -> usize;

    /// The map.
    fn cmp_map(&self) -> &Self::Map;
}

/// A byte string of up to 32 bytes, logged from a routine's operand.
#[derive(Debug, Copy, Clone, PartialEq, Eq)]
pub struct CmplogBytes {
    buf: [u8; 32],
    len: u8,
}

impl CmplogBytes {
    /// The bytes.
    pub closed spec fn spec_bytes(&self) -> Seq<u8> {
        if self.len <= 32 {
            self.buf@.take(self.len as int)
        } else {
            self.buf@
        }
    }

    /// The byte string made of the first `len` bytes of `buf`.
    pub closed spec fn spec_new(buf: [u8; 32], len: u8) -> Self {
        CmplogBytes { buf, len }
    }

    /// A byte string made of the first `len` bytes of `buf`.
    pub fn from_buf_and_len(buf: [u8; 32], len: u8) -> (r: Self)
        requires
            len <= 32,
        ensures
            r == Self::spec_new(buf, len),
            r.spec_bytes() == buf@.take(len as int),
            r.spec_bytes().len() == len,
    {
        CmplogBytes { buf, len }
    }

    /// The bytes.
    pub fn as_slice(&self) -> (r: &[u8])
        ensures
            r@ == self.spec_bytes(),
    {
        let all: &[u8] = self.buf.as_slice();
        let l = len_of(self.len);
        let n: usize = if l > 32 {
            32
        } else {
            l
        };
        proof {
            assert(all@.len() == 32);
        }
        let r = vstd::slice::slice_subrange(all, 0, n);
        proof {
            assert(r@ =~= self.spec_bytes());
        }
        r
    }

    /// The number of bytes.
    pub fn len(&self) -> (r: usize)
        ensures
            r == self.spec_bytes().len(),
    {
        let l = len_of(self.len);
        if l > 32 {
            32
        } else {
            l
        }
    }
}

/// The values compared during a run: the two sides, and whether the first
/// side is a constant, or two byte strings.
#[derive(Debug, Clone, Copy, PartialEq, Eq)]
pub enum CmpValues {
    /// A comparison of bytes.
    U8((u8, u8, bool)),
    /// A comparison of 16-bit words.
    U16((u16, u16, bool)),
    /// A comparison of 32-bit words.
    U32((u32, u32, bool)),
    /// A comparison of 64-bit words.
    U64((u64, u64, bool)),
    /// Two byte strings passed to a routine.
    Bytes((CmplogBytes, CmplogBytes)),
}

/// The two sides of a numeric comparison as 64-bit words, with the constant flag.
pub open spec fn spec_to_u64_tuple(v: CmpValues) -> Option<(u64, u64, bool)> {
    match v {
        CmpValues::U8(t) => Some((spec_wide8(t.0), spec_wide8(t.1), t.2)),
        CmpValues::U16(t) => Some((spec_wide16(t.0), spec_wide16(t.1), t.2)),
        CmpValues::U32(t) => Some((spec_wide32(t.0), spec_wide32(t.1), t.2)),
        CmpValues::U64(t) => Some(t),
        CmpValues::Bytes(_) => None,
    }
}

impl CmpValues {
    /// Whether the values are numbers.
    pub fn is_numeric(&self) -> (r: bool)
        ensures
            r == !(self is Bytes),
    {
        match self {
            CmpValues::U8(_) | CmpValues::U16(_) | CmpValues::U32(_) | CmpValues::U64(_) => true,
            CmpValues::Bytes(_) => false,
        }
    }

    /// The sides as 64-bit words; `None` for byte strings.
    pub fn to_u64_tuple(&self) -> (r: Option<(u64, u64, bool)>)
        ensures
            r == spec_to_u64_tuple(*self),
    {
        match self {
            CmpValues::U8(t) => Some((widen8(t.0), widen8(t.1), t.2)),
            CmpValues::U16(t) => Some((widen16(t.0), widen16(t.1), t.2)),
            CmpValues::U32(t) => Some((widen32(t.0), widen32(t.1), t.2)),
            CmpValues::U64(t) => Some(*t),
            CmpValues::Bytes(_) => None,
        }
    }
}

/// One logged execution of a comparison site, as the target's map holds it.
#[derive(Debug, Clone, Copy)]
pub enum CmpLogEntry {
    /// A comparison instruction: the size code (`bytes - 1`), both operands and the flags.
    Instruction { shape: u8, v0: u64, v1: u64, aux: u8 },
    /// A routine call with its two byte operands.
    Routine { v0: [u8; 32], v1: [u8; 32] },
}

/// Whether an entry can be read: an instruction's size is one the map can hold.
pub open spec fn spec_entry_valid(e: CmpLogEntry) -> bool {
    match e {
        CmpLogEntry::Instruction { shape, .. } => shape == 0 || shape == 1 || shape == 3 || shape
            == 7 || shape == 15 || shape == 31 || shape == 63,
        CmpLogEntry::Routine { .. } => true,
    }
}

/// The values of an entry: comparisons of up to 64 bits, truncated to their
/// size; none for wider ones; routine operands as 32-byte strings.
pub open spec fn spec_parse_entry(e: CmpLogEntry) -> Option<CmpValues> {
    match e {
        CmpLogEntry::Instruction { shape, v0, v1, aux } => if shape == 0 {
            Some(CmpValues::U8((spec_low8(v0), spec_low8(v1), aux == 1)))
        } else if shape == 1 {
            Some(CmpValues::U16((spec_low16(v0), spec_low16(v1), aux == 1)))
        } else if shape == 3 {
            Some(CmpValues::U32((spec_low32(v0), spec_low32(v1), aux == 1)))
        } else if shape == 7 {
            Some(CmpValues::U64((v0, v1, aux == 1)))
        } else {
            None
        },
        CmpLogEntry::Routine { v0, v1 } => Some(
            CmpValues::Bytes(
                (CmplogBytes::spec_new(v0, 32), CmplogBytes::spec_new(v1, 32)),
            ),
        ),
    }
}

/// Cutting to 8, 16 or 32 bits keeps the value modulo 2 to that power.
pub proof fn lemma_low_bits(v: u64)
    ensures
        spec_wide8(spec_low8(v)) == v % 0x100,
        spec_wide16(spec_low16(v)) == v % 0x1_0000,
        spec_wide32(spec_low32(v)) == v % 0x1_0000_0000,
{
    assert((v as u8) as u64 == v % 0x100) by (bit_vector);
    assert((v as u16) as u64 == v % 0x1_0000) by (bit_vector);
    assert((v as u32) as u64 == v % 0x1_0000_0000) by (bit_vector);
}

/// An instruction entry of 1, 2, 4 or 8 bytes gives its two operands cut
/// to that size (each operand is its logged value modulo 2 to the size in
/// bits), in logged order, with the flag set exactly when `aux` is 1.
pub proof fn lemma_instruction_operands(shape: u8, v0: u64, v1: u64, aux: u8)
    ensures
        ({
            let r = spec_parse_entry(CmpLogEntry::Instruction { shape, v0, v1, aux });
            &&& shape == 0 ==> (r matches Some(CmpValues::U8((a, b, f))) && spec_wide8(a) == v0 % 0x100
                && spec_wide8(b) == v1 % 0x100 && f == (aux == 1))
            &&& shape == 1 ==> (r matches Some(CmpValues::U16((a, b, f))) && spec_wide16(a) == v0
                % 0x1_0000 && spec_wide16(b) == v1 % 0x1_0000 && f == (aux == 1))
            &&& shape == 3 ==> (r matches Some(CmpValues::U32((a, b, f))) && spec_wide32(a) == v0
                % 0x1_0000_0000 && spec_wide32(b) == v1 % 0x1_0000_0000 && f == (aux == 1))
            &&& shape == 7 ==> (r matches Some(CmpValues::U64((a, b, f))) && a == v0 && b == v1 && f
                == (aux == 1))
            &&& shape != 0 && shape != 1 && shape != 3 && shape != 7 ==> r is None
        }),
{
    lemma_low_bits(v0);
    lemma_low_bits(v1);
}

/// Reads the values of one logged execution.
pub fn parse_cmplog_entry(e: &CmpLogEntry) -> (r: Option<CmpValues>)
    requires
        spec_entry_valid(*e),
    ensures
        r == spec_parse_entry(*e),
{
    match e {
        CmpLogEntry::Instruction { shape, v0, v1, aux } => {
            if *shape == 0 {
                Some(CmpValues::U8((low8(*v0), low8(*v1), *aux == 1)))
            } else if *shape == 1 {
                Some(CmpValues::U16((low16(*v0), low16(*v1), *aux == 1)))
            } else if *shape == 3 {
                Some(CmpValues::U32((low32(*v0), low32(*v1), *aux == 1)))
            } else if *shape == 7 {
                Some(CmpValues::U64((*v0, *v1, *aux == 1)))
            } else {
                None
            }
        },
        CmpLogEntry::Routine { v0, v1 } => Some(
            CmpValues::Bytes(
                (
                    CmplogBytes::from_buf_and_len(*v0, 32),
                    CmplogBytes::from_buf_and_len(*v1, 32),
                ),
            ),
        ),
    }
}

/// How the numeric values of successive executions of one site move: the
/// last values read, and how often the first and second side went up by one,
/// and down by one, from one value read to the next.
pub struct LoopCounts {
    /// The last values read.
    pub last: Option<CmpValues>,
    /// Times the first side went up by one.
    pub increasing_v0: nat,
    /// Times the second side went up by one.
    pub increasing_v1: nat,
    /// Times the first side went down by one.
    pub decreasing_v0: nat,
    /// Times the second side went down by one.
    pub decreasing_v1: nat,
}

/// The counts after reading one more entry: entries without values are
/// skipped; a pair is counted only when both sides are numeric.
pub open spec fn spec_count_step(prev: LoopCounts, e: CmpLogEntry) -> LoopCounts {
    match spec_parse_entry(e) {
        None => prev,
        Some(val) => {
            let counted = match prev.last {
                Some(l) => spec_to_u64_tuple(l) is Some && spec_to_u64_tuple(val) is Some,
                None => false,
            };
            if counted {
                let l = spec_to_u64_tuple(prev.last->0)->0;
                let v = spec_to_u64_tuple(val)->0;
                LoopCounts {
                    last: Some(val),
                    increasing_v0: prev.increasing_v0 + if spec_succ(l.0, v.0) { 1nat } else { 0nat },
                    increasing_v1: prev.increasing_v1 + if spec_succ(l.1, v.1) { 1nat } else { 0nat },
                    decreasing_v0: prev.decreasing_v0 + if spec_pred(l.0, v.0) { 1nat } else { 0nat },
                    decreasing_v1: prev.decreasing_v1 + if spec_pred(l.1, v.1) { 1nat } else { 0nat },
                }
            } else {
                LoopCounts { last: Some(val), ..prev }
            }
        },
    }
}

/// The counts after reading the values of `entries` in order.
pub open spec fn spec_loop_counts(entries: Seq<CmpLogEntry>) -> LoopCounts
    decreases entries.len(),
{
    if entries.len() == 0 {
        LoopCounts { last: None, increasing_v0: 0, increasing_v1: 0, decreasing_v0: 0, decreasing_v1: 0 }
    } else {
        spec_count_step(spec_loop_counts(entries.drop_last()), entries.last())
    }
}

/// Whether the executions of one site look like a loop counter: more than
/// four executions, and one side moves by one at nearly every step (all but
/// two, as the logged executions may wrap around).
pub open spec fn spec_is_loop(entries: Seq<CmpLogEntry>) -> bool {
    let c = spec_loop_counts(entries);
    let n = entries.len();
    &&& n > 4
    &&& (c.increasing_v0 >= n - 2 || c.increasing_v1 >= n - 2 || c.decreasing_v0 >= n - 2
        || c.decreasing_v1 >= n - 2)
}

/// The values of `entries`, in order, skipping entries without values.
pub open spec fn spec_parsed_values(entries: Seq<CmpLogEntry>) -> Seq<CmpValues>
    decreases entries.len(),
{
    if entries.len() == 0 {
        Seq::empty()
    } else {
        let prev = spec_parsed_values(entries.drop_last());
        match spec_parse_entry(entries.last()) {
            Some(v) => prev.push(v),
            None => prev,
        }
    }
}

/// The values kept from the first `count` sites: every site that ran and
/// does not look like a loop counter contributes its values, in order.
pub open spec fn spec_kept_values(sites: Seq<Seq<CmpLogEntry>>, count: int) -> Seq<CmpValues>
    decreases count,
{
    if count <= 0 {
        Seq::empty()
    } else {
        let prev = spec_kept_values(sites, count - 1);
        let e = sites[count - 1];
        if e.len() == 0 || spec_is_loop(e) {
            prev
        } else {
            prev + spec_parsed_values(e)
        }
    }
}

/// Whether all entries of the first `count` sites can be read.
pub open spec fn spec_sites_valid(sites: Seq<Seq<CmpLogEntry>>, count: int) -> bool {
    forall|i: int, j: int|
        0 <= i < count && 0 <= j < sites[i].len() ==> spec_entry_valid(#[trigger] sites[i][j])
}

/// The view of a list of sites: for each, the entries of its usable executions.
pub open spec fn sites_view(sites: Seq<Vec<CmpLogEntry>>) -> Seq<Seq<CmpLogEntry>> {
    sites.map_values(|v: Vec<CmpLogEntry>| v@)
}

/// A metadata holding the values logged from comparisons.
#[derive(Debug, Default)]
pub struct CmpLogMetadata {
    /// The values.
    pub list: Vec<CmpValues>,
}

/// Reads one more entry into the counts.
fn count_step(last: Option<CmpValues>, c: (u64, u64, u64, u64), e: &CmpLogEntry) -> (r: (
    Option<CmpValues>,
    (u64, u64, u64, u64),
))
    requires
        spec_entry_valid(*e),
        c.0 < u64::MAX,
        c.1 < u64::MAX,
        c.2 < u64::MAX,
        c.3 < u64::MAX,
    ensures
        ({
            let prev = LoopCounts {
                last,
                increasing_v0: nat64(c.0),
                increasing_v1: nat64(c.1),
                decreasing_v0: nat64(c.2),
                decreasing_v1: nat64(c.3),
            };
            let next = spec_count_step(prev, *e);
            &&& r.0 == next.last
            &&& r.1.0 == next.increasing_v0
            &&& r.1.1 == next.increasing_v1
            &&& r.1.2 == next.decreasing_v0
            &&& r.1.3 == next.decreasing_v1
            &&& r.1.0 <= c.0 + 1 && r.1.1 <= c.1 + 1 && r.1.2 <= c.2 + 1 && r.1.3 <= c.3 + 1
        }),
{
    let (mut inc0, mut inc1, mut dec0, mut dec1) = c;
    match parse_cmplog_entry(e) {
        Some(val) => {
            let pair = match last {
                Some(l) => match (l.to_u64_tuple(), val.to_u64_tuple()) {
                    (Some(a), Some(b)) => Some((a, b)),
                    _ => None,
                },
                None => None,
            };
            match pair {
                Some((l, v)) => {
                    if succ(l.0, v.0) {
                        inc0 = inc0 + 1;
                    }
                    if succ(l.1, v.1) {
                        inc1 = inc1 + 1;
                    }
                    if pred(l.0, v.0) {
                        dec0 = dec0 + 1;
                    }
                    if pred(l.1, v.1) {
                        dec1 = dec1 + 1;
                    }
                },
                None => {},
            }
            (Some(val), (inc0, inc1, dec0, dec1))
        },
        None => (last, (inc0, inc1, dec0, dec1)),
    }
}

/// Counts how the values of one site move from one execution to the next.
fn loop_counts(entries: &Vec<CmpLogEntry>) -> (r: (u64, u64, u64, u64))
    requires
        forall|j: int| 0 <= j < entries@.len() ==> spec_entry_valid(#[trigger] entries@[j]),
        entries@.len() < u64::MAX,
    ensures
        r.0 == spec_loop_counts(entries@).increasing_v0,
        r.1 == spec_loop_counts(entries@).increasing_v1,
        r.2 == spec_loop_counts(entries@).decreasing_v0,
        r.3 == spec_loop_counts(entries@).decreasing_v1,
{
    let mut counts: (u64, u64, u64, u64) = (0, 0, 0, 0);
    let mut last: Option<CmpValues> = None;
    let mut j: usize = 0;
    while j < entries.len()
        invariant
            0 <= j <= entries@.len(),
            entries@.len() < u64::MAX,
            forall|k: int| 0 <= k < entries@.len() ==> spec_entry_valid(#[trigger] entries@[k]),
            last == spec_loop_counts(entries@.take(ix(j))).last,
            counts.0 == spec_loop_counts(entries@.take(ix(j))).increasing_v0,
            counts.1 == spec_loop_counts(entries@.take(ix(j))).increasing_v1,
            counts.2 == spec_loop_counts(entries@.take(ix(j))).decreasing_v0,
            counts.3 == spec_loop_counts(entries@.take(ix(j))).decreasing_v1,
            counts.0 <= j && counts.1 <= j && counts.2 <= j && counts.3 <= j,
        decreases entries@.len() - j,
    {
        proof {
            assert(entries@.take(j + 1).drop_last() =~= entries@.take(ix(j)));
            assert(entries@.take(j + 1).last() == entries@[ix(j)]);
        }
        let (l2, c2) = count_step(last, counts, &entries[j]);
        last = l2;
        counts = c2;
        j = j + 1;
    }
    proof {
        assert(entries@.take(ix(entries.len())) =~= entries@);
    }
    counts
}

/// The values of one site's executions, in order.
fn parsed_values(entries: &Vec<CmpLogEntry>) -> (r: Vec<CmpValues>)
    requires
        forall|j: int| 0 <= j < entries@.len() ==> spec_entry_valid(#[trigger] entries@[j]),
    ensures
        r@ == spec_parsed_values(entries@),
{
    let mut out: Vec<CmpValues> = Vec::new();
    let mut j: usize = 0;
    while j < entries.len()
        invariant
            0 <= j <= entries@.len(),
            forall|k: int| 0 <= k < entries@.len() ==> spec_entry_valid(#[trigger] entries@[k]),
            out@ == spec_parsed_values(entries@.take(ix(j))),
        decreases entries@.len() - j,
    {
        proof {
            assert(entries@.take(j + 1).drop_last() =~= entries@.take(ix(j)));
            assert(entries@.take(j + 1).last() == entries@[ix(j)]);
        }
        match parse_cmplog_entry(&entries[j]) {
            Some(val) => {
                out.push(val);
            },
            None => {},
        }
        j = j + 1;
    }
    proof {
        assert(entries@.take(ix(entries.len())) =~= entries@);
    }
    out
}

impl CmpLogMetadata {
    /// An empty metadata.
    pub fn new() -> (r: Self)
        ensures
            r.list@ == Seq::<CmpValues>::empty(),
    {
        CmpLogMetadata { list: Vec::new() }
    }

    /// Replaces the values with those of the first `usable_count` sites of a
    /// run: `sites[i]` holds the usable executions of site `i`. A site that
    /// looks like a loop counter is left out.
    pub fn add_from(&mut self, usable_count: usize, sites: &Vec<Vec<CmpLogEntry>>)
        requires
            usable_count <= sites@.len(),
            spec_sites_valid(sites_view(sites@), ix(usable_count)),
            forall|i: int| 0 <= i < usable_count ==> (#[trigger] sites@[i])@.len() < u64::MAX,
        ensures
            final(self).list@ == spec_kept_values(sites_view(sites@), ix(usable_count)),
    {
        self.list.clear();
        let mut i: usize = 0;
        while i < usable_count
            invariant
                0 <= i <= usable_count,
                usable_count <= sites@.len(),
                spec_sites_valid(sites_view(sites@), ix(usable_count)),
                forall|k: int| 0 <= k < usable_count ==> (#[trigger] sites@[k])@.len() < u64::MAX,
                self.list@ == spec_kept_values(sites_view(sites@), ix(i)),
            decreases usable_count - i,
        {
            let entries = &sites[i];
            let execs = entries.len();
            proof {
                assert(sites_view(sites@)[ix(i)] == entries@);
                assert forall|j: int| 0 <= j < entries@.len() implies spec_entry_valid(
                    #[trigger] entries@[j],
                ) by {
                    assert(sites_view(sites@)[ix(i)][j] == entries@[j]);
                }
            }
            if execs > 0 {
                let mut skip = false;
                if execs > 4 {
                    let (inc0, inc1, dec0, dec1) = loop_counts(entries);
                    let bound: u64 = len64(execs - 2);
                    if inc0 >= bound || inc1 >= bound || dec0 >= bound || dec1 >= bound {
                        skip = true;
                    }
                }
                if !skip {
                    let vals = parsed_values(entries);
                    let ghost before = self.list@;
                    let mut k: usize = 0;
                    while k < vals.len()
                        invariant
                            0 <= k <= vals@.len(),
                            self.list@ == before + vals@.take(ix(k)),
                        decreases vals@.len() - k,
                    {
                        self.list.push(vals[k]);
                        k = k + 1;
                        assert(self.list@ =~= before + vals@.take(ix(k)));
                    }
                    assert(vals@.take(ix(vals.len())) =~= vals@);
                }
            }
            i = i + 1;
        }
    }
}

} // verus!
