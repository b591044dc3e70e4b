//! Incremental detection of complete top-level JSON objects in a byte stream.
use vstd::prelude::*;

verus! {

/// Where the scanner stands between two bytes.
#[derive(Debug, Clone, Copy, PartialEq, Eq, Structural)]
pub enum ScanState {
    LookingForStart,
    InObject,
    InString,
    InEscape,
}

/// Outcome of one call to [`JsonScanner::scan`].
#[derive(Debug, PartialEq, Eq, Structural)]
pub enum ScanResult {
    NeedsMore,
    Error,
    /// Split point in the input slice: the object ends just before this offset.
    Found(usize),
}

/// What a single byte does to the scanner.
pub enum ByteEffect {
    /// The scan goes on in the given state and depth.
    Continue(ScanState, nat),
    /// The byte closes the top-level object.
    Close,
    /// The byte cannot stand here.
    Fail,
}

/// The bytes skipped between objects.
pub open spec fn is_space(b: u8) -> bool {
    b == 0x20 || b == 0x09 || b == 0x0A || b == 0x0C || b == 0x0D
}

/// Effect of byte `b` read in state `st` at brace depth `depth`.
pub open spec fn byte_step(st: ScanState, depth: nat, b: u8) -> ByteEffect {
    match st {
        ScanState::LookingForStart => {
            if is_space(b) {
                ByteEffect::Continue(ScanState::LookingForStart, 0)
            } else if b == 0x7B {
                ByteEffect::Continue(ScanState::InObject, 1)
            } else {
                ByteEffect::Fail
            }
        },
        ScanState::InObject => {
            if b == 0x7B {
                if depth + 1 > usize::MAX {
                    ByteEffect::Fail
                } else {
                    ByteEffect::Continue(ScanState::InObject, depth + 1)
                }
            } else if b == 0x7D {
                if depth <= 1 {
                    ByteEffect::Close
                } else {
                    ByteEffect::Continue(ScanState::InObject, (depth - 1) as nat)
                }
            } else if b == 0x22 {
                ByteEffect::Continue(ScanState::InString, depth)
            } else {
                ByteEffect::Continue(ScanState::InObject, depth)
            }
        },
        ScanState::InString => {
            if b == 0x22 {
                ByteEffect::Continue(ScanState::InObject, depth)
            } else if b == 0x5C {
                ByteEffect::Continue(ScanState::InEscape, depth)
            } else {
                ByteEffect::Continue(ScanState::InString, depth)
            }
        },
        ScanState::InEscape => ByteEffect::Continue(ScanState::InString, depth),
    }
}

/// Moves a result found in a suffix to the offsets of the whole input.
pub open spec fn shift(r: ScanResult, k: int) -> ScanResult {
    match r {
        ScanResult::Found(n) => ScanResult::Found((n + k) as usize),
        other => other,
    }
}

/// Scanning `bytes` from state `st` and depth `depth`: the result, and the state and depth
/// left behind for the next call.
pub open spec fn scan_spec(st: ScanState, depth: nat, bytes: Seq<u8>) -> (ScanResult, ScanState, nat)
    decreases bytes.len(),
{
    if bytes.len() == 0 {
        (ScanResult::NeedsMore, st, depth)
    } else {
        match byte_step(st, depth, bytes[0]) {
            ByteEffect::Fail => (ScanResult::Error, st, depth),
            ByteEffect::Close => (ScanResult::Found(1), ScanState::LookingForStart, 0),
            ByteEffect::Continue(s2, d2) => {
                let (r, s3, d3) = scan_spec(s2, d2, bytes.drop_first());
                (shift(r, 1), s3, d3)
            },
        }
    }
}

/// Scanner for the end of the next top-level `{...}` object.
///
/// It holds no bytes: callers keep what they have fed until an object is found.
pub struct JsonScanner {
    state: ScanState,
    brace_depth: usize,
}

impl JsonScanner {
    /// The state the scanner is in.
    pub closed spec fn spec_state(&self) -> ScanState {
        self.state
    }

    /// The number of braces open in the current object.
    pub closed spec fn spec_depth(&self) -> nat {
        self.brace_depth as nat
    }

    /// Depth is zero exactly between objects.
    pub open spec fn wf(&self) -> bool {
        &&& self.spec_state() == ScanState::LookingForStart ==> self.spec_depth() == 0
        &&& self.spec_state() != ScanState::LookingForStart ==> self.spec_depth() >= 1
    }

    /// A fresh scanner, looking for the start of an object.
    pub fn new() -> (r: Self)
        ensures
            r.wf(),
            r.spec_state() == ScanState::LookingForStart,
            r.spec_depth() == 0,
    {
        JsonScanner { state: ScanState::LookingForStart, brace_depth: 0 }
    }

    /// Feeds `input` to the scanner.
    ///
    /// Returns `Found(n)` when the top-level object ends at byte `n - 1` of `input`; the scanner
    /// is then reset, and the caller scans `input[n..]` with a further call.
    pub fn scan(&mut self, input: &[u8]) -> (r: ScanResult)
        requires
            old(self).wf(),
        ensures
            final(self).wf(),
            (r, final(self).spec_state(), final(self).spec_depth())
                == scan_spec(old(self).spec_state(), old(self).spec_depth(), input@),
    {
        let ghost st0 = self.state;
        let ghost d0 = self.brace_depth as nat;
        let mut i: usize = 0;
        let n: usize = input.len();
        proof {
            assert(input@.subrange(0, input@.len() as int) =~= input@);
            lemma_scan_found_bound(st0, d0, input@);
        }
        while i < input.len()
            invariant
                i <= input@.len(),
                n == input@.len(),
                st0 == old(self).spec_state(),
                d0 == old(self).spec_depth(),
                self.wf(),
                scan_spec(st0, d0, input@) == ({
                    let (r, s, d) = scan_spec(self.state, self.brace_depth as nat, input@.subrange(i as int, input@.len() as int));
                    (shift(r, i as int), s, d)
                }),
            decreases input@.len() - i,
        {
            proof {
                lemma_scan_unfold(self.state, self.brace_depth as nat, input@, i as int);
                lemma_scan_found_bound(
                    self.state,
                    self.brace_depth as nat,
                    input@.subrange(i as int, input@.len() as int),
                );
                let ghost e = byte_step(self.state, self.brace_depth as nat, input@[i as int]);
                if let ByteEffect::Continue(s2, d2) = e {
                    lemma_scan_found_bound(s2, d2, input@.subrange(i + 1, input@.len() as int));
                }
            }
            let byte = input[i];
            match self.state {
                ScanState::LookingForStart => {
                    if byte == 0x20 || byte == 0x09 || byte == 0x0A || byte == 0x0C || byte == 0x0D {
                    } else if byte == 0x7B {
                        self.state = ScanState::InObject;
                        self.brace_depth = 1;
                    } else {
                        return ScanResult::Error;
                    }
                },
                ScanState::InObject => {
                    if byte == 0x7B {
                        if self.brace_depth == usize::MAX {
                            return ScanResult::Error;
                        }
                        self.brace_depth = self.brace_depth + 1;
                    } else if byte == 0x7D {
                        if self.brace_depth <= 1 {
                            self.reset();
                            return ScanResult::Found(i + 1);
                        }
                        self.brace_depth = self.brace_depth - 1;
                    } else if byte == 0x22 {
                        self.state = ScanState::InString;
                    }
                },
                ScanState::InString => {
                    if byte == 0x22 {
                        self.state = ScanState::InObject;
                    } else if byte == 0x5C {
                        self.state = ScanState::InEscape;
                    }
                },
                ScanState::InEscape => {
                    self.state = ScanState::InString;
                },
            }
            i = i + 1;
        }
        proof {
            assert(input@.subrange(i as int, input@.len() as int).len() == 0);
        }
        ScanResult::NeedsMore
    }

    fn reset(&mut self)
        ensures
            final(self).spec_state() == ScanState::LookingForStart,
            final(self).spec_depth() == 0,
    {
        self.state = ScanState::LookingForStart;
        self.brace_depth = 0;
    }
}

/// A found offset lies within the scanned bytes.
proof fn lemma_scan_found_bound(st: ScanState, depth: nat, bytes: Seq<u8>)
    requires
        bytes.len() <= usize::MAX,
    ensures
        scan_spec(st, depth, bytes).0 matches ScanResult::Found(n) ==> 1 <= n <= bytes.len(),
    decreases bytes.len(),
{
    if bytes.len() > 0 {
        if let ByteEffect::Continue(s2, d2) = byte_step(st, depth, bytes[0]) {
            lemma_scan_found_bound(s2, d2, bytes.drop_first());
        }
    }
}

/// One step of `scan_spec` on the suffix of `bytes` that starts at `i`.
proof fn lemma_scan_unfold(st: ScanState, depth: nat, bytes: Seq<u8>, i: int)
    requires
        0 <= i < bytes.len(),
    ensures
        scan_spec(st, depth, bytes.subrange(i, bytes.len() as int)) == (match byte_step(st, depth, bytes[i]) {
            ByteEffect::Fail => (ScanResult::Error, st, depth),
            ByteEffect::Close => (ScanResult::Found(1), ScanState::LookingForStart, 0),
            ByteEffect::Continue(s2, d2) => {
                let (r, s3, d3) = scan_spec(s2, d2, bytes.subrange(i + 1, bytes.len() as int));
                (shift(r, 1), s3, d3)
            },
        }),
{
    let tail = bytes.subrange(i, bytes.len() as int);
    assert(tail[0] == bytes[i]);
    assert(tail.drop_first() =~= bytes.subrange(i + 1, bytes.len() as int));
}

/// The bytes of all chunks, in order.
pub open spec fn flatten_chunks(chunks: Seq<Seq<u8>>) -> Seq<u8>
    decreases chunks.len(),
{
    if chunks.len() == 0 {
        Seq::empty()
    } else {
        chunks[0] + flatten_chunks(chunks.drop_first())
    }
}

/// The results of feeding `chunks` one call at a time to a scanner in state `st` and depth
/// `depth`.
pub open spec fn feed_chunks(st: ScanState, depth: nat, chunks: Seq<Seq<u8>>) -> Seq<ScanResult>
    decreases chunks.len(),
{
    if chunks.len() == 0 {
        Seq::empty()
    } else {
        let (r, s2, d2) = scan_spec(st, depth, chunks[0]);
        seq![r] + feed_chunks(s2, d2, chunks.drop_first())
    }
}

/// Scanning `a + b` is scanning `a` and then, if nothing was decided in `a`, scanning `b`
/// from where `a` left the scanner.
pub proof fn lemma_scan_concat(st: ScanState, depth: nat, a: Seq<u8>, b: Seq<u8>)
    requires
        a.len() + b.len() <= usize::MAX,
    ensures
        ({
            let (ra, sa, da) = scan_spec(st, depth, a);
            let (rb, sb, db) = scan_spec(sa, da, b);
            &&& ra is NeedsMore ==> scan_spec(st, depth, a + b) == (shift(rb, a.len() as int), sb, db)
            &&& !(ra is NeedsMore) ==> scan_spec(st, depth, a + b) == scan_spec(st, depth, a)
        }),
    decreases a.len(),
{
    if a.len() == 0 {
        assert(a + b =~= b);
        let (rb, sb, db) = scan_spec(st, depth, b);
        assert(shift(rb, 0) == rb);
    } else {
        assert((a + b)[0] == a[0]);
        assert((a + b).drop_first() =~= a.drop_first() + b);
        if let ByteEffect::Continue(s2, d2) = byte_step(st, depth, a[0]) {
            lemma_scan_concat(s2, d2, a.drop_first(), b);
            lemma_scan_found_bound(s2, d2, a.drop_first() + b);
            let (ra, sa, da) = scan_spec(s2, d2, a.drop_first());
            let (rb, sb, db) = scan_spec(sa, da, b);
            lemma_scan_found_bound(sa, da, b);
        }
    }
}

/// Feeding a complete object in pieces: when the whole input `flatten_chunks(chunks)` scans
/// to an object that ends at its last byte, feeding the non-empty chunks one call at a time
/// reports nothing until the last chunk, which reports the end at its own last byte. The
/// object is found once, at the same place in the stream.
pub proof fn lemma_scan_fragmentation(st: ScanState, depth: nat, chunks: Seq<Seq<u8>>)
    requires
        chunks.len() > 0,
        forall|i: int| 0 <= i < chunks.len() ==> #[trigger] chunks[i].len() > 0,
        flatten_chunks(chunks).len() <= usize::MAX,
        scan_spec(st, depth, flatten_chunks(chunks)).0 == ScanResult::Found(
            flatten_chunks(chunks).len() as usize,
        ),
    ensures
        feed_chunks(st, depth, chunks).len() == chunks.len(),
        forall|i: int|
            0 <= i < chunks.len() - 1 ==> #[trigger] feed_chunks(st, depth, chunks)[i]
                == ScanResult::NeedsMore,
        feed_chunks(st, depth, chunks)[chunks.len() - 1] == ScanResult::Found(
            chunks[chunks.len() - 1].len() as usize,
        ),
    decreases chunks.len(),
{
    let c0 = chunks[0];
    let rest = chunks.drop_first();
    let flat = flatten_chunks(chunks);
    assert(flat == c0 + flatten_chunks(rest));
    lemma_scan_concat(st, depth, c0, flatten_chunks(rest));
    lemma_scan_found_bound(st, depth, c0);
    let (r0, s1, d1) = scan_spec(st, depth, c0);
    if rest.len() == 0 {
        assert(flatten_chunks(rest) =~= Seq::<u8>::empty());
        assert(flat =~= c0);
        assert(feed_chunks(s1, d1, rest) =~= Seq::<ScanResult>::empty());
        assert(feed_chunks(st, depth, chunks) =~= seq![r0]);
    } else {
        lemma_flatten_len_pos(rest);
        assert(r0 is NeedsMore);
        let (rr, sr, dr) = scan_spec(s1, d1, flatten_chunks(rest));
        lemma_scan_found_bound(s1, d1, flatten_chunks(rest));
        assert(rr == ScanResult::Found(flatten_chunks(rest).len() as usize));
        assert forall|i: int| 0 <= i < rest.len() implies #[trigger] rest[i].len() > 0 by {
            assert(rest[i] == chunks[i + 1]);
        }
        lemma_scan_fragmentation(s1, d1, rest);
        let rs = feed_chunks(st, depth, chunks);
        assert(rs == seq![r0] + feed_chunks(s1, d1, rest));
        assert(chunks[chunks.len() - 1] == rest[rest.len() - 1]);
        assert forall|i: int| 0 <= i < chunks.len() - 1 implies #[trigger] rs[i]
            == ScanResult::NeedsMore by {
            if i > 0 {
                assert(rs[i] == feed_chunks(s1, d1, rest)[i - 1]);
            }
        }
    }
}

proof fn lemma_flatten_len_pos(chunks: Seq<Seq<u8>>)
    requires
        chunks.len() > 0,
        chunks[0].len() > 0,
    ensures
        flatten_chunks(chunks).len() > 0,
{
    assert(flatten_chunks(chunks) == chunks[0] + flatten_chunks(chunks.drop_first()));
}

/// Inside a string, bytes other than a quote or a backslash change nothing: braces there are
/// not counted.
pub proof fn lemma_string_masks_braces(depth: nat, bytes: Seq<u8>)
    requires
        forall|i: int| 0 <= i < bytes.len() ==> #[trigger] bytes[i] != 0x22 && bytes[i] != 0x5C,
    ensures
        scan_spec(ScanState::InString, depth, bytes) == (
            ScanResult::NeedsMore,
            ScanState::InString,
            depth,
        ),
    decreases bytes.len(),
{
    if bytes.len() > 0 {
        assert(bytes[0] != 0x22 && bytes[0] != 0x5C);
        let tail = bytes.drop_first();
        assert forall|i: int| 0 <= i < tail.len() implies #[trigger] tail[i] != 0x22 && tail[i]
            != 0x5C by {
            assert(tail[i] == bytes[i + 1]);
        }
        lemma_string_masks_braces(depth, tail);
    }
}

/// A backslash inside a string takes the next byte with it, whatever that byte is: the scan
/// goes on in the same string after the pair.
pub proof fn lemma_escape_takes_next_byte(depth: nat, b: u8, rest: Seq<u8>)
    requires
        rest.len() + 2 <= usize::MAX,
    ensures
        ({
            let (r, s, d) = scan_spec(ScanState::InString, depth, rest);
            scan_spec(ScanState::InString, depth, seq![0x5Cu8, b] + rest) == (shift(r, 2), s, d)
        }),
{
    let all = seq![0x5Cu8, b] + rest;
    let mid = all.drop_first();
    assert(all[0] == 0x5C);
    assert(mid[0] == b);
    assert(mid.drop_first() =~= rest);
    lemma_scan_found_bound(ScanState::InString, depth, rest);
    let (r, s, d) = scan_spec(ScanState::InString, depth, rest);
    assert(scan_spec(ScanState::InEscape, depth, mid) == (shift(r, 1), s, d));
    assert(scan_spec(ScanState::InString, depth, all) == (shift(shift(r, 1), 1), s, d));
}

} // verus!
