//! The binary batch-list envelope: the unit a client posts to submit work.
//! The envelope is a big-endian count followed by that many batch records,
//! each a length-prefixed ASCII id and a length-prefixed opaque payload,
//! with no trailing bytes. Parsing is all-or-nothing: either the whole body
//! matches this grammar or the decode fails with no partial result.

use vstd::prelude::*;

verus! {

/// One batch from a submitted envelope: the client-assigned id naming it
/// and the opaque payload forwarded to the validator.
#[derive(Debug, Clone)]
pub struct Batch {
    pub id: Vec<u8>,
    pub payload: Vec<u8>,
}

/// The mathematical shape of a batch.
pub struct BatchView {
    pub id: Seq<u8>,
    pub payload: Seq<u8>,
}

impl View for Batch {
    type V = BatchView;

    open spec fn view(&self) -> BatchView {
        BatchView { id: self.id@, payload: self.payload@ }
    }
}

/// The value of four big-endian bytes.
pub open spec fn spec_be32(b: Seq<u8>) -> int
    recommends
        b.len() == 4,
{
    b[0] * 0x1000000 + b[1] * 0x10000 + b[2] * 0x100 + b[3]
}

/// Parses one batch record from the front of `s`: a 4-byte id length, that
/// many ASCII id bytes, a 4-byte payload length, that many payload bytes.
/// Yields the batch and the remaining bytes, or nothing if `s` does not
/// start with a well-formed record.
pub open spec fn spec_parse_batch(s: Seq<u8>) -> Option<(BatchView, Seq<u8>)> {
    if s.len() < 4 {
        None
    } else {
        let id_len = spec_be32(s.subrange(0, 4));
        if s.len() < 4 + id_len {
            None
        } else {
            let id = s.subrange(4, 4 + id_len);
            if exists|k: int| 0 <= k < id.len() && id[k] >= 0x80 {
                None
            } else {
                let tail = s.skip(4 + id_len);
                if tail.len() < 4 {
                    None
                } else {
                    let payload_len = spec_be32(tail.subrange(0, 4));
                    if tail.len() < 4 + payload_len {
                        None
                    } else {
                        Some(
                            (
                                BatchView { id, payload: tail.subrange(4, 4 + payload_len) },
                                tail.skip(4 + payload_len),
                            ),
                        )
                    }
                }
            }
        }
    }
}

/// Parses `n` consecutive batch records from the front of `s`.
pub open spec fn spec_parse_batches(s: Seq<u8>, n: int) -> Option<(Seq<BatchView>, Seq<u8>)>
    decreases n,
{
    if n <= 0 {
        Some((Seq::<BatchView>::empty(), s))
    } else {
        match spec_parse_batch(s) {
            None => None,
            Some((batch, rest)) => match spec_parse_batches(rest, n - 1) {
                None => None,
                Some((batches, rest2)) => Some((seq![batch] + batches, rest2)),
            },
        }
    }
}

/// Parses a whole envelope: a 4-byte batch count, then exactly that many
/// records and nothing after them.
pub open spec fn spec_parse_batch_list(s: Seq<u8>) -> Option<Seq<BatchView>> {
    if s.len() < 4 {
        None
    } else {
        match spec_parse_batches(s.skip(4), spec_be32(s.subrange(0, 4))) {
            None => None,
            Some((batches, rest)) => if rest.len() == 0 {
                Some(batches)
            } else {
                None
            },
        }
    }
}

/// Glues a prefix of already-parsed batches onto the result of parsing the
/// remaining records.
pub open spec fn spec_prepend(front: Seq<BatchView>, r: Option<(Seq<BatchView>, Seq<u8>)>) -> Option<
    (Seq<BatchView>, Seq<u8>),
> {
    match r {
        None => None,
        Some((batches, rest)) => Some((front + batches, rest)),
    }
}

/// Reads four big-endian bytes at `pos`.
fn read_be32(bytes: &Vec<u8>, pos: usize) -> (value: u32)
    requires
        pos + 4 <= bytes@.len(),
    ensures
        value == spec_be32(bytes@.subrange(pos as int, pos as int + 4)),
{
    let n = bytes.len();
    assert(pos + 4 <= n);
    let b0 = bytes[pos] as u32;
    let b1 = bytes[pos + 1] as u32;
    let b2 = bytes[pos + 2] as u32;
    let b3 = bytes[pos + 3] as u32;
    b0 * 0x1000000 + b1 * 0x10000 + b2 * 0x100 + b3
}

/// Copies `count` bytes starting at `start` into a fresh vector.
fn copy_range(bytes: &Vec<u8>, start: usize, count: usize) -> (out: Vec<u8>)
    requires
        start + count <= bytes@.len(),
    ensures
        out@ == bytes@.subrange(start as int, start as int + count),
{
    let n = bytes.len();
    assert(start + count <= n <= usize::MAX);
    let mut out: Vec<u8> = Vec::new();
    let mut k: usize = 0;
    while k < count
        invariant
            k <= count,
            start + count <= bytes@.len() <= usize::MAX,
            out@ == bytes@.subrange(start as int, start as int + k),
        decreases count - k,
    {
        out.push(bytes[start + k]);
        proof {
            assert(out@ =~= bytes@.subrange(start as int, start as int + (k + 1)));
        }
        k += 1;
    }
    out
}

/// Looks for a non-ASCII byte among the `count` bytes starting at `start`.
fn find_non_ascii(bytes: &Vec<u8>, start: usize, count: usize) -> (found: Option<usize>)
    requires
        start + count <= bytes@.len(),
    ensures
        match found {
            Some(j) => start <= j < start + count && bytes@[j as int] >= 0x80,
            None => forall|j: int| start <= j < start + count ==> bytes@[j] < 0x80,
        },
{
    let n = bytes.len();
    assert(start + count <= n <= usize::MAX);
    let mut k: usize = 0;
    while k < count
        invariant
            k <= count,
            start + count <= bytes@.len() <= usize::MAX,
            forall|j: int| start <= j < start + k ==> bytes@[j] < 0x80,
        decreases count - k,
    {
        if bytes[start + k] >= 0x80 {
            return Some(start + k);
        }
        k += 1;
    }
    None
}

/// Parses the batch record starting at `pos`, returning it together with
/// the offset just past it.
fn parse_batch_at(bytes: &Vec<u8>, pos: usize) -> (r: Option<(Batch, usize)>)
    requires
        pos <= bytes@.len(),
    ensures
        match r {
            Some(parsed) => {
                &&& pos < parsed.1 <= bytes@.len()
                &&& spec_parse_batch(bytes@.skip(pos as int)) == Some(
                    (parsed.0@, bytes@.skip(parsed.1 as int)),
                )
            },
            None => spec_parse_batch(bytes@.skip(pos as int)) is None,
        },
{
    let ghost s = bytes@.skip(pos as int);
    let n = bytes.len();
    if n - pos < 4 {
        return None;
    }
    let id_len32 = read_be32(bytes, pos);
    let id_len = id_len32 as usize;
    proof {
        assert(s.subrange(0, 4) =~= bytes@.subrange(pos as int, pos as int + 4));
    }
    if n - pos - 4 < id_len {
        return None;
    }
    let ghost sid = s.subrange(4, 4 + id_len as int);
    proof {
        assert(sid =~= bytes@.subrange(pos + 4, pos + 4 + id_len));
    }
    if let Some(j) = find_non_ascii(bytes, pos + 4, id_len) {
        proof {
            assert(sid[j - (pos + 4)] == bytes@[j as int]);
        }
        return None;
    }
    proof {
        assert forall|k: int| 0 <= k < sid.len() implies !(#[trigger] sid[k] >= 0x80) by {
            assert(sid[k] == bytes@[pos + 4 + k]);
        }
    }
    let id = copy_range(bytes, pos + 4, id_len);
    let p2 = pos + 4 + id_len;
    let ghost tail = s.skip(4 + id_len as int);
    proof {
        assert(tail =~= bytes@.skip(p2 as int));
    }
    if n - p2 < 4 {
        return None;
    }
    let payload_len32 = read_be32(bytes, p2);
    let payload_len = payload_len32 as usize;
    proof {
        assert(tail.subrange(0, 4) =~= bytes@.subrange(p2 as int, p2 as int + 4));
    }
    if n - p2 - 4 < payload_len {
        return None;
    }
    let payload = copy_range(bytes, p2 + 4, payload_len);
    let end = p2 + 4 + payload_len;
    proof {
        assert(payload@ =~= tail.subrange(4, 4 + payload_len as int));
        assert(tail.skip(4 + payload_len as int) =~= bytes@.skip(end as int));
        assert(id@ =~= sid);
    }
    Some((Batch { id, payload }, end))
}

/// Decodes a whole submitted envelope into its batches. Succeeds exactly on
/// the bodies the envelope grammar accepts, and then returns every batch,
/// in submission order.
pub fn parse_batch_list(bytes: &Vec<u8>) -> (r: Option<Vec<Batch>>)
    ensures
        match r {
            Some(batches) => spec_parse_batch_list(bytes@) == Some(
                batches@.map_values(|b: Batch| b@),
            ),
            None => spec_parse_batch_list(bytes@) is None,
        },
{
    let n = bytes.len();
    if n < 4 {
        return None;
    }
    let count32 = read_be32(bytes, 0);
    let count = count32 as usize;
    proof {
        assert(bytes@.subrange(0int, 0int + 4) =~= bytes@.subrange(0, 4));
    }
    let mut batches: Vec<Batch> = Vec::new();
    let mut pos: usize = 4;
    let mut i: usize = 0;
    proof {
        assert(bytes@.skip(4) =~= bytes@.skip(pos as int));
        assert(batches@.map_values(|b: Batch| b@) =~= Seq::<BatchView>::empty());
    }
    while i < count
        invariant
            i <= count,
            4 <= pos <= bytes@.len(),
            count == spec_be32(bytes@.subrange(0, 4)),
            batches@.len() == i,
            spec_parse_batches(bytes@.skip(4), count as int) == spec_prepend(
                batches@.map_values(|b: Batch| b@),
                spec_parse_batches(bytes@.skip(pos as int), count - i),
            ),
        decreases count - i,
    {
        let ghost front = batches@.map_values(|b: Batch| b@);
        match parse_batch_at(bytes, pos) {
            None => {
                proof {
                    assert(spec_parse_batches(bytes@.skip(pos as int), count - i) is None);
                }
                return None;
            },
            Some(parsed) => {
                let (batch, end) = parsed;
                proof {
                    let rest = bytes@.skip(end as int);
                    let rec = spec_parse_batches(rest, count - i - 1);
                    assert(spec_parse_batches(bytes@.skip(pos as int), count - i)
                        == spec_prepend(seq![batch@], rec));
                    match rec {
                        None => {},
                        Some(tail) => {
                            assert(front + (seq![batch@] + tail.0) =~= front.push(batch@)
                                + tail.0);
                        },
                    }
                }
                batches.push(batch);
                proof {
                    assert(batches@.map_values(|b: Batch| b@) =~= front.push(batch@));
                }
                pos = end;
            },
        }
        i += 1;
    }
    proof {
        assert(spec_parse_batches(bytes@.skip(pos as int), 0) == Some(
            (Seq::<BatchView>::empty(), bytes@.skip(pos as int)),
        ));
        assert(batches@.map_values(|b: Batch| b@) + Seq::<BatchView>::empty() =~= batches@
            .map_values(|b: Batch| b@));
    }
    if pos == n {
        Some(batches)
    } else {
        proof {
            assert(bytes@.skip(pos as int).len() == n - pos);
        }
        None
    }
}

} // verus!
