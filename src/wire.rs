//! The wire form of operations: big-endian fixed-width fields.
//!
//! Insert: `timestamp:u32 | position:u64 | value_length:u32 | value |
//! site_id:u32`, the site id only when the reader has no table from timestamps
//! to sites. Delete: `timestamp:u32 | position:u64 | length:u64`.
use vstd::prelude::*;

use byteorder::{ByteOrder, NetworkEndian};
use std::collections::BTreeMap;

use crate::operations::{DeleteOperation, InsertOperation, OpModel, Operation};
use crate::{ErrorKind, OTError};

verus! {

/// Bytes of an insert's wire form before its value.
pub const INSERT_HEADER_LEN: usize = 16;

/// Bytes of a delete's wire form.
pub const DELETE_WIRE_LEN: usize = 20;

/// The four bytes of `n`, most significant first.
pub open spec fn be_u32(n: u32) -> Seq<u8> {
    seq![(n >> 24u32) as u8, ((n >> 16u32) & 0xff) as u8, ((n >> 8u32) & 0xff) as u8, (n & 0xff) as u8]
}

/// The eight bytes of `n`, most significant first.
pub open spec fn be_u64(n: u64) -> Seq<u8> {
    seq![
        (n >> 56u64) as u8,
        ((n >> 48u64) & 0xff) as u8,
        ((n >> 40u64) & 0xff) as u8,
        ((n >> 32u64) & 0xff) as u8,
        ((n >> 24u64) & 0xff) as u8,
        ((n >> 16u64) & 0xff) as u8,
        ((n >> 8u64) & 0xff) as u8,
        (n & 0xff) as u8,
    ]
}

/// The number whose big-endian form begins `b`.
pub open spec fn u32_of(b: Seq<u8>) -> u32 {
    ((b[0] as u32) << 24u32) | ((b[1] as u32) << 16u32) | ((b[2] as u32) << 8u32) | (b[3] as u32)
}

/// The number whose big-endian form begins `b`.
pub open spec fn u64_of(b: Seq<u8>) -> u64 {
    ((b[0] as u64) << 56u64) | ((b[1] as u64) << 48u64) | ((b[2] as u64) << 40u64) | ((b[3] as u64)
        << 32u64) | ((b[4] as u64) << 24u64) | ((b[5] as u64) << 16u64) | ((b[6] as u64) << 8u64)
        | (b[7] as u64)
}

/// Relies on byteorder's `NetworkEndian::write_u32`, which writes `n` into a
/// four-byte buffer most significant byte first.
#[verifier::external_body]
fn be_bytes_u32(n: u32) -> (r: [u8; 4])
    ensures
        r@ == be_u32(n),
{
    let mut buf = [0u8; 4];
    NetworkEndian::write_u32(&mut buf, n);
    buf
}

/// Relies on byteorder's `NetworkEndian::write_u64`, which writes `n` into an
/// eight-byte buffer most significant byte first.
#[verifier::external_body]
fn be_bytes_u64(n: u64) -> (r: [u8; 8])
    ensures
        r@ == be_u64(n),
{
    let mut buf = [0u8; 8];
    NetworkEndian::write_u64(&mut buf, n);
    buf
}

/// Relies on byteorder's `NetworkEndian::read_u32`, which reads the first four
/// bytes of `buf` most significant first, and panics on fewer.
#[verifier::external_body]
fn read_be_u32(buf: &[u8]) -> (r: u32)
    requires
        buf@.len() >= 4,
    ensures
        r == u32_of(buf@),
{
    NetworkEndian::read_u32(buf)
}

/// Relies on byteorder's `NetworkEndian::read_u64`, which reads the first eight
/// bytes of `buf` most significant first, and panics on fewer.
#[verifier::external_body]
fn read_be_u64(buf: &[u8]) -> (r: u64)
    requires
        buf@.len() >= 8,
    ensures
        r == u64_of(buf@),
{
    NetworkEndian::read_u64(buf)
}

/// Appends `bytes` to `out`.
fn append_bytes(out: &mut Vec<u8>, bytes: &[u8])
    ensures
        final(out)@ == old(out)@ + bytes@,
{
    let mut i: usize = 0;
    while i < bytes.len()
        invariant
            i <= bytes@.len(),
            out@ == old(out)@ + bytes@.subrange(0, i as int),
        decreases bytes@.len() - i,
    {
        out.push(bytes[i]);
        i = i + 1;
        assert(out@ =~= old(out)@ + bytes@.subrange(0, i as int));
    }
    assert(bytes@.subrange(0, i as int) =~= bytes@);
}

/// The bytes of `data` from `start` up to `end`.
fn copy_range(data: &[u8], start: usize, end: usize) -> (r: Vec<u8>)
    requires
        start <= end <= data@.len(),
    ensures
        r@ == data@.subrange(start as int, end as int),
{
    let mut r: Vec<u8> = Vec::new();
    let mut i: usize = start;
    while i < end
        invariant
            start <= i <= end <= data@.len(),
            r@ == data@.subrange(start as int, i as int),
        decreases end - i,
    {
        r.push(data[i]);
        i = i + 1;
        assert(r@ =~= data@.subrange(start as int, i as int));
    }
    r
}

/// The wire form of the insert `m`, with its site id at the end when
/// `include_site_id` holds.
pub open spec fn insert_wire(m: OpModel, include_site_id: bool) -> Seq<u8> {
    match m {
        OpModel::Insert { position, value, timestamp, site_id } => {
            let head = be_u32(timestamp) + be_u64(position as u64) + be_u32(value.len() as u32) + value;
            if include_site_id {
                head + be_u32(site_id)
            } else {
                head
            }
        },
        OpModel::Delete { .. } => Seq::empty(),
    }
}

/// The wire form of the delete `m`.
pub open spec fn delete_wire(m: OpModel) -> Seq<u8> {
    match m {
        OpModel::Insert { .. } => Seq::empty(),
        OpModel::Delete { position, length, timestamp } => be_u32(timestamp) + be_u64(
            position as u64,
        ) + be_u64(length as u64),
    }
}

/// The big-endian number held by the four bytes of `b` at `at`.
pub open spec fn u32_at(b: Seq<u8>, at: int) -> u32 {
    u32_of(b.subrange(at, at + 4))
}

/// The big-endian number held by the eight bytes of `b` at `at`.
pub open spec fn u64_at(b: Seq<u8>, at: int) -> u64 {
    u64_of(b.subrange(at, at + 8))
}

/// The insert that `b` begins with, and how many bytes it takes; with a
/// `lookup` from timestamps to (site id, remote time) the site id is looked up
/// rather than read.
pub open spec fn decode_insert(b: Seq<u8>, lookup: Option<Map<u32, (u32, u32)>>) -> Result<
    (OpModel, int),
    ErrorKind,
> {
    if b.len() < 16 {
        Err(ErrorKind::UnexpectedEnd)
    } else {
        let timestamp = u32_at(b, 0);
        let position = u64_at(b, 4) as int;
        let n = u32_at(b, 12) as int;
        if b.len() < 16 + n {
            Err(ErrorKind::UnexpectedEnd)
        } else {
            let value = b.subrange(16, 16 + n);
            match lookup {
                Some(table) => {
                    if table.contains_key(timestamp) {
                        Ok(
                            (
                                OpModel::Insert { position, value, timestamp, site_id: table[timestamp].0 },
                                16 + n,
                            ),
                        )
                    } else {
                        Err(ErrorKind::NoSuchState(timestamp))
                    }
                },
                None => {
                    if b.len() < 20 + n {
                        Err(ErrorKind::UnexpectedEnd)
                    } else {
                        Ok(
                            (
                                OpModel::Insert { position, value, timestamp, site_id: u32_at(b, 16 + n) },
                                20 + n,
                            ),
                        )
                    }
                },
            }
        }
    }
}

/// The delete that `b` begins with, and how many bytes it takes.
pub open spec fn decode_delete(b: Seq<u8>) -> Result<(OpModel, int), ErrorKind> {
    if b.len() < 20 {
        Err(ErrorKind::UnexpectedEnd)
    } else {
        Ok(
            (
                OpModel::Delete {
                    position: u64_at(b, 4) as int,
                    length: u64_at(b, 12) as int,
                    timestamp: u32_at(b, 0),
                },
                20,
            ),
        )
    }
}

/// The table of a lookup argument, as a map.
pub open spec fn lookup_view(lookup: Option<&BTreeMap<u32, (u32, u32)>>) -> Option<Map<u32, (u32, u32)>> {
    match lookup {
        Some(table) => Some(table@),
        None => None,
    }
}

/// Reading back the big-endian form of `n` gives `n`.
pub proof fn lemma_u32_round_trip(n: u32)
    ensures
        u32_of(be_u32(n)) == n,
{
    assert(((((n >> 24u32) as u8) as u32) << 24u32) | (((((n >> 16u32) & 0xff) as u8) as u32)
        << 16u32) | (((((n >> 8u32) & 0xff) as u8) as u32) << 8u32) | (((n & 0xff) as u8) as u32)
        == n) by (bit_vector);
}

/// Reading back the big-endian form of `n` gives `n`.
pub proof fn lemma_u64_round_trip(n: u64)
    ensures
        u64_of(be_u64(n)) == n,
{
    assert(((((n >> 56u64) as u8) as u64) << 56u64) | (((((n >> 48u64) & 0xff) as u8) as u64)
        << 48u64) | (((((n >> 40u64) & 0xff) as u8) as u64) << 40u64) | (((((n >> 32u64) & 0xff)
        as u8) as u64) << 32u64) | (((((n >> 24u64) & 0xff) as u8) as u64) << 24u64) | (((((n
        >> 16u64) & 0xff) as u8) as u64) << 16u64) | (((((n >> 8u64) & 0xff) as u8) as u64)
        << 8u64) | (((n & 0xff) as u8) as u64) == n) by (bit_vector);
}

/// Round trip of an insert: decoding its wire form, followed by any bytes,
/// gives the insert back and takes exactly the wire form. The site id is
/// written when no lookup table is given, and otherwise found in the table.
pub proof fn lemma_insert_round_trip(
    m: OpModel,
    lookup: Option<Map<u32, (u32, u32)>>,
    rest: Seq<u8>,
)
    requires
        m is Insert,
        0 <= m.position() <= u64::MAX,
        m->value.len() <= u32::MAX,
        lookup matches Some(table) ==> table.contains_key(m.timestamp()) && table[m.timestamp()].0
            == m->site_id,
    ensures
        ({
            let w = insert_wire(m, lookup is None);
            decode_insert(w + rest, lookup) == Ok::<(OpModel, int), ErrorKind>((m, w.len() as int))
        }),
{
    let w = insert_wire(m, lookup is None);
    let b = w + rest;
    let value = m->value;
    let n = value.len() as int;
    lemma_u32_round_trip(m.timestamp());
    lemma_u64_round_trip(m.position() as u64);
    lemma_u32_round_trip(value.len() as u32);
    lemma_u32_round_trip(m->site_id);
    assert(b.subrange(0, 4) =~= be_u32(m.timestamp()));
    assert(b.subrange(4, 12) =~= be_u64(m.position() as u64));
    assert(b.subrange(12, 16) =~= be_u32(value.len() as u32));
    assert(b.subrange(16, 16 + n) =~= value);
    if lookup is None {
        assert(b.subrange(16 + n, 20 + n) =~= be_u32(m->site_id));
    }
}

/// Round trip of a delete: decoding its wire form, followed by any bytes,
/// gives the delete back and takes exactly the wire form.
pub proof fn lemma_delete_round_trip(m: OpModel, rest: Seq<u8>)
    requires
        m is Delete,
        0 <= m.position() <= u64::MAX,
        0 <= m.width() <= u64::MAX,
    ensures
        decode_delete(delete_wire(m) + rest) == Ok::<(OpModel, int), ErrorKind>((m, 20)),
{
    let b = delete_wire(m) + rest;
    lemma_u32_round_trip(m.timestamp());
    lemma_u64_round_trip(m.position() as u64);
    lemma_u64_round_trip(m.width() as u64);
    assert(b.subrange(0, 4) =~= be_u32(m.timestamp()));
    assert(b.subrange(4, 12) =~= be_u64(m.position() as u64));
    assert(b.subrange(12, 20) =~= be_u64(m.width() as u64));
}

impl InsertOperation {
    /// Appends the wire form of this insert to `out`, with the site id when
    /// `include_site_id` holds; a reader then needs no timestamp table.
    pub fn compress_to(&self, out: &mut Vec<u8>, include_site_id: bool)
        requires
            self.model()->value.len() <= u32::MAX,
        ensures
            final(out)@ == old(out)@ + insert_wire(self.model(), include_site_id),
    {
        let value = self.get_value();
        append_bytes(out, &be_bytes_u32(self.get_timestamp()));
        append_bytes(out, &be_bytes_u64(self.get_position()));
        append_bytes(out, &be_bytes_u32(value.len() as u32));
        append_bytes(out, value);
        if include_site_id {
            append_bytes(out, &be_bytes_u32(self.get_site_id()));
        }
    }

    /// How many bytes the wire form of an insert takes, from its first
    /// `INSERT_HEADER_LEN` bytes; `None` when `header` is shorter, or when the
    /// length does not fit in a `usize`.
    pub fn wire_len(header: &[u8], include_site_id: bool) -> (r: Option<usize>)
        ensures
            header@.len() < 16 ==> r is None,
            header@.len() >= 16 ==> {
                let total = 16 + u32_at(header@, 12) + if include_site_id {
                    4int
                } else {
                    0int
                };
                r == if total <= usize::MAX {
                    Some(total as usize)
                } else {
                    None::<usize>
                }
            },
    {
        if header.len() < INSERT_HEADER_LEN {
            return None;
        }
        let value_len = read_be_u32(&header[12..16]) as usize;
        let fixed: usize = if include_site_id {
            INSERT_HEADER_LEN + 4
        } else {
            INSERT_HEADER_LEN
        };
        if value_len > usize::MAX - fixed {
            None
        } else {
            Some(fixed + value_len)
        }
    }

    /// Reads an insert from the front of `data`, as written by `compress_to`,
    /// and says how many bytes it took. With `timestamp_lookup` the site id
    /// comes from the table entry of the insert's timestamp.
    pub fn expand_from(data: &[u8], timestamp_lookup: Option<&BTreeMap<u32, (u32, u32)>>) -> (r:
        Result<(InsertOperation, usize), OTError>)
        ensures
            match r {
                Ok((op, n)) => decode_insert(data@, lookup_view(timestamp_lookup)) == Ok::<
                    (OpModel, int),
                    ErrorKind,
                >((op.model(), n as int)),
                Err(e) => decode_insert(data@, lookup_view(timestamp_lookup)) == Err::<(OpModel, int), ErrorKind>(e.kind_spec()),
            },
    {
        broadcast use vstd::std_specs::btree::group_btree_axioms, vstd::laws_cmp::group_laws_cmp;

        if data.len() < INSERT_HEADER_LEN {
            return Err(OTError::new(ErrorKind::UnexpectedEnd));
        }
        let timestamp = read_be_u32(&data[0..4]);
        let position = read_be_u64(&data[4..12]);
        let value_len = read_be_u32(&data[12..16]) as usize;
        if data.len() - 16 < value_len {
            return Err(OTError::new(ErrorKind::UnexpectedEnd));
        }
        let end = 16 + value_len;
        let value = copy_range(data, 16, end);
        let (site_id, consumed) = match timestamp_lookup {
            Some(table) => match table.get(&timestamp) {
                Some(entry) => (entry.0, end),
                None => {
                    return Err(OTError::new(ErrorKind::NoSuchState(timestamp)));
                },
            },
            None => {
                if data.len() - end < 4 {
                    return Err(OTError::new(ErrorKind::UnexpectedEnd));
                }
                (read_be_u32(&data[end..end + 4]), end + 4)
            },
        };
        Ok((InsertOperation::new(position, value, timestamp, site_id), consumed))
    }
}

impl DeleteOperation {
    /// Appends the wire form of this delete to `out`.
    pub fn compress_to(&self, out: &mut Vec<u8>)
        ensures
            final(out)@ == old(out)@ + delete_wire(self.model()),
    {
        append_bytes(out, &be_bytes_u32(self.get_timestamp()));
        append_bytes(out, &be_bytes_u64(self.get_position()));
        append_bytes(out, &be_bytes_u64(self.get_length()));
    }

    /// Reads a delete from the front of `data`, as written by `compress_to`,
    /// and says how many bytes it took.
    pub fn expand_from(data: &[u8]) -> (r: Result<(DeleteOperation, usize), OTError>)
        ensures
            match r {
                Ok((op, n)) => decode_delete(data@) == Ok::<(OpModel, int), ErrorKind>(
                    (op.model(), n as int),
                ),
                Err(e) => decode_delete(data@) == Err::<(OpModel, int), ErrorKind>(e.kind_spec()),
            },
    {
        if data.len() < DELETE_WIRE_LEN {
            return Err(OTError::new(ErrorKind::UnexpectedEnd));
        }
        let timestamp = read_be_u32(&data[0..4]);
        let position = read_be_u64(&data[4..12]);
        let length = read_be_u64(&data[12..20]);
        Ok((DeleteOperation::new(position, length, timestamp), DELETE_WIRE_LEN))
    }
}

} // verus!
