use vstd::prelude::*;
use vstd::arithmetic::div_mod::lemma_fundamental_div_mod;

verus! {

/// The unsigned integer stored little-endian in the two bytes at `at`.
pub open spec fn le_u16_at(bytes: Seq<u8>, at: int) -> int {
    bytes[at] + 256 * bytes[at + 1]
}

/// The unsigned integer stored little-endian in the four bytes at `at`.
pub open spec fn le_u32_at(bytes: Seq<u8>, at: int) -> int {
    bytes[at] + 256 * bytes[at + 1] + 65536 * bytes[at + 2] + 16777216 * bytes[at + 3]
}

/// Whether `count` items of `size` bytes each, starting at byte `start`, can
/// be read from `len` bytes.
pub open spec fn fits(len: int, start: int, count: int, size: int) -> bool {
    count == 0 || start + size * count <= len
}

/// Whether `start + size * count <= len`, computed without overflow.
fn span_fits(len: usize, start: usize, count: usize, size: usize) -> (r: bool)
    requires
        1 <= size <= 4,
    ensures
        r == fits(len as int, start as int, count as int, size as int),
{
    if count == 0 {
        true
    } else if start > len {
        false
    } else {
        let room: usize = len - start;
        proof {
            lemma_fundamental_div_mod(room as int, size as int);
            let q = room as int / size as int;
            let rest = room as int % size as int;
            assert(count <= q <==> size * count <= room) by (nonlinear_arith)
                requires
                    room == size * q + rest,
                    0 <= rest < size,
                    1 <= size,
            ;
        }
        count <= room / size
    }
}

/// Reads `count` indices stored as little-endian `u16` values, one after the
/// other from byte `start` of `buffer`; `None` when they do not all lie in it.
pub fn read_u16_indices(buffer: &Vec<u8>, start: usize, count: usize) -> (r: Option<Vec<u32>>)
    ensures
        r is Some <==> fits(buffer@.len() as int, start as int, count as int, 2),
        r matches Some(v) ==> {
            &&& v@.len() == count
            &&& forall|i: int|
                0 <= i < count ==> #[trigger] v@[i] == le_u16_at(buffer@, start + 2 * i)
        },
{
    if !span_fits(buffer.len(), start, count, 2) {
        return None;
    }
    let mut indices: Vec<u32> = Vec::new();
    let len: usize = buffer.len();
    let mut i: usize = 0;
    while i < count
        invariant
            i <= count,
            len == buffer@.len(),
            fits(buffer@.len() as int, start as int, count as int, 2),
            indices@.len() == i,
            forall|j: int|
                0 <= j < i ==> #[trigger] indices@[j] == le_u16_at(buffer@, start + 2 * j),
        decreases count - i,
    {
        let offset: usize = start + 2 * i;
        let value: u32 = buffer[offset] as u32 + 256 * (buffer[offset + 1] as u32);
        indices.push(value);
        i = i + 1;
    }
    Some(indices)
}

/// Reads `count` indices stored as little-endian `u32` values, one after the
/// other from byte `start` of `buffer`; `None` when they do not all lie in it.
pub fn read_u32_indices(buffer: &Vec<u8>, start: usize, count: usize) -> (r: Option<Vec<u32>>)
    ensures
        r is Some <==> fits(buffer@.len() as int, start as int, count as int, 4),
        r matches Some(v) ==> {
            &&& v@.len() == count
            &&& forall|i: int|
                0 <= i < count ==> #[trigger] v@[i] == le_u32_at(buffer@, start + 4 * i)
        },
{
    if !span_fits(buffer.len(), start, count, 4) {
        return None;
    }
    let mut indices: Vec<u32> = Vec::new();
    let len: usize = buffer.len();
    let mut i: usize = 0;
    while i < count
        invariant
            i <= count,
            len == buffer@.len(),
            fits(buffer@.len() as int, start as int, count as int, 4),
            indices@.len() == i,
            forall|j: int|
                0 <= j < i ==> #[trigger] indices@[j] == le_u32_at(buffer@, start + 4 * j),
        decreases count - i,
    {
        let offset: usize = start + 4 * i;
        let value: u32 = buffer[offset] as u32 + 256 * (buffer[offset + 1] as u32) + 65536 * (
        buffer[offset + 2] as u32) + 16777216 * (buffer[offset + 3] as u32);
        indices.push(value);
        i = i + 1;
    }
    Some(indices)
}

} // verus!
