//! Frame codec helpers: byte-stuffing, CRC16 and MIFARE Classic block
//! addressing.
//!
//! The stuffing transform escapes every byte in the reserved delimiter range
//! `0xFD..=0xFF` so that a frame body can never be confused with the frame
//! delimiters `0xFD` / `0xFE` that are added around it.

use vstd::prelude::*;

verus! {

/// How one body byte is escaped: bytes below `0xFD` pass through unchanged,
/// the reserved bytes `0xFD..=0xFF` become `0xFF` followed by the byte's
/// complement.
pub open spec fn stuff_byte_spec(b: u8) -> Seq<u8> {
    if b < 0xFD {
        seq![b]
    } else {
        seq![0xFFu8, (0xFF - b) as u8]
    }
}

/// The byte-stuffed form of a whole body.
pub open spec fn stuff_spec(data: Seq<u8>) -> Seq<u8>
    decreases data.len(),
{
    if data.len() == 0 {
        Seq::empty()
    } else {
        stuff_byte_spec(data[0]) + stuff_spec(data.skip(1))
    }
}

/// The inverse transform. `0xFF` is never data: it marks "invert the next
/// byte". A trailing `0xFF` with no byte left to invert is a malformed
/// stream, decoded as `None`.
pub open spec fn unstuff_spec(data: Seq<u8>) -> Option<Seq<u8>>
    decreases data.len(),
{
    if data.len() == 0 {
        Some(Seq::empty())
    } else if data[0] == 0xFF {
        if data.len() == 1 {
            None
        } else {
            match unstuff_spec(data.skip(2)) {
                Some(rest) => Some(seq![(0xFF - data[1]) as u8] + rest),
                None => None,
            }
        }
    } else {
        match unstuff_spec(data.skip(1)) {
            Some(rest) => Some(seq![data[0]] + rest),
            None => None,
        }
    }
}

proof fn lemma_stuff_spec_push(s: Seq<u8>, b: u8)
    ensures
        stuff_spec(s.push(b)) == stuff_spec(s) + stuff_byte_spec(b),
    decreases s.len(),
{
    if s.len() == 0 {
        assert(s.push(b)[0] == b);
        assert(s.push(b).skip(1) =~= Seq::<u8>::empty());
        assert(stuff_spec(s.push(b)) == stuff_byte_spec(b) + stuff_spec(Seq::<u8>::empty()));
        assert(stuff_spec(s.push(b)) =~= stuff_spec(s) + stuff_byte_spec(b));
    } else {
        lemma_stuff_spec_push(s.skip(1), b);
        assert(s.push(b)[0] == s[0]);
        assert(s.push(b).skip(1) =~= s.skip(1).push(b));
        assert(stuff_spec(s.push(b)) == stuff_byte_spec(s[0]) + (stuff_spec(s.skip(1))
            + stuff_byte_spec(b)));
        assert(stuff_spec(s.push(b)) =~= stuff_spec(s) + stuff_byte_spec(b));
    }
}

/// Escape a frame body so that it contains no raw delimiter bytes.
pub fn byte_stuff(data: &Vec<u8>) -> (stuffed: Vec<u8>)
    ensures
        stuffed@ == stuff_spec(data@),
{
    let mut stuffed_data: Vec<u8> = Vec::new();
    let mut i: usize = 0;
    while i < data.len()
        invariant
            i <= data.len(),
            stuffed_data@ == stuff_spec(data@.take(i as int)),
        decreases data.len() - i,
    {
        let b = data[i];
        if b < 0xFD {
            stuffed_data.push(b);
        } else {
            stuffed_data.push(0xFF);
            stuffed_data.push(0xFF - b);
        }
        proof {
            lemma_stuff_spec_push(data@.take(i as int), b);
            assert(data@.take(i as int).push(b) =~= data@.take(i + 1));
            assert(stuffed_data@ =~= stuff_spec(data@.take(i as int)) + stuff_byte_spec(b));
        }
        i = i + 1;
    }
    proof {
        assert(data@.take(data@.len() as int) =~= data@);
    }
    stuffed_data
}

/// Undo [`byte_stuff`]. Returns `None` when the stream ends in a dangling
/// escape byte, which cannot come from a correctly stuffed body.
pub fn unbyte_stuff(stuffed_data: &Vec<u8>) -> (data: Option<Vec<u8>>)
    ensures
        match data {
            Some(v) => unstuff_spec(stuffed_data@) == Some(v@),
            None => unstuff_spec(stuffed_data@) is None,
        },
{
    let mut data: Vec<u8> = Vec::new();
    let mut i: usize = 0;
    proof {
        assert(stuffed_data@.skip(0) =~= stuffed_data@);
        if unstuff_spec(stuffed_data@) is Some {
            assert(data@ + unstuff_spec(stuffed_data@)->Some_0 =~= unstuff_spec(
                stuffed_data@,
            )->Some_0);
        }
    }
    while i < stuffed_data.len()
        invariant
            i <= stuffed_data.len(),
            unstuff_spec(stuffed_data@) == match unstuff_spec(stuffed_data@.skip(i as int)) {
                Some(rest) => Some(data@ + rest),
                None => None::<Seq<u8>>,
            },
        decreases stuffed_data.len() - i,
    {
        let b = stuffed_data[i];
        if b == 0xFF {
            if i + 1 == stuffed_data.len() {
                proof {
                    assert(stuffed_data@.skip(i as int).len() == 1);
                }
                return None;
            }
            let c = stuffed_data[i + 1];
            data.push(0xFF - c);
            proof {
                assert(stuffed_data@.skip(i as int).skip(2) =~= stuffed_data@.skip(i + 2));
                assert(stuffed_data@.skip(i as int)[1] == c);
                assert(forall|rest: Seq<u8>|
                    data@ + rest =~= data@.subrange(0, data@.len() - 1) + (seq![
                        (0xFF - c) as u8,
                    ] + rest));
            }
            i = i + 2;
        } else {
            data.push(b);
            proof {
                assert(stuffed_data@.skip(i as int).skip(1) =~= stuffed_data@.skip(i + 1));
                assert(forall|rest: Seq<u8>|
                    data@ + rest =~= data@.subrange(0, data@.len() - 1) + (seq![b] + rest));
            }
            i = i + 1;
        }
    }
    proof {
        assert(stuffed_data@.skip(i as int) =~= Seq::<u8>::empty());
        assert(data@ + Seq::<u8>::empty() =~= data@);
    }
    Some(data)
}

/// Unstuffing a stuffed body followed by any tail consumes the body exactly:
/// the escapes inside `stuff_spec(data)` never reach into `tail`.
pub proof fn lemma_unstuff_stuff_prefix(data: Seq<u8>, tail: Seq<u8>)
    ensures
        unstuff_spec(stuff_spec(data) + tail) == match unstuff_spec(tail) {
            Some(rest) => Some(data + rest),
            None => None::<Seq<u8>>,
        },
    decreases data.len(),
{
    if data.len() == 0 {
        assert(stuff_spec(data) + tail =~= tail);
        if unstuff_spec(tail) is Some {
            assert(data + unstuff_spec(tail)->Some_0 =~= unstuff_spec(tail)->Some_0);
        }
    } else {
        let b = data[0];
        let whole = stuff_spec(data) + tail;
        lemma_unstuff_stuff_prefix(data.skip(1), tail);
        if b < 0xFD {
            assert(whole[0] == b);
            assert(whole.skip(1) =~= stuff_spec(data.skip(1)) + tail);
            match unstuff_spec(tail) {
                Some(rest) => {
                    assert(seq![b] + (data.skip(1) + rest) =~= data + rest);
                }
                None => {}
            }
        } else {
            assert(whole[0] == 0xFF);
            assert(whole[1] == (0xFF - b) as u8);
            assert(whole.len() >= 2);
            assert(whole.skip(2) =~= stuff_spec(data.skip(1)) + tail);
            match unstuff_spec(tail) {
                Some(rest) => {
                    assert((0xFF - (0xFF - b)) as u8 == b);
                    assert(seq![b] + (data.skip(1) + rest) =~= data + rest);
                }
                None => {}
            }
        }
    }
}

/// Stuffing round-trip law: unstuffing a stuffed body restores it exactly.
pub proof fn lemma_byte_stuff_round_trip(data: Seq<u8>)
    ensures
        unstuff_spec(stuff_spec(data)) == Some(data),
{
    lemma_unstuff_stuff_prefix(data, Seq::empty());
    assert(stuff_spec(data) + Seq::<u8>::empty() =~= stuff_spec(data));
    assert(data + Seq::<u8>::empty() =~= data);
}

/// Stuffing safety law: a stuffed body never contains a raw frame delimiter
/// (`0xFD` or `0xFE`), so the delimiters added around it stay unambiguous.
pub proof fn lemma_byte_stuff_no_delimiters(data: Seq<u8>)
    ensures
        forall|i: int|
            0 <= i < stuff_spec(data).len() ==> stuff_spec(data)[i] != 0xFD && stuff_spec(data)[i]
                != 0xFE,
    decreases data.len(),
{
    if data.len() > 0 {
        lemma_byte_stuff_no_delimiters(data.skip(1));
        let head = stuff_byte_spec(data[0]);
        assert(stuff_spec(data) == head + stuff_spec(data.skip(1)));
        assert forall|i: int|
            0 <= i < stuff_spec(data).len() implies stuff_spec(data)[i] != 0xFD && stuff_spec(
            data,
        )[i] != 0xFE by {
            if i < head.len() {
                assert(stuff_spec(data)[i] == head[i]);
            } else {
                assert(stuff_spec(data)[i] == stuff_spec(data.skip(1))[i - head.len()]);
            }
        }
    }
}

/// One bit iteration of the reflected CRC-16 with polynomial `0x8408`.
pub open spec fn crc16_bit_step(crc: u16) -> u16 {
    if crc & 0x0001 != 0 {
        (crc >> 1) ^ 0x8408
    } else {
        crc >> 1
    }
}

/// `n` bit iterations applied to `crc`.
pub open spec fn crc16_bit_steps(crc: u16, n: nat) -> u16
    decreases n,
{
    if n == 0 {
        crc
    } else {
        crc16_bit_step(crc16_bit_steps(crc, (n - 1) as nat))
    }
}

/// Absorbing one data byte: XOR it into the low byte of the register, then
/// run eight bit iterations.
pub open spec fn crc16_byte_step(crc: u16, b: u8) -> u16 {
    crc16_bit_steps(crc ^ (b as u16), 8)
}

/// The CRC register after absorbing every byte of `data`, starting from
/// `crc`.
pub open spec fn crc16_fold(crc: u16, data: Seq<u8>) -> u16
    decreases data.len(),
{
    if data.len() == 0 {
        crc
    } else {
        crc16_byte_step(crc16_fold(crc, data.drop_last()), data.last())
    }
}

/// The two checksum bytes of `data`: initial value `0xFFFF`, final value
/// XORed with `0xFFFF`, low byte first.
pub open spec fn crc16_spec(data: Seq<u8>) -> Seq<u8> {
    let f = crc16_fold(0xFFFF, data) ^ 0xFFFF;
    seq![(f & 0x00FF) as u8, ((f >> 8) & 0x00FF) as u8]
}

/// Checksum of the sub-range `[start, start + count)` of a buffer.
pub fn crc16_ex(buf: &Vec<u8>, start: usize, count: usize) -> (fsc: Vec<u8>)
    requires
        start + count <= buf@.len(),
    ensures
        fsc@ == crc16_spec(buf@.subrange(start as int, start + count)),
{
    let mut crc: u16 = 0xFFFF;
    let buf_len = buf.len();
    let end = start + count;
    let mut pos = start;
    proof {
        assert(buf@.subrange(start as int, start as int) =~= Seq::<u8>::empty());
    }
    while pos < end
        invariant
            start <= pos <= end,
            end == start + count <= buf@.len(),
            crc == crc16_fold(0xFFFF, buf@.subrange(start as int, pos as int)),
        decreases end - pos,
    {
        let b = buf[pos];
        crc = crc ^ ((b as u16) & 0x00FF);
        proof {
            assert((b as u16) & 0x00FF == b as u16) by (bit_vector);
        }
        let ghost crc0 = crc;
        let mut k: usize = 0;
        while k < 8
            invariant
                k <= 8,
                crc == crc16_bit_steps(crc0, k as nat),
            decreases 8 - k,
        {
            if (crc & 0x0001) != 0 {
                crc = crc >> 1;
                crc = crc ^ 0x8408;
            } else {
                crc = crc >> 1;
            }
            k = k + 1;
        }
        proof {
            let prefix = buf@.subrange(start as int, pos as int);
            let next = buf@.subrange(start as int, pos + 1);
            assert(next.drop_last() =~= prefix);
            assert(next.last() == b);
        }
        pos = pos + 1;
    }
    let folded = crc ^ 0xFFFF;
    proof {
        assert(folded & 0x00FF < 256 && (folded >> 8) & 0x00FF < 256) by (bit_vector);
    }
    let mut fsc: Vec<u8> = Vec::new();
    fsc.push((folded & 0x00FF) as u8);
    fsc.push(((folded >> 8) & 0x00FF) as u8);
    proof {
        assert(fsc@ =~= crc16_spec(buf@.subrange(start as int, start + count)));
    }
    fsc
}

/// Checksum of a whole buffer.
pub fn crc16(buf: &Vec<u8>) -> (fsc: Vec<u8>)
    ensures
        fsc@ == crc16_spec(buf@),
{
    let buf_len = buf.len();
    let fsc = crc16_ex(buf, 0, buf_len);
    proof {
        assert(buf@.subrange(0, buf@.len() as int) =~= buf@);
    }
    fsc
}

proof fn lemma_crc16_bit_step_injective(x: u16, y: u16)
    ensures
        crc16_bit_step(x) == crc16_bit_step(y) ==> x == y,
{
    assert((if x & 0x0001 != 0 {
        (x >> 1) ^ 0x8408
    } else {
        x >> 1
    }) == (if y & 0x0001 != 0 {
        (y >> 1) ^ 0x8408
    } else {
        y >> 1
    }) ==> x == y) by (bit_vector);
}

proof fn lemma_crc16_bit_steps_injective(x: u16, y: u16, n: nat)
    ensures
        crc16_bit_steps(x, n) == crc16_bit_steps(y, n) ==> x == y,
    decreases n,
{
    if n > 0 {
        lemma_crc16_bit_steps_injective(x, y, (n - 1) as nat);
        lemma_crc16_bit_step_injective(
            crc16_bit_steps(x, (n - 1) as nat),
            crc16_bit_steps(y, (n - 1) as nat),
        );
    }
}

proof fn lemma_crc16_byte_step_injective(c1: u16, c2: u16, b1: u8, b2: u8)
    ensures
        crc16_byte_step(c1, b1) == crc16_byte_step(c2, b2) ==> c1 ^ (b1 as u16) == c2 ^ (
        b2 as u16),
{
    lemma_crc16_bit_steps_injective(c1 ^ (b1 as u16), c2 ^ (b2 as u16), 8);
}

proof fn lemma_crc16_fold_injective_in_state(c1: u16, c2: u16, data: Seq<u8>)
    ensures
        crc16_fold(c1, data) == crc16_fold(c2, data) ==> c1 == c2,
    decreases data.len(),
{
    if data.len() > 0 {
        lemma_crc16_fold_injective_in_state(c1, c2, data.drop_last());
        let f1 = crc16_fold(c1, data.drop_last());
        let f2 = crc16_fold(c2, data.drop_last());
        let b = data.last();
        lemma_crc16_byte_step_injective(f1, f2, b, b);
        assert(f1 ^ (b as u16) == f2 ^ (b as u16) ==> f1 == f2) by (bit_vector);
    }
}

proof fn lemma_crc16_fold_detects_byte_change(crc: u16, s1: Seq<u8>, s2: Seq<u8>, j: int)
    requires
        s1.len() == s2.len(),
        0 <= j < s1.len(),
        s1[j] != s2[j],
        forall|i: int| 0 <= i < s1.len() && i != j ==> s1[i] == s2[i],
    ensures
        crc16_fold(crc, s1) != crc16_fold(crc, s2),
    decreases s1.len(),
{
    let f1 = crc16_fold(crc, s1.drop_last());
    let f2 = crc16_fold(crc, s2.drop_last());
    if j == s1.len() - 1 {
        assert(s1.drop_last() =~= s2.drop_last());
        let b1 = s1.last();
        let b2 = s2.last();
        lemma_crc16_byte_step_injective(f1, f2, b1, b2);
        assert(f1 == f2);
        assert(!(f1 ^ (b1 as u16) == f1 ^ (b2 as u16) && b1 != b2)) by (bit_vector);
    } else {
        lemma_crc16_fold_detects_byte_change(crc, s1.drop_last(), s2.drop_last(), j);
        assert(s1.last() == s2.last());
        let b = s1.last();
        lemma_crc16_byte_step_injective(f1, f2, b, b);
        assert(f1 ^ (b as u16) == f2 ^ (b as u16) ==> f1 == f2) by (bit_vector);
    }
}

/// Error-detection law of the checksum: two bodies of the same length that
/// differ in exactly one byte always have different checksums, so the check
/// that [`crate::reader::parse_response`] performs can never accept a frame
/// whose body was corrupted within one byte — in particular a single flipped
/// bit.
pub proof fn lemma_crc16_detects_byte_change(s1: Seq<u8>, s2: Seq<u8>, j: int)
    requires
        s1.len() == s2.len(),
        0 <= j < s1.len(),
        s1[j] != s2[j],
        forall|i: int| 0 <= i < s1.len() && i != j ==> s1[i] == s2[i],
    ensures
        crc16_spec(s1) != crc16_spec(s2),
{
    lemma_crc16_fold_detects_byte_change(0xFFFF, s1, s2, j);
    let r1 = crc16_fold(0xFFFF, s1);
    let r2 = crc16_fold(0xFFFF, s2);
    let f1 = r1 ^ 0xFFFF;
    let f2 = r2 ^ 0xFFFF;
    assert(!(r1 != r2 && (r1 ^ 0xFFFF) == (r2 ^ 0xFFFF))) by (bit_vector);
    assert(!((f1 & 0x00FF) as u8 == (f2 & 0x00FF) as u8 && ((f1 >> 8) & 0x00FF) as u8 == ((f2 >> 8)
        & 0x00FF) as u8 && f1 != f2)) by (bit_vector);
    if (f1 & 0x00FF) as u8 != (f2 & 0x00FF) as u8 {
        assert(crc16_spec(s1)[0] != crc16_spec(s2)[0]);
    } else {
        assert(crc16_spec(s1)[1] != crc16_spec(s2)[1]);
    }
}

/// Single-bit variant of the error-detection law: flipping bit `k` of byte
/// `j` of a body always changes its checksum.
pub proof fn lemma_crc16_detects_bit_flip(s: Seq<u8>, j: int, k: u8)
    requires
        0 <= j < s.len(),
        k < 8,
    ensures
        crc16_spec(s.update(j, s[j] ^ (1u8 << k))) != crc16_spec(s),
{
    let b = s[j];
    assert(b ^ (1u8 << k) != b) by (bit_vector)
        requires
            k < 8,
    ;
    lemma_crc16_detects_byte_change(s.update(j, s[j] ^ (1u8 << k)), s, j);
}

/// MIFARE Classic linear block index of `(sector, block)`: sectors below 32
/// hold 4 blocks each, sectors 32 to 39 hold 16 blocks each. Out-of-range
/// pairs have no address.
pub open spec fn absolute_block_spec(sector: u8, block: u8) -> Option<u8> {
    if sector < 32 && block < 4 {
        Some((sector * 4 + block) as u8)
    } else if 32 <= sector && sector < 40 && block < 16 {
        Some((128 + (sector - 32) * 16 + block) as u8)
    } else {
        None
    }
}

/// Convert a MIFARE Classic `(sector, block)` pair into the reader's single
/// linear block index, validating that the block exists in that sector.
pub fn get_absolute_block_address(sector: u8, block: u8) -> (addr: Option<u8>)
    ensures
        addr == absolute_block_spec(sector, block),
{
    if sector < 32 {
        if block < 4 {
            Some(sector * 4 + block)
        } else {
            None
        }
    } else if sector < 40 {
        if block < 16 {
            Some(128 + (sector - 32) * 16 + block)
        } else {
            None
        }
    } else {
        None
    }
}

/// Copy of the byte range `[start, end)` of a buffer.
pub fn vec_subrange(v: &Vec<u8>, start: usize, end: usize) -> (r: Vec<u8>)
    requires
        start <= end <= v@.len(),
    ensures
        r@ == v@.subrange(start as int, end as int),
{
    let mut r: Vec<u8> = Vec::new();
    let mut i = start;
    proof {
        assert(r@ =~= v@.subrange(start as int, start as int));
    }
    while i < end
        invariant
            start <= i <= end <= v@.len(),
            r@ == v@.subrange(start as int, i as int),
        decreases end - i,
    {
        r.push(v[i]);
        proof {
            assert(v@.subrange(start as int, i + 1) =~= v@.subrange(start as int, i as int).push(
                v@[i as int],
            ));
        }
        i = i + 1;
    }
    proof {
        assert(r@ =~= v@.subrange(start as int, end as int));
    }
    r
}

} // verus!
