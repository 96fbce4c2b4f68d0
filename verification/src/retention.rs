//! The on-chip register-retention list.
//!
//! The chip restores up to four register addresses across warm-sleep
//! cycles. The list lives in chip memory as nine bytes: a count, then four
//! big-endian address slots. Adding an address is a read–modify–write:
//! these functions are the modify step, and they make the add idempotent —
//! an address already present changes nothing, and the count can never pass
//! four.

use vstd::prelude::*;
use crate::mod_params::RadioError;

verus! {

/// Bytes of the retention list image.
pub open spec fn spec_retention_wf(buf: Seq<u8>) -> bool {
    buf.len() == 9 && buf[0] <= 4
}

/// The stored entry count.
pub open spec fn spec_retention_count(buf: Seq<u8>) -> int {
    buf[0] as int
}

/// The `i`-th stored address, big endian.
pub open spec fn spec_retention_entry(buf: Seq<u8>, i: int) -> u16 {
    ((buf[1 + 2 * i] as int) * 256 + (buf[2 + 2 * i] as int)) as u16
}

/// The stored addresses, in slot order.
pub open spec fn spec_retention_entries(buf: Seq<u8>) -> Seq<u16> {
    Seq::new(spec_retention_count(buf) as nat, |i: int| spec_retention_entry(buf, i))
}

/// Whether `addr` is already stored.
pub open spec fn spec_retention_contains(buf: Seq<u8>, addr: u16) -> bool {
    spec_retention_entries(buf).contains(addr)
}

/// The list image after appending `addr` in the first free slot.
pub open spec fn spec_retention_insert(buf: Seq<u8>, addr: u16) -> Seq<u8> {
    let c = spec_retention_count(buf);
    buf.update(0, (c + 1) as u8).update(1 + 2 * c, (addr / 256) as u8).update(
        2 + 2 * c,
        (addr % 256) as u8,
    )
}

/// Computes the updated retention list image for adding `addr`.
///
/// `Ok(None)` means the address is already stored and the chip needs no
/// write; `Ok(Some(new))` is the image to write back; a full list (or a
/// count past four, which a healthy chip never reports) is refused.
pub fn retention_list_add(buf: &Vec<u8>, addr: u16) -> (r: Result<Option<Vec<u8>>, RadioError>)
    requires
        buf@.len() == 9,
    ensures
        r matches Err(e) ==> e is RetentionListExceeded,
        buf@[0] > 4 ==> r is Err,
        spec_retention_wf(buf@) ==> {
            &&& r is Err <==> spec_retention_count(buf@) == 4 && !spec_retention_contains(
                buf@,
                addr,
            )
            &&& (r matches Ok(o) ==> ((o is None) <==> spec_retention_contains(buf@, addr)))
            &&& (r matches Ok(o) ==> (o matches Some(v) ==> {
                &&& v@ == spec_retention_insert(buf@, addr)
                &&& spec_retention_wf(v@)
                &&& spec_retention_entries(v@) == spec_retention_entries(buf@).push(addr)
            }))
        },
{
    let count: u8 = buf[0];
    if count > 4 {
        return Err(RadioError::RetentionListExceeded);
    }

    let mut i: u8 = 0;
    while i < count
        invariant
            i <= count <= 4,
            count == buf@[0],
            buf@.len() == 9,
            forall|j: int| 0 <= j < i ==> spec_retention_entry(buf@, j) != addr,
        decreases count - i,
    {
        let hi: u8 = buf[1 + 2 * (i as usize)];
        let lo: u8 = buf[2 + 2 * (i as usize)];
        let entry: u16 = (hi as u16) * 256 + (lo as u16);
        if entry == addr {
            proof {
                assert((buf@[1 + 2 * (i as int)] as int) * 256 + (buf@[2 + 2 * (i as int)] as int)
                    <= 65535);
                assert(spec_retention_entry(buf@, i as int) == entry);
                assert(spec_retention_entries(buf@)[i as int] == addr);
                assert(spec_retention_contains(buf@, addr));
            }
            return Ok(None);
        }
        i = i + 1;
    }

    proof {
        let entries = spec_retention_entries(buf@);
        assert forall|k: int| 0 <= k < entries.len() implies entries[k] != addr by {
            assert(spec_retention_entry(buf@, k) != addr);
        }
        assert(!spec_retention_contains(buf@, addr));
    }

    if count == 4 {
        return Err(RadioError::RetentionListExceeded);
    }

    let mut new_buf: Vec<u8> = Vec::new();
    new_buf.extend_from_slice(buf.as_slice());
    new_buf.set(0, count + 1);
    new_buf.set(1 + 2 * (count as usize), (addr / 256) as u8);
    new_buf.set(2 + 2 * (count as usize), (addr % 256) as u8);
    proof {
        assert(new_buf@ =~= spec_retention_insert(buf@, addr));
        assert(spec_retention_entries(new_buf@) =~= spec_retention_entries(buf@).push(addr));
    }
    Ok(Some(new_buf))
}

/// Adding an address makes it stored, so a second add of the same address
/// is a no-op: it reports the address as present and changes no byte.
pub proof fn lemma_retention_add_idempotent(buf: Seq<u8>, addr: u16)
    requires
        spec_retention_wf(buf),
        spec_retention_count(buf) < 4,
    ensures
        spec_retention_contains(spec_retention_insert(buf, addr), addr),
{
    let new = spec_retention_insert(buf, addr);
    let c = spec_retention_count(buf);
    assert(spec_retention_entry(new, c) == addr) by {
        assert(new[1 + 2 * c] == (addr / 256) as u8);
        assert(new[2 + 2 * c] == (addr % 256) as u8);
        assert((addr / 256) * 256 + (addr % 256) == addr) by {
            vstd::arithmetic::div_mod::lemma_fundamental_div_mod(addr as int, 256);
        }
    }
    assert(spec_retention_entries(new)[c] == addr);
}

/// Appending an address that is not yet stored keeps the stored addresses
/// pairwise distinct.
pub proof fn lemma_retention_add_keeps_distinct(buf: Seq<u8>, addr: u16)
    requires
        spec_retention_wf(buf),
        spec_retention_count(buf) < 4,
        !spec_retention_contains(buf, addr),
        spec_retention_entries(buf).no_duplicates(),
    ensures
        spec_retention_entries(spec_retention_insert(buf, addr)).no_duplicates(),
{
    let old_entries = spec_retention_entries(buf);
    let new_entries = spec_retention_entries(spec_retention_insert(buf, addr));
    assert(new_entries =~= old_entries.push(addr));
    assert forall|i: int, j: int|
        0 <= i < new_entries.len() && 0 <= j < new_entries.len() && i != j implies new_entries[i]
        != new_entries[j] by {
        if i < old_entries.len() && j < old_entries.len() {
        } else if i < old_entries.len() {
            assert(old_entries.contains(old_entries[i]));
        } else if j < old_entries.len() {
            assert(old_entries.contains(old_entries[j]));
        }
    }
}

} // verus!
