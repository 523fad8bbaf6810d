//! The default-MAC allocator: a reference-count table over the last byte
//! of the well-known default MAC prefix `52:54:00:12:34:XX`.
//!
//! The table is one process-wide resource; its single instance lives with
//! the embedding program, which hands it to `realize` and `unrealize`.

use vstd::prelude::*;

verus! {

use crate::errors::NetError;

/// Number of counted last-byte values.
pub const MAX_MAC_ADDR_NUM: usize = 255;

/// Last byte of the first default MAC address; allocation starts here.
pub const FIRST_DEFAULT_MAC_BYTE: u8 = 0x56;

/// The first five bytes of every default MAC address.
pub open spec fn default_mac_prefix() -> Seq<u8> {
    seq![0x52u8, 0x54u8, 0x00u8, 0x12u8, 0x34u8]
}

/// The lowest counted last byte with a zero reference count, from `i` up.
pub open spec fn spec_first_free(c: Seq<i8>, i: int) -> Option<int>
    decreases MAX_MAC_ADDR_NUM - i,
{
    if i < 0 || i >= MAX_MAC_ADDR_NUM {
        None
    } else if c[i] == 0 {
        Some(i)
    } else {
        spec_first_free(c, i + 1)
    }
}

/// The reference-count table of the default MAC addresses.
#[derive(Debug)]
pub struct MacPool {
    /// One signed count per last-byte value.
    pub counts: Vec<i8>,
}

impl MacPool {
    /// A fresh pool: every address free.
    pub fn new() -> (r: Self)
        ensures
            r.counts@.len() == MAX_MAC_ADDR_NUM,
            forall|i: int| 0 <= i < MAX_MAC_ADDR_NUM ==> r.counts@[i] == 0i8,
    {
        let mut counts: Vec<i8> = Vec::new();
        let mut i: usize = 0;
        while i < MAX_MAC_ADDR_NUM
            invariant
                i <= MAX_MAC_ADDR_NUM,
                counts@.len() == i,
                forall|j: int| 0 <= j < i ==> counts@[j] == 0i8,
            decreases MAX_MAC_ADDR_NUM - i,
        {
            counts.push(0);
            i += 1;
        }
        MacPool { counts }
    }

    /// Counts a user-supplied MAC in (`used` true) or out (`used` false).
    /// Only addresses carrying the default prefix and a counted last byte
    /// touch the table.
    pub fn mark_mac_table(&mut self, mac: &[u8], used: bool)
        requires
            mac@.len() >= 6,
            old(self).counts@.len() == MAX_MAC_ADDR_NUM,
            (mac@.subrange(0, 5) == default_mac_prefix() && mac@[5] >= FIRST_DEFAULT_MAC_BYTE
                && mac@[5] < MAX_MAC_ADDR_NUM) ==> (if used {
                old(self).counts@[mac@[5] as int] < i8::MAX
            } else {
                old(self).counts@[mac@[5] as int] > i8::MIN
            }),
        ensures
            final(self).counts@.len() == MAX_MAC_ADDR_NUM,
            (mac@.subrange(0, 5) == default_mac_prefix() && mac@[5] >= FIRST_DEFAULT_MAC_BYTE
                && mac@[5] < MAX_MAC_ADDR_NUM) ==> final(self).counts@ == old(self).counts@.update(
                mac@[5] as int,
                (if used {
                    old(self).counts@[mac@[5] as int] + 1
                } else {
                    old(self).counts@[mac@[5] as int] - 1
                }) as i8,
            ),
            !(mac@.subrange(0, 5) == default_mac_prefix() && mac@[5] >= FIRST_DEFAULT_MAC_BYTE
                && mac@[5] < MAX_MAC_ADDR_NUM) ==> final(self).counts@ == old(self).counts@,
    {
        let prefix_match = mac[0] == 0x52 && mac[1] == 0x54 && mac[2] == 0x00 && mac[3] == 0x12
            && mac[4] == 0x34;
        proof {
            if prefix_match {
                assert(mac@.subrange(0, 5) =~= default_mac_prefix());
            } else {
                if mac@.subrange(0, 5) == default_mac_prefix() {
                    assert(forall|i: int|
                        0 <= i < 5 ==> mac@.subrange(0, 5)[i] == default_mac_prefix()[i]);
                }
            }
        }
        if !prefix_match {
            return ;
        }
        let last = mac[5];
        if last >= FIRST_DEFAULT_MAC_BYTE && (last as usize) < MAX_MAC_ADDR_NUM {
            let idx = last as usize;
            let cur = self.counts[idx];
            let next = if used {
                cur + 1
            } else {
                cur - 1
            };
            self.counts[idx] = next;
        }
    }

    /// Reserves the first free default MAC address, or fails when every
    /// counted address is taken.
    pub fn get_default_mac_addr(&mut self) -> (r: Result<[u8; 6], NetError>)
        requires
            old(self).counts@.len() == MAX_MAC_ADDR_NUM,
        ensures
            final(self).counts@.len() == MAX_MAC_ADDR_NUM,
            match spec_first_free(old(self).counts@, FIRST_DEFAULT_MAC_BYTE as int) {
                Some(i) => {
                    &&& r is Ok
                    &&& r->Ok_0@ == default_mac_prefix().push(i as u8)
                    &&& final(self).counts@ == old(self).counts@.update(i, 1i8)
                },
                None => {
                    &&& r == Err::<[u8; 6], NetError>(NetError::MacPoolExhausted)
                    &&& final(self).counts@ == old(self).counts@
                },
            },
    {
        let mut i: usize = FIRST_DEFAULT_MAC_BYTE as usize;
        while i < MAX_MAC_ADDR_NUM
            invariant
                FIRST_DEFAULT_MAC_BYTE as int <= i as int <= MAX_MAC_ADDR_NUM,
                self.counts@.len() == MAX_MAC_ADDR_NUM,
                *self == *old(self),
                spec_first_free(self.counts@, FIRST_DEFAULT_MAC_BYTE as int) == spec_first_free(
                    self.counts@,
                    i as int,
                ),
            decreases MAX_MAC_ADDR_NUM - i as int,
        {
            if self.counts[i] == 0 {
                self.counts[i] = 1;
                let mac: [u8; 6] = [0x52, 0x54, 0x00, 0x12, 0x34, i as u8];
                proof {
                    assert(mac@ =~= default_mac_prefix().push(i as u8));
                }
                return Ok(mac);
            }
            i += 1;
        }
        Err(NetError::MacPoolExhausted)
    }
}

} // verus!
