//! Parsing a textual MAC address of the form `52:54:00:12:34:56`.
//!
//! The accepted grammar is that of parsing each colon-separated segment as
//! a hexadecimal byte: a segment is an optional leading `+`, then one or
//! more hexadecimal digits, with a value of at most 255.  Missing trailing
//! segments leave their bytes zero.

use vstd::prelude::*;
use vstd::string::StrSliceExecFns;

verus! {

/// Whether `c` is a hexadecimal digit (`0-9`, `a-f`, `A-F`).
pub open spec fn is_hex_digit(c: char) -> bool {
    (48 <= c as u32 && c as u32 <= 57) || (97 <= c as u32 && c as u32 <= 102) || (65 <= c as u32
        && c as u32 <= 70)
}

/// The value of a hexadecimal digit.
pub open spec fn hex_val(c: char) -> int {
    if 48 <= c as u32 && c as u32 <= 57 {
        c as u32 - 48
    } else if 97 <= c as u32 && c as u32 <= 102 {
        c as u32 - 87
    } else {
        c as u32 - 55
    }
}

/// Folds hexadecimal digits into a value from the left; any non-digit
/// spoils the segment.
pub open spec fn seg_val_acc(b: Seq<char>, a: int) -> Option<int>
    decreases b.len(),
{
    if b.len() == 0 {
        Some(a)
    } else if !is_hex_digit(b[0]) {
        None
    } else {
        seg_val_acc(b.subrange(1, b.len() as int), a * 16 + hex_val(b[0]))
    }
}

/// The byte value of one segment: an optional leading `+`, at least one
/// digit, value at most 255.
pub open spec fn spec_seg_byte(cs: Seq<char>) -> Option<u8> {
    let body = if cs.len() >= 1 && cs[0] == '+' {
        cs.subrange(1, cs.len() as int)
    } else {
        cs
    };
    if body.len() == 0 {
        None
    } else {
        match seg_val_acc(body, 0) {
            None => None,
            Some(v) => if v <= 255 {
                Some(v as u8)
            } else {
                None
            },
        }
    }
}

/// Folds the characters of `s` from position `i` on into MAC bytes:
/// `seg` is the segment collected so far, `idx` the byte it will land in,
/// `bytes` the bytes settled so far.
pub open spec fn parse_mac_from(
    s: Seq<char>,
    i: int,
    idx: int,
    seg: Seq<char>,
    bytes: Seq<u8>,
) -> Option<Seq<u8>>
    decreases s.len() - i,
{
    if i < 0 || i >= s.len() {
        match spec_seg_byte(seg) {
            None => None,
            Some(b) => Some(bytes.update(idx, b)),
        }
    } else if s[i] == ':' {
        match spec_seg_byte(seg) {
            None => None,
            Some(b) => parse_mac_from(s, i + 1, idx + 1, Seq::empty(), bytes.update(idx, b)),
        }
    } else {
        parse_mac_from(s, i + 1, idx, seg.push(s[i]), bytes)
    }
}

/// The six MAC bytes encoded by `s`, or nothing when any segment is
/// malformed.  Trailing bytes not covered by a segment stay zero.
pub open spec fn spec_parse_mac(s: Seq<char>) -> Option<Seq<u8>> {
    parse_mac_from(s, 0, 0, Seq::empty(), seq![0u8, 0u8, 0u8, 0u8, 0u8, 0u8])
}

/// Number of colons in `s`.
pub open spec fn count_colons(s: Seq<char>) -> int
    decreases s.len(),
{
    if s.len() == 0 {
        0
    } else {
        (if s[0] == ':' {
            1int
        } else {
            0int
        }) + count_colons(s.subrange(1, s.len() as int))
    }
}

/// Colon counts are never negative.
proof fn lemma_count_colons_nonneg(s: Seq<char>)
    ensures
        count_colons(s) >= 0,
    decreases s.len(),
{
    if s.len() > 0 {
        lemma_count_colons_nonneg(s.subrange(1, s.len() as int));
    }
}

/// How the fold value of a segment body evolves when one character is
/// appended.
proof fn lemma_seg_val_push(b: Seq<char>, a: int, c: char)
    ensures
        ({
            let r0 = seg_val_acc(b, a);
            let r1 = seg_val_acc(b.push(c), a);
            match r0 {
                Some(v) => r1 == (if is_hex_digit(c) {
                    Some(v * 16 + hex_val(c))
                } else {
                    None::<int>
                }),
                None => r1 is None,
            }
        }),
    decreases b.len(),
{
    if b.len() == 0 {
        assert(b.push(c) =~= seq![c]);
        assert(seq![c].subrange(1, 1) =~= Seq::<char>::empty());
        assert(seg_val_acc(Seq::<char>::empty(), a * 16 + hex_val(c)) == Some(a * 16 + hex_val(c)));
        if is_hex_digit(c) {
            assert(seg_val_acc(seq![c], a) == Some(a * 16 + hex_val(c)));
        } else {
            assert(seg_val_acc(seq![c], a) is None);
        }
    } else {
        assert(b.push(c).len() == b.len() + 1);
        assert(b.push(c)[0] == b[0]);
        assert(b.push(c).subrange(1, b.push(c).len() as int) =~= b.subrange(
            1,
            b.len() as int,
        ).push(c));
        lemma_seg_val_push(b.subrange(1, b.len() as int), a * 16 + hex_val(b[0]), c);
    }
}

/// Whether `c` is a hexadecimal digit.
fn hex_digit_of(c: char) -> (r: Option<u8>)
    ensures
        r is Some <==> is_hex_digit(c),
        r is Some ==> r->0 == hex_val(c) && hex_val(c) < 16,
{
    let u = c as u32;
    if 48 <= u && u <= 57 {
        Some((u - 48) as u8)
    } else if 97 <= u && u <= 102 {
        Some((u - 87) as u8)
    } else if 65 <= u && u <= 70 {
        Some((u - 55) as u8)
    } else {
        None
    }
}

/// Parses a textual MAC address into its six bytes, or nothing when any
/// segment is malformed.  At most six segments are accepted.
pub fn parse_mac_str(mac: &str) -> (r: Option<[u8; 6]>)
    requires
        count_colons(mac@) <= 5,
    ensures
        match spec_parse_mac(mac@) {
            Some(bytes) => r is Some && r->0@ == bytes,
            None => r is None,
        },
{
    let s_len = mac.unicode_len();
    let mut bytes: Vec<u8> = Vec::new();
    bytes.push(0);
    bytes.push(0);
    bytes.push(0);
    bytes.push(0);
    bytes.push(0);
    bytes.push(0);
    proof {
        assert(bytes@ =~= seq![0u8, 0u8, 0u8, 0u8, 0u8, 0u8]);
    }
    let mut i: usize = 0;
    let mut idx: usize = 0;
    let mut failed = false;
    let mut plus = false;
    let mut ndigits: usize = 0;
    let mut seg_hex = true;
    let mut over = false;
    let mut acc: u32 = 0;
    let ghost mut seg: Seq<char> = Seq::empty();
    let ghost mut body: Seq<char> = Seq::empty();
    let ghost mut gval: int = 0;
    proof {
        assert(mac@.subrange(0, mac@.len() as int) =~= mac@);
        assert(seg_val_acc(Seq::<char>::empty(), 0) == Some(0int));
        lemma_count_colons_nonneg(mac@);
    }
    while i < s_len
        invariant
            s_len == mac@.len(),
            i <= s_len,
            count_colons(mac@) <= 5,
            bytes@.len() == 6,
            !failed ==> {
                &&& spec_parse_mac(mac@) == parse_mac_from(mac@, i as int, idx as int, seg, bytes@)
                &&& seg == (if plus {
                    seq!['+'] + body
                } else {
                    body
                })
                &&& (plus ==> seg.len() >= 1 && seg[0] == '+')
                &&& (!plus ==> (seg.len() >= 1 ==> seg[0] != '+'))
                &&& body.len() == ndigits
                &&& ndigits <= i
                &&& (seg_hex ==> seg_val_acc(body, 0) == Some(gval) && gval >= 0)
                &&& (!seg_hex ==> seg_val_acc(body, 0) is None)
                &&& (seg_hex ==> (over <==> gval > 255))
                &&& (seg_hex && !over ==> acc == gval)
                &&& idx as int + count_colons(mac@.subrange(i as int, mac@.len() as int))
                    <= count_colons(mac@)
                &&& idx <= 5
            },
            failed ==> spec_parse_mac(mac@) is None,
        decreases s_len - i,
    {
        let c = mac.get_char(i);
        proof {
            assert(mac@.subrange(i as int, mac@.len() as int).len() > 0);
            assert(mac@.subrange(i as int, mac@.len() as int)[0] == mac@[i as int]);
            assert(mac@.subrange(i as int, mac@.len() as int).subrange(
                1,
                mac@.subrange(i as int, mac@.len() as int).len() as int,
            ) =~= mac@.subrange(i as int + 1, mac@.len() as int));
        }
        if failed {
            i += 1;
            continue ;
        }
        if c == ':' {
            proof {
                lemma_count_colons_nonneg(mac@.subrange(i as int + 1, mac@.len() as int));
            }
            let fin: Option<u8> = if seg_hex && ndigits >= 1 && !over {
                Some(acc as u8)
            } else {
                None
            };
            proof {
                if plus {
                    assert(seg.subrange(1, seg.len() as int) =~= body);
                }
                assert(spec_seg_byte(seg) == fin);
            }
            match fin {
                Some(b) => {
                    bytes[idx] = b;
                    idx += 1;
                    plus = false;
                    ndigits = 0;
                    seg_hex = true;
                    over = false;
                    acc = 0;
                    proof {
                        seg = Seq::empty();
                        body = Seq::empty();
                        gval = 0;
                    }
                },
                None => {
                    failed = true;
                },
            }
        } else if c == '+' && !plus && ndigits == 0 {
            proof {
                assert(seg =~= body);
                assert(body.len() == 0);
                seg = seg.push(c);
                assert(seg =~= seq!['+'] + body);
            }
            plus = true;
        } else {
            match hex_digit_of(c) {
                Some(d) => {
                    proof {
                        lemma_seg_val_push(body, 0, c);
                        seg = seg.push(c);
                        body = body.push(c);
                        if plus {
                            assert(seg =~= seq!['+'] + body);
                        }
                        if seg_hex {
                            gval = gval * 16 + hex_val(c);
                        }
                    }
                    ndigits += 1;
                    if seg_hex && !over {
                        let next = acc * 16 + (d as u32);
                        if next <= 255 {
                            acc = next;
                        } else {
                            over = true;
                        }
                    }
                },
                None => {
                    proof {
                        lemma_seg_val_push(body, 0, c);
                        seg = seg.push(c);
                        body = body.push(c);
                        if plus {
                            assert(seg =~= seq!['+'] + body);
                        }
                    }
                    ndigits += 1;
                    seg_hex = false;
                },
            }
        }
        i += 1;
    }
    if failed {
        return None;
    }
    let fin: Option<u8> = if seg_hex && ndigits >= 1 && !over {
        Some(acc as u8)
    } else {
        None
    };
    proof {
        if plus {
            assert(seg.subrange(1, seg.len() as int) =~= body);
        }
        assert(spec_seg_byte(seg) == fin);
    }
    match fin {
        Some(b) => {
            bytes[idx] = b;
            let out: [u8; 6] = [bytes[0], bytes[1], bytes[2], bytes[3], bytes[4], bytes[5]];
            proof {
                assert(out@ =~= bytes@);
            }
            Some(out)
        },
        None => None,
    }
}

} // verus!
