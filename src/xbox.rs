//! Recognising the game controller from its advertisement.

use crate::codec::{le16, le24, read_u16_at, read_u24_at};
use crate::types::{ButtonFlags, JoystickData, BUTTONS_ALL};
use vstd::prelude::*;

verus! {

/// Full scale of a stick axis in a HID report.
pub const STICKS_RANGE: i32 = 65535;

/// A stick axis reading centred on zero: the raw value less half-scale.
pub open spec fn stick_axis(raw: int) -> int {
    raw - STICKS_RANGE / 2
}

/// Decodes a 16-byte input report: bytes 0..8 are the little-endian x and y
/// of the left and right sticks, centred by subtracting half-scale, with the
/// vertical axes inverted; bytes 8..12 the two triggers; bytes 13..16 a
/// 24-bit button mask, of which only the named buttons are kept.
pub fn decode_hid_report(p: &[u8; 16]) -> (r: JoystickData)
    ensures
        r.j1.0 as int == stick_axis(le16(p@[0], p@[1])),
        r.j1.1 as int == -stick_axis(le16(p@[2], p@[3])),
        r.j2.0 as int == stick_axis(le16(p@[4], p@[5])),
        r.j2.1 as int == -stick_axis(le16(p@[6], p@[7])),
        r.t1 as int == le16(p@[8], p@[9]),
        r.t2 as int == le16(p@[10], p@[11]),
        r.buttons.spec_bits() == (le24(p@[13], p@[14], p@[15]) as u32) & BUTTONS_ALL,
        r.buttons.wf(),
{
    let b = p.as_slice();
    let button_mask = read_u24_at(b, 13);

    let x1 = read_u16_at(b, 0);
    let y1 = read_u16_at(b, 2);
    let x2 = read_u16_at(b, 4);
    let y2 = read_u16_at(b, 6);

    let t1 = read_u16_at(b, 8);
    let t2 = read_u16_at(b, 10);

    JoystickData {
        j1: (map_stick(x1), -map_stick(y1)),
        j2: (map_stick(x2), -map_stick(y2)),
        t1,
        t2,
        buttons: ButtonFlags::from_bits_truncate(button_mask),
    }
}

fn map_stick(x: u16) -> (r: i32)
    ensures
        r as int == stick_axis(x as int),
        -32767 <= r <= 32768,
{
    (x as i32) - STICKS_RANGE / 2
}

/// Advertisement entry type of manufacturer-specific data.
pub const TYPE_MANUFACTURER_SPECIFIC_DATA: u8 = 0xFF;
/// Advertisement entry type of an incomplete list of 16-bit service UUIDs.
pub const TYPE_PARTIAL_16BIT_UUIDS: u8 = 0x02;
/// Advertisement entry type of a complete list of 16-bit service UUIDs.
pub const TYPE_COMPLETE_16BIT_UUIDS: u8 = 0x03;

/// One advertisement entry: its type byte and its data.
pub struct AdEntry {
    pub kind: u8,
    pub data: Seq<u8>,
}

/// The entries of an advertisement payload, in order. Each entry is a length
/// byte `n` followed by `n` bytes: a type byte and `n - 1` bytes of data.
/// Parsing stops at the end, at fewer than two bytes left, at a zero length,
/// or at a length that runs past the end.
pub open spec fn ad_entries(p: Seq<u8>) -> Seq<AdEntry>
    decreases p.len(),
{
    if p.len() < 2 {
        seq![]
    } else {
        let n = p[0] as int;
        if n == 0 || n > p.len() - 1 {
            seq![]
        } else {
            seq![AdEntry { kind: p[1], data: p.subrange(2, n + 1) }] + ad_entries(
                p.subrange(n + 1, p.len() as int),
            )
        }
    }
}

/// Manufacturer-specific data that starts with the vendor's company
/// identifier (0x0006, little-endian).
pub open spec fn is_vendor_entry(e: AdEntry) -> bool {
    e.kind == TYPE_MANUFACTURER_SPECIFIC_DATA && e.data.len() >= 2 && e.data[0] == 0x06
        && e.data[1] == 0x00
}

/// A list of 16-bit UUIDs, read two bytes at a time, holds the HID service
/// UUID 0x1812.
pub open spec fn lists_hid_uuid(d: Seq<u8>) -> bool {
    exists|k: int| 0 <= k && 2 * k + 1 < d.len() && d[2 * k] == 0x12 && #[trigger] d[2 * k + 1] == 0x18
}

/// A 16-bit service UUID list that names the HID service.
pub open spec fn is_hid_entry(e: AdEntry) -> bool {
    (e.kind == TYPE_PARTIAL_16BIT_UUIDS || e.kind == TYPE_COMPLETE_16BIT_UUIDS) && lists_hid_uuid(
        e.data,
    )
}

/// Some entry of the sequence satisfies `f`.
pub open spec fn any_entry(es: Seq<AdEntry>, f: spec_fn(AdEntry) -> bool) -> bool {
    exists|k: int| 0 <= k < es.len() && #[trigger] f(es[k])
}

/// An advertisement of the controller: it holds a vendor entry and a HID
/// service UUID entry.
pub open spec fn is_candidate(p: Seq<u8>) -> bool {
    any_entry(ad_entries(p), |e: AdEntry| is_vendor_entry(e)) && any_entry(
        ad_entries(p),
        |e: AdEntry| is_hid_entry(e),
    )
}

proof fn lemma_entries_step(p: Seq<u8>, i: int)
    requires
        0 <= i,
        i + 2 <= p.len(),
        p[i] != 0,
        p[i] as int <= p.len() - i - 1,
    ensures
        ad_entries(p.subrange(i, p.len() as int)) == seq![
            AdEntry { kind: p[i + 1], data: p.subrange(i + 2, i + p[i] + 1) },
        ] + ad_entries(p.subrange(i + p[i] + 1, p.len() as int)),
{
    let s = p.subrange(i, p.len() as int);
    let n = p[i] as int;
    assert(s.subrange(2, n + 1) =~= p.subrange(i + 2, i + n + 1));
    assert(s.subrange(n + 1, s.len() as int) =~= p.subrange(i + n + 1, p.len() as int));
}

/// Checks whether an advertisement payload comes from the game controller:
/// true exactly when it holds both a manufacturer-specific entry tagged with
/// the vendor's company identifier and a 16-bit service UUID list naming the
/// HID service. Malformed entries end the parsing.
pub fn is_xbox_controller(packet: &[u8]) -> (r: bool)
    ensures
        r == is_candidate(packet@),
{
    let len = packet.len();
    let mut i: usize = 0;
    let mut is_microsoft = false;
    let mut is_hid = false;
    let ghost mut seen: Seq<AdEntry> = seq![];
    assert(packet@.subrange(0, len as int) =~= packet@);
    assert(seen + ad_entries(packet@) =~= ad_entries(packet@));

    while i <= len && len - i >= 2
        invariant
            len == packet@.len(),
            i <= len,
            ad_entries(packet@) == seen + ad_entries(packet@.subrange(i as int, len as int)),
            is_microsoft == any_entry(seen, |e: AdEntry| is_vendor_entry(e)),
            is_hid == any_entry(seen, |e: AdEntry| is_hid_entry(e)),
        ensures
            ad_entries(packet@) == seen,
        decreases len - i,
    {
        let n = packet[i] as usize;
        if n == 0 || n > len - i - 1 {
            proof {
                let rest = packet@.subrange(i as int, len as int);
                assert(rest[0] == packet@[i as int]);
                assert(ad_entries(rest) =~= seq![]);
                assert(seen + seq![] =~= seen);
            }
            break;
        }
        let kind = packet[i + 1];
        let start = i + 2;
        let end = i + 1 + n;
        let ghost entry = AdEntry { kind, data: packet@.subrange(start as int, end as int) };
        proof {
            lemma_entries_step(packet@, i as int);
        }

        let mut found_vendor = false;
        let mut found_hid = false;
        if kind == TYPE_MANUFACTURER_SPECIFIC_DATA {
            if end - start >= 2 && packet[start] == 0x06 && packet[start + 1] == 0x00 {
                found_vendor = true;
            }
        } else if kind == TYPE_PARTIAL_16BIT_UUIDS || kind == TYPE_COMPLETE_16BIT_UUIDS {
            let mut k: usize = start;
            while end - k >= 2
                invariant
                    start <= k <= end,
                    end <= len,
                    len == packet@.len(),
                    (k - start) % 2 == 0,
                    entry.data == packet@.subrange(start as int, end as int),
                    found_hid == exists|j: int|
                        0 <= j && 2 * j < k - start && 2 * j + 1 < entry.data.len()
                            && entry.data[2 * j] == 0x12 && #[trigger] entry.data[2 * j + 1]
                            == 0x18,
                decreases end - k,
            {
                if packet[k] == 0x12 && packet[k + 1] == 0x18 {
                    found_hid = true;
                    assert(entry.data[2 * ((k - start) / 2) + 1] == 0x18);
                }
                k = k + 2;
            }
        }
        proof {
            if is_vendor_entry(entry) {
                assert(found_vendor);
            }
            if found_vendor {
                assert(is_vendor_entry(entry));
            }
            assert(found_hid == is_hid_entry(entry));
        }

        let ghost old_seen = seen;
        proof {
            seen = seen.push(entry);
            assert(seen[seen.len() - 1] == entry);
            assert forall|k: int| 0 <= k < old_seen.len() implies seen[k] == old_seen[k] by {}
            assert(seen + ad_entries(packet@.subrange(end as int, len as int)) =~= old_seen + (seq![
                entry,
            ] + ad_entries(packet@.subrange(end as int, len as int))));
        }
        is_microsoft = is_microsoft || found_vendor;
        is_hid = is_hid || found_hid;
        proof {
            let fv = |e: AdEntry| is_vendor_entry(e);
            let fh = |e: AdEntry| is_hid_entry(e);
            if any_entry(seen, fv) && !any_entry(old_seen, fv) {
                let k = choose|k: int| 0 <= k < seen.len() && #[trigger] fv(seen[k]);
                assert(k == seen.len() - 1);
            }
            if any_entry(seen, fh) && !any_entry(old_seen, fh) {
                let k = choose|k: int| 0 <= k < seen.len() && #[trigger] fh(seen[k]);
                assert(k == seen.len() - 1);
            }
            if any_entry(old_seen, fv) {
                let k = choose|k: int| 0 <= k < old_seen.len() && #[trigger] fv(old_seen[k]);
                assert(fv(seen[k]));
            }
            if any_entry(old_seen, fh) {
                let k = choose|k: int| 0 <= k < old_seen.len() && #[trigger] fh(old_seen[k]);
                assert(fh(seen[k]));
            }
            if found_vendor {
                assert(fv(seen[seen.len() - 1]));
            }
            if found_hid {
                assert(fh(seen[seen.len() - 1]));
            }
        }
        i = end;
    }
    is_microsoft && is_hid
}

} // verus!
