//! The two kernel statistics feeds: the per-processor interrupt table, from
//! which the count of TLB shootdowns is taken, and the per-device I/O table,
//! from which the bytes read from NVMe devices are taken.

use crate::text::contains;
use crate::text::contains_marker;
use crate::text::fields;
use crate::text::lines;
use crate::text::number;
use crate::text::parse_number;
use crate::text::split_fields;
use crate::text::split_lines;
use crate::text::views;
use vstd::prelude::*;

verus! {

/// Bytes in one sector of the I/O table.
pub const SECTOR_SIZE: u64 = 512;

/// Marker of the shootdown line in the interrupt table: the letters `TLB`.
pub open spec fn shootdown_marker() -> Seq<u8> {
    seq![84u8, 76u8, 66u8]
}

/// Marker of the device lines in the I/O table: the letters `nvme`.
pub open spec fn device_marker() -> Seq<u8> {
    seq![110u8, 118u8, 109u8, 101u8]
}

/// A total reduced to the 64 bits of a counter.
pub open spec fn wrapped(total: nat) -> u64 {
    (total % 0x1_0000_0000_0000_0000) as u64
}

/// The number a field stands for, or zero where it stands for none.
pub open spec fn number_or_zero(field: Seq<u8>) -> nat {
    match number(field) {
        Some(value) => value as nat,
        None => 0,
    }
}

/// Sum of the fields that are numbers.
pub open spec fn numeric_total(fields: Seq<Seq<u8>>) -> nat
    decreases fields.len(),
{
    if fields.len() == 0 {
        0
    } else {
        numeric_total(fields.drop_last()) + number_or_zero(fields.last())
    }
}

/// All fields but the first.
pub open spec fn after_first(fields: Seq<Seq<u8>>) -> Seq<Seq<u8>> {
    if fields.len() == 0 {
        fields
    } else {
        fields.drop_first()
    }
}

/// The first line that holds the marker, if there is one.
pub open spec fn first_marked(lines: Seq<Seq<u8>>, marker: Seq<u8>) -> Option<Seq<u8>>
    decreases lines.len(),
{
    if lines.len() == 0 {
        None
    } else if contains(lines[0], marker) {
        Some(lines[0])
    } else {
        first_marked(lines.drop_first(), marker)
    }
}

/// Shootdowns that the interrupt table reports: on the first line that holds
/// the marker, the sum of the numeric fields after the first field; zero
/// where no line holds the marker.
pub open spec fn shootdown_total(feed: Seq<u8>) -> nat {
    match first_marked(lines(feed), shootdown_marker()) {
        Some(line) => numeric_total(after_first(fields(line))),
        None => 0,
    }
}

/// Bytes that one line of the I/O table reports as read: the sixth field
/// counts sectors, on a line that holds the device marker and has a sixth
/// field; any other line reports nothing.
pub open spec fn bytes_read_on(line: Seq<u8>) -> nat {
    let all = fields(line);
    if contains(line, device_marker()) && all.len() >= 6 {
        number_or_zero(all[5]) * (SECTOR_SIZE as nat)
    } else {
        0
    }
}

/// Bytes that the lines of the I/O table report as read, all lines together.
pub open spec fn bytes_read_total(lines: Seq<Seq<u8>>) -> nat
    decreases lines.len(),
{
    if lines.len() == 0 {
        0
    } else {
        bytes_read_total(lines.drop_last()) + bytes_read_on(lines.last())
    }
}

/// No line of `lines` holds `marker`.
pub open spec fn none_marked(lines: Seq<Seq<u8>>, marker: Seq<u8>) -> bool {
    forall|i: int| 0 <= i < lines.len() ==> !contains(#[trigger] lines[i], marker)
}

/// Where no line holds the marker, no line is the first to hold it.
proof fn lemma_none_marked_none_first(lines: Seq<Seq<u8>>, marker: Seq<u8>)
    requires
        none_marked(lines, marker),
    ensures
        first_marked(lines, marker) is None,
    decreases lines.len(),
{
    if lines.len() > 0 {
        lemma_none_marked_none_first(lines.drop_first(), marker);
    }
}

/// Where no line holds the device marker, no bytes are reported as read.
proof fn lemma_none_marked_nothing_read(lines: Seq<Seq<u8>>)
    requires
        none_marked(lines, device_marker()),
    ensures
        bytes_read_total(lines) == 0,
    decreases lines.len(),
{
    if lines.len() > 0 {
        lemma_none_marked_nothing_read(lines.drop_last());
    }
}

/// A feed without a line that holds the marker reads as zero; so does an
/// empty feed.
pub proof fn lemma_feed_without_marker_reads_zero(feed: Seq<u8>)
    ensures
        none_marked(lines(feed), shootdown_marker()) ==> wrapped(shootdown_total(feed)) == 0,
        none_marked(lines(feed), device_marker()) ==> wrapped(bytes_read_total(lines(feed))) == 0,
        feed.len() == 0 ==> wrapped(shootdown_total(feed)) == 0 && wrapped(
            bytes_read_total(lines(feed)),
        ) == 0,
{
    if none_marked(lines(feed), shootdown_marker()) {
        lemma_none_marked_none_first(lines(feed), shootdown_marker());
    }
    if none_marked(lines(feed), device_marker()) {
        lemma_none_marked_nothing_read(lines(feed));
    }
}

/// Sum of the numeric fields of a line after its first field.
fn total_after_first(line: &[u8]) -> (total: u64)
    ensures
        total == wrapped(numeric_total(after_first(fields(line@)))),
{
    let words = split_fields(line);
    let ghost tail = after_first(views(words@));
    let mut total: u64 = 0;
    let mut next: usize = 1;
    if words.len() == 0 {
        return 0;
    }
    while next < words.len()
        invariant
            1 <= next <= words.len(),
            views(words@) == fields(line@),
            tail == after_first(views(words@)),
            total == wrapped(numeric_total(tail.take(next - 1))),
        decreases words.len() - next,
    {
        let value = match parse_number(words[next]) {
            Some(value) => value,
            None => 0,
        };
        proof {
            let longer = tail.take(next as int);
            assert(longer.drop_last() =~= tail.take(next - 1));
        }
        total = total.wrapping_add(value);
        next = next + 1;
    }
    assert(tail.take(words.len() - 1) =~= tail);
    total
}

/// The TLB shootdown count that the interrupt table `feed` reports. The sum
/// wraps around at 64 bits.
pub fn tlb_shootdown_count(feed: &[u8]) -> (count: u64)
    ensures
        count == wrapped(shootdown_total(feed@)),
{
    let marker: [u8; 3] = [84, 76, 66];
    let all = split_lines(feed);
    let mut i: usize = 0;
    assert(lines(feed@).skip(0) =~= lines(feed@));
    while i < all.len()
        invariant
            i <= all.len(),
            marker@ == shootdown_marker(),
            views(all@) == lines(feed@),
            first_marked(lines(feed@), shootdown_marker()) == first_marked(
                lines(feed@).skip(i as int),
                shootdown_marker(),
            ),
        decreases all.len() - i,
    {
        let line = all[i];
        let ghost rest = lines(feed@).skip(i as int);
        if contains_marker(line, marker.as_slice()) {
            return total_after_first(line);
        }
        assert(rest.drop_first() =~= lines(feed@).skip(i + 1));
        i = i + 1;
    }
    0
}

/// The bytes read that the I/O table `feed` reports for NVMe devices. The
/// sum wraps around at 64 bits.
pub fn io_bytes(feed: &[u8]) -> (bytes: u64)
    ensures
        bytes == wrapped(bytes_read_total(lines(feed@))),
{
    let marker: [u8; 4] = [110, 118, 109, 101];
    let all = split_lines(feed);
    let mut bytes: u64 = 0;
    let mut i: usize = 0;
    while i < all.len()
        invariant
            i <= all.len(),
            marker@ == device_marker(),
            views(all@) == lines(feed@),
            bytes == wrapped(bytes_read_total(lines(feed@).take(i as int))),
        decreases all.len() - i,
    {
        let line = all[i];
        let ghost longer = lines(feed@).take(i + 1);
        assert(longer.drop_last() =~= lines(feed@).take(i as int));
        if contains_marker(line, marker.as_slice()) {
            let parts = split_fields(line);
            if parts.len() >= 6 {
                match parse_number(parts[5]) {
                    Some(sectors) => {
                        bytes = bytes.wrapping_add(sectors.wrapping_mul(SECTOR_SIZE));
                    },
                    None => {},
                }
            }
        }
        i = i + 1;
    }
    assert(lines(feed@).take(all.len() as int) =~= lines(feed@));
    bytes
}

} // verus!
