//! The USB/power status line protocol: a status channel emits ASCII lines
//! such as `usb plug add`, and each known line maps to one coarse power or
//! network event. Unrecognized lines are ignored. Reading the channel is
//! the caller's business; this module turns the bytes read into events.

use vstd::prelude::*;
use vstd::string::StringSliceAdditionalSpecFns;
use crate::events::{DeviceEvent, PowerSource};

verus! {

pub const LINE_FEED: u8 = 0x0a;

pub const CARRIAGE_RETURN: u8 = 0x0d;

/// Whether `pre` is a prefix of `line`.
pub open spec fn spec_starts_with(line: Seq<u8>, pre: Seq<u8>) -> bool {
    line.len() >= pre.len() && line.take(pre.len() as int) == pre
}

/// The event one status line announces, if any.
pub open spec fn spec_line_event(line: Seq<u8>) -> Option<DeviceEvent> {
    if line == "usb plug add".spec_bytes() {
        Some(DeviceEvent::Plug(PowerSource::Host))
    } else if line == "usb plug remove".spec_bytes() {
        Some(DeviceEvent::Unplug(PowerSource::Host))
    } else if line == "usb ac add".spec_bytes() {
        Some(DeviceEvent::Plug(PowerSource::Wall))
    } else if line == "usb ac remove".spec_bytes() {
        Some(DeviceEvent::Unplug(PowerSource::Wall))
    } else if spec_starts_with(line, "network bound".spec_bytes()) {
        Some(DeviceEvent::NetUp)
    } else {
        None
    }
}

/// Whether the line's bytes are exactly the message's bytes.
fn line_is(line: &[u8], msg: &str) -> (r: bool)
    ensures
        r == (line@ == msg.spec_bytes()),
{
    let mb = msg.as_bytes();
    if line.len() != mb.len() {
        return false;
    }
    let n = line.len();
    for i in 0..n
        invariant
            n == line@.len(),
            n == mb@.len(),
            mb@ == msg.spec_bytes(),
            forall|j: int| 0 <= j < i ==> line@[j] == mb@[j],
    {
        if line[i] != mb[i] {
            return false;
        }
    }
    proof {
        assert(line@ =~= msg.spec_bytes());
    }
    true
}

/// Whether the line starts with the message's bytes.
fn line_starts_with(line: &[u8], msg: &str) -> (r: bool)
    ensures
        r == spec_starts_with(line@, msg.spec_bytes()),
{
    let mb = msg.as_bytes();
    if line.len() < mb.len() {
        return false;
    }
    let n = mb.len();
    for i in 0..n
        invariant
            n == mb@.len(),
            n <= line@.len(),
            mb@ == msg.spec_bytes(),
            forall|j: int| 0 <= j < i ==> line@[j] == mb@[j],
    {
        if line[i] != mb[i] {
            proof {
                assert(line@.take(n as int)[i as int] != mb@[i as int]);
            }
            return false;
        }
    }
    proof {
        assert(line@.take(n as int) =~= msg.spec_bytes());
    }
    true
}

/// Map one status line to its event, if it is a known one.
pub fn parse_status_line(line: &[u8]) -> (r: Option<DeviceEvent>)
    ensures
        r == spec_line_event(line@),
{
    if line_is(line, "usb plug add") {
        Some(DeviceEvent::Plug(PowerSource::Host))
    } else if line_is(line, "usb plug remove") {
        Some(DeviceEvent::Unplug(PowerSource::Host))
    } else if line_is(line, "usb ac add") {
        Some(DeviceEvent::Plug(PowerSource::Wall))
    } else if line_is(line, "usb ac remove") {
        Some(DeviceEvent::Unplug(PowerSource::Wall))
    } else if line_starts_with(line, "network bound") {
        Some(DeviceEvent::NetUp)
    } else {
        None
    }
}

/// The index of the first line feed, or the length if there is none.
pub open spec fn find_newline(buf: Seq<u8>) -> nat
    decreases buf.len(),
{
    if buf.len() == 0 {
        0
    } else if buf[0] == LINE_FEED {
        0
    } else {
        1 + find_newline(buf.skip(1))
    }
}

proof fn lemma_find_newline(buf: Seq<u8>, i: int)
    requires
        0 <= i <= buf.len(),
        forall|k: int| 0 <= k < i ==> buf[k] != LINE_FEED,
        i < buf.len() ==> buf[i] == LINE_FEED,
    ensures
        find_newline(buf) == i,
    decreases buf.len(),
{
    if buf.len() == 0 {
    } else if i == 0 {
    } else {
        lemma_find_newline(buf.skip(1), i - 1);
    }
}

/// A line with one trailing carriage return removed, as happens to every
/// line that was terminated by a line feed.
pub open spec fn strip_cr(line: Seq<u8>) -> Seq<u8> {
    if line.len() > 0 && line[line.len() - 1] == CARRIAGE_RETURN {
        line.drop_last()
    } else {
        line
    }
}

/// The lines of a buffer: segments separated by line feeds, each stripped
/// of one trailing carriage return; a final segment without a terminating
/// line feed is kept as it is, and a final empty segment is not a line.
pub open spec fn spec_lines(buf: Seq<u8>) -> Seq<Seq<u8>>
    decreases buf.len(),
{
    if buf.len() == 0 {
        Seq::empty()
    } else {
        let i = find_newline(buf) as int;
        if i >= buf.len() {
            seq![buf]
        } else {
            seq![strip_cr(buf.take(i))] + spec_lines(buf.skip(i + 1))
        }
    }
}

/// The events of a sequence of lines, in line order.
pub open spec fn spec_lines_events(lines: Seq<Seq<u8>>) -> Seq<DeviceEvent>
    decreases lines.len(),
{
    if lines.len() == 0 {
        Seq::empty()
    } else {
        (match spec_line_event(lines[0]) {
            Some(e) => seq![e],
            None => Seq::empty(),
        }) + spec_lines_events(lines.skip(1))
    }
}

/// All events announced by one buffer read off the status channel.
pub open spec fn spec_buffer_events(buf: Seq<u8>) -> Seq<DeviceEvent> {
    spec_lines_events(spec_lines(buf))
}

/// Split one buffer read off the status channel into lines and map each
/// known line to its event, in order.
pub fn parse_status_buffer(buf: &[u8]) -> (r: Vec<DeviceEvent>)
    ensures
        r@ == spec_buffer_events(buf@),
{
    let mut out: Vec<DeviceEvent> = Vec::new();
    let n = buf.len();
    let mut pos: usize = 0;
    proof {
        assert(buf@.skip(0) =~= buf@);
    }
    while pos < n
        invariant
            pos <= n,
            n == buf@.len(),
            spec_buffer_events(buf@) == out@ + spec_lines_events(spec_lines(buf@.skip(pos as int))),
        decreases n - pos,
    {
        let ghost rem = buf@.skip(pos as int);
        let mut j = pos;
        while j < n && buf[j] != LINE_FEED
            invariant
                pos <= j <= n,
                n == buf@.len(),
                forall|k: int| pos <= k < j ==> buf@[k] != LINE_FEED,
            decreases n - j,
        {
            j = j + 1;
        }
        proof {
            assert forall|k: int| 0 <= k < j - pos implies rem[k] != LINE_FEED by {
                assert(rem[k] == buf@[pos + k]);
            }
            if j < n {
                assert(rem[j - pos] == buf@[j as int]);
            }
            lemma_find_newline(rem, j - pos);
        }
        let mut end = j;
        if j < n && end > pos && buf[end - 1] == CARRIAGE_RETURN {
            end = end - 1;
        }
        let line = vstd::slice::slice_subrange(buf, pos, end);
        let ghost next: int = if j < n {
            j + 1
        } else {
            n as int
        };
        proof {
            if j < n {
                assert(rem.take(j - pos) =~= buf@.subrange(pos as int, j as int));
                assert(line@ =~= strip_cr(rem.take(j - pos)));
                assert(rem.skip(j - pos + 1) =~= buf@.skip(next));
            } else {
                assert(line@ =~= rem);
                assert(buf@.skip(next) =~= Seq::<u8>::empty());
            }
            let ls = seq![line@] + spec_lines(buf@.skip(next));
            assert(spec_lines(rem) =~= ls);
            assert(ls[0] == line@);
            assert(ls.skip(1) =~= spec_lines(buf@.skip(next)));
            assert(spec_lines_events(ls) == (match spec_line_event(line@) {
                Some(e) => seq![e],
                None => Seq::<DeviceEvent>::empty(),
            }) + spec_lines_events(spec_lines(buf@.skip(next))));
        }
        let ghost out_before = out@;
        match parse_status_line(line) {
            Some(e) => {
                out.push(e);
                proof {
                    assert(out@ =~= out_before + seq![e]);
                }
            },
            None => {},
        }
        proof {
            assert(out@ + spec_lines_events(spec_lines(buf@.skip(next))) =~= out_before
                + spec_lines_events(spec_lines(rem)));
        }
        pos = if j < n {
            j + 1
        } else {
            n
        };
    }
    proof {
        assert(buf@.skip(n as int) =~= Seq::<u8>::empty());
    }
    out
}

} // verus!
