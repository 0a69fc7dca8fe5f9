//! Decoding of the keyboard's raw HID scroll reports into events.
//!
//! A report is a run of fixed-size packets.  Packet id `0x15` carries the
//! middle-button bit; ids `0x22` and `0x16` carry signed per-axis motion.

use vstd::prelude::*;

use crate::hid::contains_device;
use crate::hid::DeviceInfo;

verus! {

/// One decoded input event.
#[derive(Copy, Clone, Debug, PartialEq, Eq, Structural)]
pub enum Event {
    ButtonDown,
    ButtonUp,
    Vertical(i8),
    Horizontal(i8),
}

/// What the first three bytes of a packet decode to: button edges from the
/// button packet, one axis of motion from a wheel packet, nothing from a
/// diagonal or unknown packet.
pub open spec fn spec_parse_packet(b0: u8, b1: u8, b2: u8) -> Option<Event> {
    if b0 == 0x15 {
        if b2 & 0x04 != 0 {
            Some(Event::ButtonDown)
        } else {
            Some(Event::ButtonUp)
        }
    } else if b0 == 0x22 || b0 == 0x16 {
        let dx = b1 as i8;
        let dy = b2 as i8;
        if dx != 0 {
            Some(Event::Horizontal(dx))
        } else if dy != 0 {
            Some(Event::Vertical(dy))
        } else {
            None
        }
    } else {
        None
    }
}

/// All events decoded from a report: one packet of `size` bytes at a time,
/// in order, dropping what does not decode.
pub open spec fn spec_parse_report(b: Seq<u8>, size: int) -> Seq<Event>
    decreases b.len(),
{
    if size >= 3 && b.len() >= size {
        let rest = spec_parse_report(b.skip(size), size);
        match spec_parse_packet(b[0], b[1], b[2]) {
            Some(e) => seq![e] + rest,
            None => rest,
        }
    } else {
        Seq::empty()
    }
}

/// Decode one packet.
pub fn parse_packet(b0: u8, b1: u8, b2: u8) -> (r: Option<Event>)
    ensures
        r == spec_parse_packet(b0, b1, b2),
{
    if b0 == 0x15 {
        if b2 & 0x04 != 0 {
            Some(Event::ButtonDown)
        } else {
            Some(Event::ButtonUp)
        }
    } else if b0 == 0x22 || b0 == 0x16 {
        let dx = b1 as i8;
        let dy = b2 as i8;
        if dx != 0 {
            Some(Event::Horizontal(dx))
        } else if dy != 0 {
            Some(Event::Vertical(dy))
        } else {
            None
        }
    } else {
        None
    }
}

/// Decode a whole report into its events.
pub fn parse_report(buffer: &Vec<u8>, packet_size: usize) -> (r: Vec<Event>)
    requires
        packet_size >= 3,
    ensures
        r@ == spec_parse_report(buffer@, packet_size as int),
{
    let mut events: Vec<Event> = Vec::new();
    let mut off: usize = 0;
    proof {
        assert(buffer@.skip(0) =~= buffer@);
        assert(Seq::<Event>::empty() + spec_parse_report(buffer@, packet_size as int)
            =~= spec_parse_report(buffer@, packet_size as int));
    }
    while buffer.len() - off >= packet_size
        invariant
            off <= buffer@.len(),
            packet_size >= 3,
            spec_parse_report(buffer@, packet_size as int) == events@ + spec_parse_report(
                buffer@.skip(off as int),
                packet_size as int,
            ),
        decreases buffer@.len() - off,
    {
        let ev = parse_packet(buffer[off], buffer[off + 1], buffer[off + 2]);
        proof {
            let tail = buffer@.skip(off as int);
            assert(tail[0] == buffer@[off as int] && tail[1] == buffer@[off as int + 1] && tail[2]
                == buffer@[off as int + 2]);
            assert(tail.skip(packet_size as int) =~= buffer@.skip(off as int + packet_size as int));
        }
        match ev {
            Some(e) => {
                events.push(e);
            },
            None => {},
        }
        proof {
            assert(spec_parse_report(buffer@, packet_size as int) == events@ + spec_parse_report(
                buffer@.skip(off as int + packet_size as int),
                packet_size as int,
            ));
        }
        off = off + packet_size;
    }
    proof {
        assert(spec_parse_report(buffer@.skip(off as int), packet_size as int) =~= Seq::<
            Event,
        >::empty());
        assert(events@ =~= events@ + Seq::<Event>::empty());
    }
    events
}

/// Decodes raw reports for a fixed set of watched interfaces.
pub struct EventReader {
    pub device_filter: Vec<DeviceInfo>,
}

impl EventReader {
    pub open spec fn spec_filter(&self) -> Seq<DeviceInfo> {
        self.device_filter@
    }

    pub fn new(device_filter: Vec<DeviceInfo>) -> (r: Self)
        ensures
            r.spec_filter() == device_filter@,
    {
        EventReader { device_filter }
    }

    /// Whether reports from this interface are ours to decode.
    pub fn accepts_device(&self, di: &DeviceInfo) -> (r: bool)
        ensures
            r == self.spec_filter().contains(*di),
    {
        contains_device(&self.device_filter, di)
    }

    /// Decode a report from an interface: its events when the interface is
    /// watched, nothing otherwise.
    pub fn read_report(&self, di: &DeviceInfo, buffer: &Vec<u8>, packet_size: usize) -> (r: Vec<
        Event,
    >)
        requires
            packet_size >= 3,
        ensures
            self.spec_filter().contains(*di) ==> r@ == spec_parse_report(
                buffer@,
                packet_size as int,
            ),
            !self.spec_filter().contains(*di) ==> r@ == Seq::<Event>::empty(),
    {
        if self.accepts_device(di) {
            parse_report(buffer, packet_size)
        } else {
            Vec::new()
        }
    }
}

} // verus!
