//! The key-event wire format: `[0x55, direction, key code]`.

use vstd::prelude::*;

verus! {

/// First byte of every frame.
pub const FRAME_MARKER: u8 = 0x55;

/// Number of bytes in a frame.
pub const FRAME_LEN: usize = 3;

/// Direction of a key transition.
#[derive(Clone, Copy, Debug, PartialEq, Eq, Structural)]
pub enum Direction {
    Down,
    Up,
}

impl Direction {
    /// The direction byte of a frame: 1 for a press, 0 for a release.
    pub open spec fn code(self) -> u8 {
        match self {
            Direction::Down => 1u8,
            Direction::Up => 0u8,
        }
    }

    pub fn to_byte(self) -> (r: u8)
        ensures
            r == self.code(),
    {
        match self {
            Direction::Down => 1,
            Direction::Up => 0,
        }
    }
}

/// One key transition reported by the keyboard hook.
#[derive(Clone, Copy, Debug, PartialEq, Eq, Structural)]
pub struct KeyEvent {
    pub key: u32,
    pub direction: Direction,
}

/// The frame that carries `e`: the key code keeps only its low 8 bits.
pub open spec fn frame_of(e: KeyEvent) -> Seq<u8> {
    seq![FRAME_MARKER, e.direction.code(), (e.key % 256) as u8]
}

/// The event carried by the 3 bytes `b`, if they form a frame.
pub open spec fn decoded(b: Seq<u8>) -> Option<KeyEvent> {
    if b.len() == 3 && b[0] == FRAME_MARKER && (b[1] == 0 || b[1] == 1) {
        Some(
            KeyEvent {
                key: b[2] as u32,
                direction: if b[1] == 1 {
                    Direction::Down
                } else {
                    Direction::Up
                },
            },
        )
    } else {
        None
    }
}

/// The bytes on the wire after the frames of `events` were written whole, one
/// after the other.
pub open spec fn wire_of(events: Seq<KeyEvent>) -> Seq<u8>
    decreases events.len(),
{
    if events.len() == 0 {
        Seq::empty()
    } else {
        wire_of(events.drop_last()) + frame_of(events.last())
    }
}

/// Builds the frame for one key transition.
pub fn encode_frame(event: KeyEvent) -> (r: [u8; 3])
    ensures
        r@ == frame_of(event),
{
    let key_byte = (event.key % 256) as u8;
    let r = [FRAME_MARKER, event.direction.to_byte(), key_byte];
    assert(r@ =~= frame_of(event));
    r
}

/// Reads one frame back; `None` when `bytes` is not exactly a frame.
pub fn decode_frame(bytes: &[u8]) -> (r: Option<KeyEvent>)
    ensures
        r == decoded(bytes@),
{
    if bytes.len() != FRAME_LEN || bytes[0] != FRAME_MARKER {
        return None;
    }
    let direction = if bytes[1] == 1 {
        Direction::Down
    } else if bytes[1] == 0 {
        Direction::Up
    } else {
        return None;
    };
    Some(KeyEvent { key: bytes[2] as u32, direction })
}

/// A frame decodes to the event it was built from, with the key code reduced to
/// its low 8 bits; the marker byte always leads.
pub proof fn lemma_frame_round_trip(e: KeyEvent)
    ensures
        frame_of(e).len() == 3,
        frame_of(e)[0] == FRAME_MARKER,
        decoded(frame_of(e)) == Some(KeyEvent { key: e.key % 256, direction: e.direction }),
        e.key < 256 ==> decoded(frame_of(e)) == Some(e),
{
}

/// Frames written whole never tear: the wire holds the frames one after another,
/// the frame of the `i`-th write at bytes `3 * i .. 3 * i + 3`, and each such
/// slice decodes on its own.
pub proof fn lemma_frames_contiguous(events: Seq<KeyEvent>, i: int)
    requires
        0 <= i < events.len(),
    ensures
        wire_of(events).len() == 3 * events.len(),
        wire_of(events).subrange(3 * i, 3 * i + 3) == frame_of(events[i]),
        decoded(wire_of(events).subrange(3 * i, 3 * i + 3)) == Some(
            KeyEvent { key: events[i].key % 256, direction: events[i].direction },
        ),
    decreases events.len(),
{
    lemma_wire_len(events);
    let init = events.drop_last();
    lemma_wire_len(init);
    if i < events.len() - 1 {
        lemma_frames_contiguous(init, i);
        assert(wire_of(events).subrange(3 * i, 3 * i + 3) =~= wire_of(init).subrange(
            3 * i,
            3 * i + 3,
        ));
    } else {
        assert(wire_of(events).subrange(3 * i, 3 * i + 3) =~= frame_of(events.last()));
    }
    lemma_frame_round_trip(events[i]);
}

proof fn lemma_wire_len(events: Seq<KeyEvent>)
    ensures
        wire_of(events).len() == 3 * events.len(),
    decreases events.len(),
{
    if events.len() > 0 {
        lemma_wire_len(events.drop_last());
    }
}

} // verus!
