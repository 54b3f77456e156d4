//! Button-index translation between the device's native vocabulary and the
//! normalized coordinate space.
//!
//! The device reports two disjoint button kinds: grid buttons, addressed
//! natively as (x, y), and control buttons, addressed by a single index.
//! Normalization reserves row 0 for the control buttons and shifts grid
//! rows up by one, so both kinds share one coordinate space without
//! collision:
//!
//! - grid (x, y) -> (x, y + 1);
//! - control index i in [0, 7] -> (i, 0); i >= 8 -> (8, i - 7), a quirk of
//!   the device's light/index numbering;
//! - output direction is the inverse: (x, 0) -> control index x, and
//!   (x, y) with y >= 1 -> grid (x, y - 1).

use vstd::prelude::*;

use crate::events::ControllerEvent;

verus! {

/// A button as the device reports it: either a grid button with native
/// coordinates, or a control button with a single index.
#[derive(Clone, Copy, Debug, PartialEq, Eq, Structural)]
pub enum RawButton {
    Grid { x: u8, y: u8 },
    Control { index: u8 },
}

/// A raw input message from the device, reduced to what the input loop
/// reads: a press, a release, or anything else (discarded untranslated).
#[derive(Clone, Copy, Debug, PartialEq, Eq, Structural)]
pub enum RawMessage {
    Press { button: RawButton },
    Release { button: RawButton },
    Other,
}

/// A grid button's native row fits the shift into the normalized space.
pub open spec fn button_ok(b: RawButton) -> bool {
    b matches RawButton::Grid { x, y } ==> y < 255
}

/// Every button carried by the message satisfies `button_ok`.
pub open spec fn message_ok(m: RawMessage) -> bool {
    match m {
        RawMessage::Press { button } => button_ok(button),
        RawMessage::Release { button } => button_ok(button),
        RawMessage::Other => true,
    }
}

/// The normalized coordinate of a native grid button: the row is shifted
/// up by one to keep row 0 free for the control buttons.
pub open spec fn normalized_of_grid(x: u8, y: u8) -> (u8, u8)
    recommends
        y < 255,
{
    (x, (y + 1) as u8)
}

/// The normalized coordinate of a control button: indices 0 through 7 sit
/// on row 0; indices 8 and up fold onto column 8, rows 1 and up.
pub open spec fn normalized_of_control(i: u8) -> (u8, u8) {
    if i <= 7 {
        (i, 0u8)
    } else {
        (8u8, (i - 7) as u8)
    }
}

/// The normalized coordinate of any raw button.
pub open spec fn normalized_of_button(b: RawButton) -> (u8, u8)
    recommends
        button_ok(b),
{
    match b {
        RawButton::Grid { x, y } => normalized_of_grid(x, y),
        RawButton::Control { index } => normalized_of_control(index),
    }
}

/// The output-direction inverse: row 0 addresses a control button by its
/// column; any higher row addresses the grid, shifted back down by one.
pub open spec fn button_of_normalized(x: u8, y: u8) -> RawButton {
    if y == 0 {
        RawButton::Control { index: x }
    } else {
        RawButton::Grid { x, y: (y - 1) as u8 }
    }
}

/// Translates a native grid coordinate into the normalized space.
pub fn grid_to_normalized(x: u8, y: u8) -> (r: (u8, u8))
    requires
        y < 255,
    ensures
        r == normalized_of_grid(x, y),
        r.0 == x && r.1 == y + 1,
{
    (x, y + 1)
}

/// Translates a control-button index into the normalized space. Total over
/// the device's full index range.
pub fn control_to_normalized(i: u8) -> (r: (u8, u8))
    ensures
        r == normalized_of_control(i),
        i <= 7 ==> r.0 == i && r.1 == 0,
        i >= 8 ==> r.0 == 8 && r.1 == i - 7,
{
    if i <= 7 {
        (i, 0)
    } else {
        (8, i - 7)
    }
}

/// Translates a normalized coordinate back to the button the device
/// addresses its output with. Total.
pub fn normalized_to_button(x: u8, y: u8) -> (b: RawButton)
    ensures
        b == button_of_normalized(x, y),
        y == 0 ==> b == (RawButton::Control { index: x }),
        y >= 1 ==> b == (RawButton::Grid { x, y: (y - 1) as u8 }),
{
    if y == 0 {
        RawButton::Control { index: x }
    } else {
        RawButton::Grid { x, y: y - 1 }
    }
}

/// Translating a native grid coordinate into the normalized space and back
/// recovers the original coordinate: the round trip is the identity on the
/// grid branch.
pub proof fn lemma_grid_round_trip(x: u8, y: u8)
    requires
        y < 255,
    ensures
        button_of_normalized(
            normalized_of_grid(x, y).0,
            normalized_of_grid(x, y).1,
        ) == (RawButton::Grid { x, y }),
{
}

/// The control-button mapping is total and stable over the device's full
/// index range: every index lands on the documented piecewise image, and
/// the image always sits in the normalized space's control column or row.
pub proof fn lemma_control_mapping_total(i: u8)
    ensures
        i <= 7 ==> normalized_of_control(i) == (i, 0u8),
        i >= 8 ==> normalized_of_control(i) == (8u8, (i - 7) as u8),
        normalized_of_control(i).0 <= 8,
{
}

/// The one normalized event a raw message produces, if any: presses and
/// releases are translated, everything else is discarded.
pub open spec fn event_of_message(m: RawMessage) -> Option<ControllerEvent>
    recommends
        message_ok(m),
{
    match m {
        RawMessage::Press { button } => Some(
            ControllerEvent::Press {
                x: normalized_of_button(button).0,
                y: normalized_of_button(button).1,
            },
        ),
        RawMessage::Release { button } => Some(
            ControllerEvent::Release {
                x: normalized_of_button(button).0,
                y: normalized_of_button(button).1,
            },
        ),
        RawMessage::Other => None,
    }
}

/// Translates one raw input message into the normalized event the input
/// loop publishes for it: exactly one event per raw press or release, none
/// for any other message kind.
pub fn translate_message(m: &RawMessage) -> (r: Option<ControllerEvent>)
    requires
        message_ok(*m),
    ensures
        r == event_of_message(*m),
{
    match m {
        RawMessage::Press { button } => {
            let (x, y) = translate_button(button);
            Some(ControllerEvent::Press { x, y })
        },
        RawMessage::Release { button } => {
            let (x, y) = translate_button(button);
            Some(ControllerEvent::Release { x, y })
        },
        RawMessage::Other => None,
    }
}

/// The stream of normalized events the input loop publishes for a stream of
/// raw messages, in arrival order: one event per press or release, none for
/// any other message kind.
pub open spec fn events_of_messages(ms: Seq<RawMessage>) -> Seq<ControllerEvent>
    decreases ms.len(),
{
    if ms.len() == 0 {
        Seq::empty()
    } else {
        let rest = events_of_messages(ms.drop_last());
        match event_of_message(ms.last()) {
            Some(e) => rest.push(e),
            None => rest,
        }
    }
}

/// Where in the published stream the event of message `i` lands: the number
/// of events produced by the messages before it.
pub open spec fn published_index(ms: Seq<RawMessage>, i: int) -> int {
    events_of_messages(ms.take(i)).len() as int
}

/// The events of a prefix of the message stream are a prefix of the events
/// of the whole stream.
pub proof fn lemma_events_prefix(ms: Seq<RawMessage>, i: int)
    requires
        0 <= i <= ms.len(),
    ensures
        events_of_messages(ms.take(i)).len() <= events_of_messages(ms).len(),
        forall|k: int|
            0 <= k < events_of_messages(ms.take(i)).len() ==> events_of_messages(ms.take(i))[k]
                == events_of_messages(ms)[k],
    decreases ms.len(),
{
    if i == ms.len() {
        assert(ms.take(i) =~= ms);
    } else {
        assert(ms.take(i) =~= ms.drop_last().take(i));
        lemma_events_prefix(ms.drop_last(), i);
    }
}

/// Extending the message stream by one message appends that message's
/// event, if it has one, and nothing otherwise.
pub proof fn lemma_events_take_step(ms: Seq<RawMessage>, i: int)
    requires
        0 <= i < ms.len(),
    ensures
        event_of_message(ms[i]) matches Some(e) ==> events_of_messages(ms.take(i + 1))
            == events_of_messages(ms.take(i)).push(e),
        event_of_message(ms[i]) is None ==> events_of_messages(ms.take(i + 1))
            == events_of_messages(ms.take(i)),
{
    let t = ms.take(i + 1);
    assert(t.last() == ms[i]);
    assert(t.drop_last() =~= ms.take(i));
}

/// Later messages never publish earlier: the published position is
/// monotone in the message position.
pub proof fn lemma_published_index_monotone(ms: Seq<RawMessage>, i: int, j: int)
    requires
        0 <= i <= j <= ms.len(),
    ensures
        published_index(ms, i) <= published_index(ms, j),
    decreases j - i,
{
    if i < j {
        lemma_events_take_step(ms, j - 1);
        lemma_published_index_monotone(ms, i, j - 1);
    }
}

/// Translation preserves arrival order: when two messages of the stream
/// each produce an event (a press and its later release, in particular),
/// the earlier message's event stands strictly before the later one's in
/// the published stream, each at its published position. No subscriber of
/// the bus can therefore ever be handed the pair reordered.
pub proof fn lemma_translation_preserves_order(ms: Seq<RawMessage>, i: int, j: int)
    requires
        0 <= i < j < ms.len(),
        event_of_message(ms[i]) is Some,
        event_of_message(ms[j]) is Some,
    ensures
        ({
            let es = events_of_messages(ms);
            let p = published_index(ms, i);
            let q = published_index(ms, j);
            &&& 0 <= p < q < es.len()
            &&& Some(es[p]) == event_of_message(ms[i])
            &&& Some(es[q]) == event_of_message(ms[j])
        }),
{
    let es = events_of_messages(ms);
    let p = published_index(ms, i);
    let q = published_index(ms, j);
    lemma_events_take_step(ms, i);
    lemma_events_take_step(ms, j);
    lemma_events_prefix(ms, i + 1);
    lemma_events_prefix(ms, j + 1);
    lemma_published_index_monotone(ms, i + 1, j);
    lemma_published_index_monotone(ms, j + 1, ms.len() as int);
    assert(ms.take(ms.len() as int) =~= ms);
}

/// Translates a batch of raw messages into the event stream the input loop
/// publishes for them, in arrival order.
pub fn translate_batch(ms: &Vec<RawMessage>) -> (r: Vec<ControllerEvent>)
    requires
        forall|k: int| 0 <= k < ms@.len() ==> message_ok(ms@[k]),
    ensures
        r@ == events_of_messages(ms@),
{
    let mut r: Vec<ControllerEvent> = Vec::new();
    let mut i: usize = 0;
    proof {
        assert(ms@.take(0) =~= Seq::<RawMessage>::empty());
    }
    while i < ms.len()
        invariant
            i <= ms@.len(),
            r@ == events_of_messages(ms@.take(i as int)),
            forall|k: int| 0 <= k < ms@.len() ==> message_ok(ms@[k]),
        decreases ms@.len() - i,
    {
        proof {
            lemma_events_take_step(ms@, i as int);
        }
        match translate_message(&ms[i]) {
            Some(e) => r.push(e),
            None => {},
        }
        i = i + 1;
    }
    proof {
        assert(ms@.take(ms@.len() as int) =~= ms@);
    }
    r
}

/// Translates any raw button into the normalized space.
pub fn translate_button(b: &RawButton) -> (r: (u8, u8))
    requires
        button_ok(*b),
    ensures
        r == normalized_of_button(*b),
{
    match b {
        RawButton::Grid { x, y } => grid_to_normalized(*x, *y),
        RawButton::Control { index } => control_to_normalized(*index),
    }
}

} // verus!
