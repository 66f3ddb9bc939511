//! The message bar: one line at the bottom of the screen that shows the last
//! message for a few seconds.
use crate::terminal::Size;
use std::time::Instant;
use vstd::prelude::*;

verus! {

/// `std::time::Instant`, declared so that a message can carry the time it was
/// set; Verus sees nothing inside it.
#[verifier::external_type_specification]
#[verifier::external_body]
pub struct ExInstant(std::time::Instant);

/// Calls `Instant::now`.  Trusted, with nothing promised of the result: it
/// is a reading of the clock.
#[verifier::external_body]
fn now() -> (t: Instant) {
    Instant::now()
}

/// Calls `Instant::elapsed` on `since` and converts the duration to whole
/// nanoseconds with `Duration::as_nanos`.  Trusted, with nothing promised of
/// the result: it depends on the clock.
#[verifier::external_body]
fn nanos_since(since: &Instant) -> (n: u128) {
    since.elapsed().as_nanos()
}

/// How long a message stays on screen: five seconds, in nanoseconds.
pub const DEFAULT_DURATION_NANOS: u128 = 5_000_000_000;

/// A message and the time it was set.
struct Message {
    text: String,
    time: Instant,
}

/// A message has expired once more than `DEFAULT_DURATION_NANOS` have passed
/// since it was set.
pub open spec fn expired_after(elapsed_nanos: u128) -> bool {
    elapsed_nanos > DEFAULT_DURATION_NANOS
}

/// The message bar as plain values (the time its message was set aside).
pub struct MessageBarState {
    /// The text of the current message.
    pub text: Seq<char>,
    /// Whether the bar must be drawn again.
    pub needs_redraw: bool,
    /// The size of the bar on screen.
    pub size: Size,
    /// Whether the current message was already cleared from the screen after
    /// it expired.
    pub cleared_after_expiry: bool,
}

/// The bar after a new message: the message shows until it expires.
pub open spec fn with_message(b: MessageBarState, text: Seq<char>) -> MessageBarState {
    MessageBarState { text, needs_redraw: true, cleared_after_expiry: false, ..b }
}

/// The bar must be drawn again when its message expired and was not cleared
/// yet, or when a redraw was asked for.
pub open spec fn redraw_needed(b: MessageBarState, expired: bool) -> bool {
    (!b.cleared_after_expiry && expired) || b.needs_redraw
}

/// What the bar shows: nothing once the message expired, else the message.
pub open spec fn shown_text(b: MessageBarState, expired: bool) -> Seq<char> {
    if expired {
        Seq::empty()
    } else {
        b.text
    }
}

/// The bar after it was drawn: an expired message counts as cleared.
pub open spec fn drawn(b: MessageBarState, expired: bool) -> MessageBarState {
    if expired {
        MessageBarState { cleared_after_expiry: true, ..b }
    } else {
        b
    }
}

/// A new message is shown whenever the bar is drawn within five seconds of
/// it, and the bar asks to be drawn; once five seconds have passed it shows
/// nothing.
pub proof fn law_message_shown_until_expiry(b: MessageBarState, text: Seq<char>, elapsed_nanos: u128)
    ensures
        redraw_needed(with_message(b, text), expired_after(elapsed_nanos)),
        elapsed_nanos <= DEFAULT_DURATION_NANOS ==> shown_text(
            with_message(b, text),
            expired_after(elapsed_nanos),
        ) == text,
        elapsed_nanos > DEFAULT_DURATION_NANOS ==> shown_text(
            with_message(b, text),
            expired_after(elapsed_nanos),
        ) == Seq::<char>::empty(),
{
}

/// An expired message is cleared once: after the bar was drawn with it
/// expired and no redraw is asked for, it does not ask to be drawn again,
/// however much later.
pub proof fn law_expired_message_cleared_once(
    b: MessageBarState,
    drawn_at: u128,
    later: u128,
)
    requires
        drawn_at > DEFAULT_DURATION_NANOS,
    ensures
        !redraw_needed(
            MessageBarState { needs_redraw: false, ..drawn(b, expired_after(drawn_at)) },
            expired_after(later),
        ),
{
}

/// The line at the bottom of the screen that shows messages.
pub struct MessageBar {
    current_message: Message,
    needs_redraw: bool,
    size: Size,
    cleared_after_expiry: bool,
}

impl Default for MessageBar {
    /// An empty message, set now, on a bar of no size.
    fn default() -> (b: Self)
        ensures
            b.model() == (MessageBarState {
                text: Seq::empty(),
                needs_redraw: false,
                size: Size { width: 0, height: 0 },
                cleared_after_expiry: false,
            }),
    {
        MessageBar {
            current_message: Message { text: String::new(), time: now() },
            needs_redraw: false,
            size: Size::default(),
            cleared_after_expiry: false,
        }
    }
}

impl MessageBar {
    /// The bar as plain values.
    pub closed spec fn model(&self) -> MessageBarState {
        MessageBarState {
            text: self.current_message.text@,
            needs_redraw: self.needs_redraw,
            size: self.size,
            cleared_after_expiry: self.cleared_after_expiry,
        }
    }

    /// Shows `new_message` from now on, and asks for a redraw.
    pub fn update_message(&mut self, new_message: String)
        ensures
            final(self).model() == with_message(old(self).model(), new_message@),
    {
        self.current_message = Message { text: new_message, time: now() };
        self.cleared_after_expiry = false;
        self.needs_redraw = true;
    }

    /// Asks for, or cancels, a redraw.
    pub fn set_need_redraw(&mut self, value: bool)
        ensures
            final(self).model() == (MessageBarState { needs_redraw: value, ..old(self).model() }),
    {
        self.needs_redraw = value;
    }

    /// Takes a new size.
    pub fn set_size(&mut self, size: Size)
        ensures
            final(self).model() == (MessageBarState { size, ..old(self).model() }),
    {
        self.size = size;
    }

    /// Takes a new size and asks for a redraw.
    pub fn resize(&mut self, size: Size)
        ensures
            final(self).model() == (MessageBarState {
                size,
                needs_redraw: true,
                ..old(self).model()
            }),
    {
        self.set_size(size);
        self.set_need_redraw(true);
    }

    /// Whether the bar must be drawn again, given whether its message
    /// expired.
    pub fn needs_redraw_when(&self, expired: bool) -> (b: bool)
        ensures
            b == redraw_needed(self.model(), expired),
    {
        (!self.cleared_after_expiry && expired) || self.needs_redraw
    }

    /// Whether the bar must be drawn again, `elapsed_nanos` after its
    /// message was set.
    pub fn needs_redraw_at(&self, elapsed_nanos: u128) -> (b: bool)
        ensures
            b == redraw_needed(self.model(), expired_after(elapsed_nanos)),
    {
        self.needs_redraw_when(elapsed_nanos > DEFAULT_DURATION_NANOS)
    }

    /// Whether the bar must be drawn again now, by the clock: always when a
    /// redraw was asked for, and also when the message expired and was not
    /// cleared yet.
    pub fn needs_redraw(&self) -> (b: bool)
        ensures
            exists|elapsed_nanos: u128|
                b == redraw_needed(self.model(), #[trigger] expired_after(elapsed_nanos)),
    {
        let elapsed_nanos = nanos_since(&self.current_message.time);
        self.needs_redraw_at(elapsed_nanos)
    }

    /// The text to draw, given whether the message expired; an expired
    /// message counts as cleared from then on.
    pub fn draw_when(&mut self, expired: bool) -> (s: String)
        ensures
            s@ == shown_text(old(self).model(), expired),
            final(self).model() == drawn(old(self).model(), expired),
    {
        if expired {
            self.cleared_after_expiry = true;
            String::new()
        } else {
            self.current_message.text.clone()
        }
    }

    /// The text to draw `elapsed_nanos` after the message was set: the
    /// message until it expires, then nothing, and the message counts as
    /// cleared.
    pub fn draw_at(&mut self, elapsed_nanos: u128) -> (s: String)
        ensures
            s@ == shown_text(old(self).model(), expired_after(elapsed_nanos)),
            final(self).model() == drawn(old(self).model(), expired_after(elapsed_nanos)),
    {
        self.draw_when(elapsed_nanos > DEFAULT_DURATION_NANOS)
    }

    /// The text to draw now, by the clock: the message until it expires,
    /// then nothing (and the message counts as cleared).
    pub fn draw(&mut self) -> (s: String)
        ensures
            exists|elapsed_nanos: u128|
                s@ == shown_text(old(self).model(), #[trigger] expired_after(elapsed_nanos))
                    && final(self).model() == drawn(old(self).model(), expired_after(elapsed_nanos)),
    {
        let elapsed_nanos = nanos_since(&self.current_message.time);
        self.draw_at(elapsed_nanos)
    }
}

} // verus!
