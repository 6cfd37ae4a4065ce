//! The message bar widget: one posted message with its expiry state machine,
//! and the two flags that decide when the renderer owes this row a repaint.

use vstd::prelude::*;
use vstd::string::StringExecFns;

verus! {

/// How long a message stays visible after being posted, in milliseconds.
pub const EXPIRY_MS: u64 = 5000;

/// Mathematical model of one posted message: its text and the clock reading
/// at which it was posted.
#[verifier::ext_equal]
pub struct MessageView {
    pub text: Seq<char>,
    pub time: u64,
}

/// Mathematical model of the whole bar: the current message plus the two
/// redraw flags.
#[verifier::ext_equal]
pub struct BarView {
    pub message: MessageView,
    pub needs_redraw: bool,
    pub clear_after_expiry: bool,
}

/// A message is expired once strictly more than `EXPIRY_MS` milliseconds lie
/// between its posting time and the clock reading `now`. A reading at or
/// before the posting time counts as no time passed.
pub open spec fn spec_is_expired(m: MessageView, now: u64) -> bool {
    now > m.time + EXPIRY_MS
}

/// A redraw is owed when the explicit dirty flag is set, or — only while
/// `clear_after_expiry` is still false — when the message has expired.
pub open spec fn spec_needs_redraw(b: BarView, now: u64) -> bool {
    (!b.clear_after_expiry && spec_is_expired(b.message, now)) || b.needs_redraw
}

/// The text a draw renders at clock reading `now`: the message's own text
/// while it is alive, the empty row once it has expired.
pub open spec fn spec_rendered(b: BarView, now: u64) -> Seq<char> {
    if spec_is_expired(b.message, now) {
        Seq::<char>::empty()
    } else {
        b.message.text
    }
}

/// The bar state right after `text` is posted at clock reading `now`: a fresh
/// message, an explicit redraw request, and `clear_after_expiry` set.
pub open spec fn spec_posted(text: Seq<char>, now: u64) -> BarView {
    BarView {
        message: MessageView { text, time: now },
        needs_redraw: true,
        clear_after_expiry: true,
    }
}

/// The bar state after a draw at clock reading `now`: unchanged, except that
/// observing an expired message sets `clear_after_expiry`.
pub open spec fn spec_after_draw(b: BarView, now: u64) -> BarView {
    BarView {
        message: b.message,
        needs_redraw: b.needs_redraw,
        clear_after_expiry: b.clear_after_expiry || spec_is_expired(b.message, now),
    }
}

/// One posted notification. Its fields are never patched individually: the
/// bar only ever replaces the whole value.
pub struct Message {
    pub text: String,
    pub time: u64,
}

impl View for Message {
    type V = MessageView;

    open spec fn view(&self) -> MessageView {
        MessageView { text: self.text@, time: self.time }
    }
}

impl Message {
    /// Whether this message has outlived its display window at clock reading
    /// `now`.
    pub fn is_expired(&self, now: u64) -> (r: bool)
        ensures
            r == spec_is_expired(self@, now),
    {
        now > self.time && now - self.time > EXPIRY_MS
    }
}

/// Terminal dimensions, as the surrounding screen composition hands them to
/// every widget on a resize.
#[derive(Clone, Copy)]
pub struct Size {
    pub height: usize,
    pub width: usize,
}

/// The status-bar widget: the current message and the two flags governing
/// when an external renderer must redraw this row.
pub struct MessageBar {
    pub current_message: Message,
    pub needs_redraw: bool,
    pub clear_after_expiry: bool,
}

impl View for MessageBar {
    type V = BarView;

    open spec fn view(&self) -> BarView {
        BarView {
            message: self.current_message@,
            needs_redraw: self.needs_redraw,
            clear_after_expiry: self.clear_after_expiry,
        }
    }
}

impl MessageBar {
    /// A bar that starts empty: blank text stamped with the creation time
    /// `now`, both redraw flags clear.
    pub fn new(now: u64) -> (bar: MessageBar)
        ensures
            bar@ == (BarView {
                message: MessageView { text: Seq::<char>::empty(), time: now },
                needs_redraw: false,
                clear_after_expiry: false,
            }),
    {
        MessageBar {
            current_message: Message { text: String::new(), time: now },
            needs_redraw: false,
            clear_after_expiry: false,
        }
    }

    /// Replaces the current message wholesale with `new_message` stamped
    /// `now`, and requests an explicit redraw. `clear_after_expiry` is set
    /// here, which also disarms the implicit expiry-triggered redraw for the
    /// new message.
    pub fn update_message(&mut self, new_message: &str, now: u64)
        ensures
            final(self)@ == spec_posted(new_message@, now),
    {
        self.current_message = Message { text: String::from_str(new_message), time: now };
        self.clear_after_expiry = true;
        self.set_needs_redraw(true);
    }

    /// Setter for the explicit dirty flag; the renderer calls this with
    /// `false` after it has consumed a draw.
    pub fn set_needs_redraw(&mut self, value: bool)
        ensures
            final(self)@ == (BarView {
                message: old(self)@.message,
                needs_redraw: value,
                clear_after_expiry: old(self)@.clear_after_expiry,
            }),
    {
        self.needs_redraw = value;
    }

    /// Whether a redraw is owed at clock reading `now`. The result depends on
    /// the clock, so the renderer must poll it fresh on every tick.
    pub fn needs_redraw(&self, now: u64) -> (r: bool)
        ensures
            r == spec_needs_redraw(self@, now),
    {
        (!self.clear_after_expiry && self.current_message.is_expired(now)) || self.needs_redraw
    }

    /// The bar occupies one fixed row whatever the terminal dimensions, so
    /// resizing changes nothing.
    pub fn set_size(&mut self, _size: Size)
        ensures
            final(self)@ == old(self)@,
    {
    }

    /// Computes the text the renderer must write at this bar's row for clock
    /// reading `now`: the current message's text, or the empty string once
    /// the message has expired. Observing an expired message sets
    /// `clear_after_expiry`, so that the blanking write is requested only
    /// once.
    pub fn draw(&mut self, now: u64) -> (text: String)
        ensures
            final(self)@ == spec_after_draw(old(self)@, now),
            text@ == spec_rendered(old(self)@, now),
    {
        if self.current_message.is_expired(now) {
            self.clear_after_expiry = true;
        }
        if self.current_message.is_expired(now) {
            String::new()
        } else {
            self.current_message.text.clone()
        }
    }
}

/// For any posted text: at the posting instant itself, a redraw is owed and
/// the rendered row is exactly that text.
pub proof fn lemma_fresh_post_shows_text(text: Seq<char>, now: u64)
    ensures
        spec_needs_redraw(spec_posted(text, now), now),
        spec_rendered(spec_posted(text, now), now) == text,
{
}

/// A message is unexpired for the full `EXPIRY_MS` window following its
/// posting time and expired strictly afterwards: the boundary instant itself
/// is still unexpired.
pub proof fn lemma_expiry_window(m: MessageView, now: u64)
    ensures
        m.time <= now <= m.time + EXPIRY_MS ==> !spec_is_expired(m, now),
        now > m.time + EXPIRY_MS ==> spec_is_expired(m, now),
{
}

/// A draw that observes an expired message renders the empty row and leaves
/// `clear_after_expiry` set.
pub proof fn lemma_draw_of_expired_blanks(b: BarView, now: u64)
    requires
        spec_is_expired(b.message, now),
    ensures
        spec_rendered(b, now) == Seq::<char>::empty(),
        spec_after_draw(b, now).clear_after_expiry,
{
}

/// Once `clear_after_expiry` is set and the explicit flag is clear, no redraw
/// is owed at any clock reading, however much further time passes: the
/// blanking write is never repeated.
pub proof fn lemma_cleared_bar_stays_quiet(b: BarView, now: u64)
    requires
        b.clear_after_expiry,
        !b.needs_redraw,
    ensures
        !spec_needs_redraw(b, now),
{
}

} // verus!
