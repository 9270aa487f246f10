//! What the shell shows above everything else.

use vstd::prelude::*;

use crate::shell::settle::ONE_BITS;
use crate::text::{joined, same_text};
use crate::text_map::TextMap;
use crate::time::{millis, Duration, MAX_NANOS};

verus! {

/// The time that an overlay takes to come or go.
pub const TRANSITION_MS: u64 = 180;

#[derive(Clone, Copy, Debug, PartialEq, Eq, Structural)]
pub enum NotificationKind {
    Success,
    Error,
}

/// How much of an overlay is seen: it rises from a share to the whole, or falls from a
/// share to nothing. Shares are the bits of numbers between zero and one.
#[derive(Clone, Copy, Debug, PartialEq, Eq, Structural)]
pub enum Fade {
    Rising { from_bits: u32, elapsed: Duration, over: Duration },
    Falling { from_bits: u32, elapsed: Duration, over: Duration },
}

/// The time since a point, none before it.
pub open spec fn since(at: Duration, now: Duration) -> int {
    if now.nanos >= at.nanos {
        now.nanos - at.nanos
    } else {
        0
    }
}

/// `length` has passed since a point.
pub open spec fn has_passed(at: Duration, length: int, now: Duration) -> bool {
    now.nanos >= at.nanos + length
}

fn passed(at: Duration, length: Duration, now: Duration) -> (r: bool)
    ensures
        r == has_passed(at, length.nanos as int, now),
{
    now.nanos >= at.nanos && now.nanos - at.nanos >= length.nanos
}

/// The time that an overlay takes to come or go.
pub open spec fn transition() -> int {
    millis(180)
}

fn transition_duration() -> (r: Duration)
    ensures
        r.nanos == transition(),
{
    Duration::from_millis(TRANSITION_MS)
}

/// A message of the shell.
#[derive(Debug)]
pub struct Notification {
    pub output: String,
    pub message: String,
    pub kind: NotificationKind,
    pub shown_at: Duration,
    pub enter_bits: u32,
    pub expires_at: Duration,
    /// When it was taken away, and how much of it was seen then.
    pub dismissed: Option<(Duration, u32)>,
    pub expiry_notified: bool,
}

impl Notification {
    /// Nothing of it is seen any more.
    pub open spec fn is_over(self, now: Duration) -> bool {
        match self.dismissed {
            Some((at, _)) => has_passed(at, transition(), now),
            None => has_passed(self.expires_at, transition(), now),
        }
    }

    pub fn finished(&self, now: Duration) -> (r: bool)
        ensures
            r == self.is_over(now),
    {
        match self.dismissed {
            Some((at, _)) => passed(at, transition_duration(), now),
            None => passed(self.expires_at, transition_duration(), now),
        }
    }

    pub open spec fn moves(self, now: Duration) -> bool {
        !self.is_over(now) && (!has_passed(self.shown_at, transition(), now)
            || self.dismissed is Some || now.nanos >= self.expires_at.nanos)
    }

    pub fn animating(&self, now: Duration) -> (r: bool)
        ensures
            r == self.moves(now),
    {
        !self.finished(now) && (!passed(self.shown_at, transition_duration(), now)
            || self.dismissed.is_some() || now.nanos >= self.expires_at.nanos)
    }

    pub open spec fn is_fade(self, now: Duration, fade: Fade) -> bool {
        match self.dismissed {
            Some((at, from)) => fade matches Fade::Falling { from_bits, elapsed, over } && from_bits
                == from && elapsed.nanos == since(at, now) && over.nanos == transition(),
            None => if now.nanos >= self.expires_at.nanos {
                fade matches Fade::Falling { from_bits, elapsed, over } && from_bits == ONE_BITS
                    && elapsed.nanos == since(self.expires_at, now) && over.nanos == transition()
            } else {
                fade matches Fade::Rising { from_bits, elapsed, over } && from_bits
                    == self.enter_bits && elapsed.nanos == since(self.shown_at, now) && over.nanos
                    == transition()
            },
        }
    }

    /// How much of it is seen.
    pub fn fade(&self, now: Duration) -> (fade: Fade)
        ensures
            self.is_fade(now, fade),
    {
        let over = transition_duration();
        match self.dismissed {
            Some((at, from)) => Fade::Falling {
                from_bits: from,
                elapsed: now.saturating_sub(at),
                over,
            },
            None => if now.nanos >= self.expires_at.nanos {
                Fade::Falling {
                    from_bits: ONE_BITS,
                    elapsed: now.saturating_sub(self.expires_at),
                    over,
                }
            } else {
                Fade::Rising {
                    from_bits: self.enter_bits,
                    elapsed: now.saturating_sub(self.shown_at),
                    over,
                }
            },
        }
    }
}

/// The question whether to leave.
#[derive(Clone, Copy, Debug)]
pub struct ExitConfirmation {
    pub opened_at: Duration,
    /// When it was answered with no, and how much of it was seen then.
    pub closing: Option<(Duration, u32)>,
}

impl ExitConfirmation {
    pub open spec fn is_over(self, now: Duration) -> bool {
        self.closing is Some && has_passed((self.closing->0).0, transition(), now)
    }

    pub fn finished(&self, now: Duration) -> (r: bool)
        ensures
            r == self.is_over(now),
    {
        match self.closing {
            Some((at, _)) => passed(at, transition_duration(), now),
            None => false,
        }
    }

    pub open spec fn moves(self, now: Duration) -> bool {
        !self.is_over(now) && (!has_passed(self.opened_at, transition(), now)
            || self.closing is Some)
    }

    pub fn animating(&self, now: Duration) -> (r: bool)
        ensures
            r == self.moves(now),
    {
        !self.finished(now) && (!passed(self.opened_at, transition_duration(), now)
            || self.closing.is_some())
    }

    pub open spec fn is_fade(self, now: Duration, fade: Fade) -> bool {
        match self.closing {
            Some((at, from)) => fade matches Fade::Falling { from_bits, elapsed, over } && from_bits
                == from && elapsed.nanos == since(at, now) && over.nanos == transition(),
            None => fade matches Fade::Rising { from_bits, elapsed, over } && from_bits == 0
                && elapsed.nanos == since(self.opened_at, now) && over.nanos == transition(),
        }
    }

    /// How much of it is seen.
    pub fn fade(&self, now: Duration) -> (fade: Fade)
        ensures
            self.is_fade(now, fade),
    {
        let over = transition_duration();
        match self.closing {
            Some((at, from)) => Fade::Falling {
                from_bits: from,
                elapsed: now.saturating_sub(at),
                over,
            },
            None => Fade::Rising {
                from_bits: 0,
                elapsed: now.saturating_sub(self.opened_at),
                over,
            },
        }
    }
}

/// The bits of a number below the share at which an indicator counts as shown.
pub open spec fn is_partly_shown(bits: u32) -> bool {
    bits < 0x3f7f_be77 || 0x8000_0000 <= bits <= 0xff80_0000
}

/// The scale of an output while it changes.
#[derive(Clone, Copy, Debug, PartialEq, Eq, Structural)]
pub struct ZoomIndicator {
    pub scale_bits: u32,
    pub shown_at: Duration,
    pub enter_bits: u32,
    pub expires_at: Duration,
    pub fade: Duration,
    pub expiry_notified: bool,
}

impl ZoomIndicator {
    pub open spec fn is_over(self, now: Duration) -> bool {
        has_passed(self.expires_at, self.fade.nanos as int, now)
    }

    pub fn finished(&self, now: Duration) -> (r: bool)
        ensures
            r == self.is_over(now),
    {
        passed(self.expires_at, self.fade, now)
    }

    pub open spec fn moves(self, now: Duration) -> bool {
        !self.is_over(now) && ((is_partly_shown(self.enter_bits) && !has_passed(
            self.shown_at,
            self.fade.nanos as int,
            now,
        )) || now.nanos >= self.expires_at.nanos)
    }

    pub fn animating(&self, now: Duration) -> (r: bool)
        ensures
            r == self.moves(now),
    {
        let partly = self.enter_bits < 0x3f7f_be77 || (0x8000_0000 <= self.enter_bits
            && self.enter_bits <= 0xff80_0000);
        !self.finished(now) && ((partly && !passed(self.shown_at, self.fade, now)) || now.nanos
            >= self.expires_at.nanos)
    }

    pub open spec fn is_fade(self, now: Duration, fade: Fade) -> bool {
        if now.nanos >= self.expires_at.nanos {
            fade matches Fade::Falling { from_bits, elapsed, over } && from_bits == ONE_BITS
                && elapsed.nanos == since(self.expires_at, now) && over == self.fade
        } else {
            fade matches Fade::Rising { from_bits, elapsed, over } && from_bits == self.enter_bits
                && elapsed.nanos == since(self.shown_at, now) && over == self.fade
        }
    }

    /// How much of it is seen.
    pub fn fade_at(&self, now: Duration) -> (fade: Fade)
        ensures
            self.is_fade(now, fade),
    {
        if now.nanos >= self.expires_at.nanos {
            Fade::Falling {
                from_bits: ONE_BITS,
                elapsed: now.saturating_sub(self.expires_at),
                over: self.fade,
            }
        } else {
            Fade::Rising {
                from_bits: self.enter_bits,
                elapsed: now.saturating_sub(self.shown_at),
                over: self.fade,
            }
        }
    }
}

/// The settings of the indicators.
#[derive(Clone, Copy, Debug, PartialEq, Eq, Structural)]
pub struct ZoomIndicatorConfig {
    pub enabled: bool,
    pub hold_duration_ms: u64,
    pub fade_duration_ms: u64,
}

#[derive(Debug)]
pub struct NotificationSnapshot {
    pub message: String,
    pub kind: NotificationKind,
    pub fade: Fade,
}

#[derive(Clone, Copy, Debug, PartialEq, Eq, Structural)]
pub struct ZoomIndicatorSnapshot {
    pub scale_bits: u32,
    pub fade: Fade,
}

/// The bits of the share that is as good as nothing: a thousandth.
pub const UNSEEN_BITS: u32 = 0x3a83_126f;

/// The bits of a share of which more than a thousandth is seen.
pub open spec fn is_seen(bits: u32) -> bool {
    UNSEEN_BITS < bits <= 0x7f80_0000
}

pub fn seen(bits: u32) -> (r: bool)
    ensures
        r == is_seen(bits),
{
    UNSEEN_BITS < bits && bits <= 0x7f80_0000
}

/// Something that went wrong, where it is told and for how long.
#[derive(Debug)]
pub struct ErrorMessage {
    pub output: String,
    pub text: String,
    pub duration_ms: u64,
}

impl ErrorMessage {
    /// The message tells this on this output, for three seconds.
    pub open spec fn tells(self, output: Seq<char>, text: Seq<char>) -> bool {
        &&& self.output@ == output
        &&& self.text@ == text
        &&& self.duration_ms == 3_000
    }
}

/// What is drawn on an output.
#[derive(Debug)]
pub struct OverlaySnapshot {
    pub exit: Option<Fade>,
    pub notification: Option<NotificationSnapshot>,
    pub zoom_indicator: Option<ZoomIndicatorSnapshot>,
}

/// The name is among the first.
spec fn is_named(names: Seq<String>, upto: int, name: Seq<char>) -> bool {
    exists|i: int| 0 <= i < upto && #[trigger] names[i]@ == name
}

/// A message is shown for a millisecond at least.
pub open spec fn at_least_one(duration_ms: u64) -> int {
    if duration_ms < 1 {
        1
    } else {
        duration_ms as int
    }
}

/// Everything that is shown above everything else.
#[derive(Debug)]
pub struct OverlayManager {
    pub exit: Option<ExitConfirmation>,
    pub notification: Option<Notification>,
    pub zoom_indicators: TextMap<ZoomIndicator>,
}

impl Default for OverlayManager {
    fn default() -> (r: Self)
        ensures
            r.exit is None,
            r.notification is None,
            r.zoom_indicators@ == Map::<Seq<char>, ZoomIndicator>::empty(),
    {
        OverlayManager { exit: None, notification: None, zoom_indicators: TextMap::new() }
    }
}

impl OverlayManager {
    pub open spec fn asks_exit(self) -> bool {
        self.exit is Some && self.exit->0.closing is None
    }

    pub fn exit_modal_active(&self) -> (r: bool)
        ensures
            r == self.asks_exit(),
    {
        match self.exit {
            Some(exit) => exit.closing.is_none(),
            None => false,
        }
    }

    /// Asks whether to leave, unless that is asked already.
    pub fn show_exit(&mut self, now: Duration) -> (shown: bool)
        ensures
            shown == !old(self).asks_exit(),
            final(self).exit == (if shown {
                Some(ExitConfirmation { opened_at: now, closing: None })
            } else {
                old(self).exit
            }),
            final(self).notification == old(self).notification,
            final(self).zoom_indicators == old(self).zoom_indicators,
    {
        if self.exit_modal_active() {
            return false;
        }
        self.exit = Some(ExitConfirmation { opened_at: now, closing: None });
        true
    }

    /// Takes the question back. `mix_bits` is how much of it is seen now.
    pub fn cancel_exit(&mut self, mix_bits: u32, now: Duration) -> (cancelled: bool)
        ensures
            cancelled == old(self).asks_exit(),
            final(self).exit == (if cancelled {
                Some(
                    ExitConfirmation {
                        opened_at: old(self).exit->0.opened_at,
                        closing: Some((now, mix_bits)),
                    },
                )
            } else {
                old(self).exit
            }),
            final(self).notification == old(self).notification,
            final(self).zoom_indicators == old(self).zoom_indicators,
    {
        match self.exit {
            Some(exit) => {
                if exit.closing.is_some() {
                    return false;
                }
                self.exit = Some(
                    ExitConfirmation {
                        opened_at: exit.opened_at,
                        closing: Some((now, mix_bits)),
                    },
                );
                true
            },
            None => false,
        }
    }

    /// The message that is shown, and until when.
    pub open spec fn notifies(
        self,
        output: Seq<char>,
        message: Seq<char>,
        kind: NotificationKind,
        duration_ms: u64,
        enter_bits: u32,
        now: Duration,
    ) -> bool {
        self.notification is Some && {
            let notification = self.notification->0;
            &&& notification.output@ == output
            &&& notification.message@ == message
            &&& notification.kind == kind
            &&& notification.shown_at == now
            &&& notification.enter_bits == enter_bits
            &&& notification.expires_at.nanos == now.nanos + millis(at_least_one(duration_ms))
            &&& notification.dismissed is None
            &&& !notification.expiry_notified
        }
    }

    /// The share that a new message rises from: what is seen of the one that it replaces.
    pub open spec fn entry_bits(self, mix_bits: u32, now: Duration) -> u32 {
        if self.notification is Some && !self.notification->0.is_over(now) {
            mix_bits
        } else {
            0
        }
    }

    fn show_notification(
        &mut self,
        output: &str,
        message: String,
        kind: NotificationKind,
        duration_ms: u64,
        mix_bits: u32,
        now: Duration,
    )
        requires
            now.nanos + millis(at_least_one(duration_ms)) <= MAX_NANOS,
        ensures
            final(self).notifies(
                output@,
                message@,
                kind,
                duration_ms,
                old(self).entry_bits(mix_bits, now),
                now,
            ),
            final(self).exit == old(self).exit,
            final(self).zoom_indicators == old(self).zoom_indicators,
    {
        let enter_bits: u32 = match &self.notification {
            Some(notification) => if notification.finished(now) {
                0
            } else {
                mix_bits
            },
            None => 0,
        };
        let length: u64 = if duration_ms < 1 {
            1
        } else {
            duration_ms
        };
        let expires_at = now.plus(Duration::from_millis(length));
        self.notification = Some(
            Notification {
                output: output.to_owned(),
                message,
                kind,
                shown_at: now,
                enter_bits,
                expires_at,
                dismissed: None,
                expiry_notified: false,
            },
        );
    }

    /// Says that a configuration was loaded. `mix_bits` is how much is seen of the
    /// message that is shown now.
    pub fn show_config_success(
        &mut self,
        output: &str,
        path: &str,
        duration_ms: u64,
        mix_bits: u32,
        now: Duration,
    )
        requires
            now.nanos + millis(at_least_one(duration_ms)) <= MAX_NANOS,
        ensures
            final(self).notifies(
                output@,
                "Configuration successfully loaded from "@ + path@,
                NotificationKind::Success,
                duration_ms,
                old(self).entry_bits(mix_bits, now),
                now,
            ),
            final(self).exit == old(self).exit,
            final(self).zoom_indicators == old(self).zoom_indicators,
    {
        let message = joined("Configuration successfully loaded from ", path);
        self.show_notification(
            output,
            message,
            NotificationKind::Success,
            duration_ms,
            mix_bits,
            now,
        );
    }

    /// Says that a configuration could not be loaded.
    pub fn show_config_error(
        &mut self,
        output: &str,
        duration_ms: u64,
        mix_bits: u32,
        now: Duration,
    )
        requires
            now.nanos + millis(at_least_one(duration_ms)) <= MAX_NANOS,
        ensures
            final(self).notifies(
                output@,
                "Current configuration was unable to load properly. Run `halleyctl config verify` to see why."@,
                NotificationKind::Error,
                duration_ms,
                old(self).entry_bits(mix_bits, now),
                now,
            ),
            final(self).exit == old(self).exit,
            final(self).zoom_indicators == old(self).zoom_indicators,
    {
        let message =
            "Current configuration was unable to load properly. Run `halleyctl config verify` to see why.".to_owned();
        self.show_notification(
            output,
            message,
            NotificationKind::Error,
            duration_ms,
            mix_bits,
            now,
        );
    }

    /// Says where a screenshot was saved.
    pub fn show_screenshot_saved(
        &mut self,
        output: &str,
        directory: &str,
        duration_ms: u64,
        mix_bits: u32,
        now: Duration,
    )
        requires
            now.nanos + millis(at_least_one(duration_ms)) <= MAX_NANOS,
        ensures
            final(self).notifies(
                output@,
                "Screenshot saved to "@ + directory@,
                NotificationKind::Success,
                duration_ms,
                old(self).entry_bits(mix_bits, now),
                now,
            ),
            final(self).exit == old(self).exit,
            final(self).zoom_indicators == old(self).zoom_indicators,
    {
        let message = joined("Screenshot saved to ", directory);
        self.show_notification(
            output,
            message,
            NotificationKind::Success,
            duration_ms,
            mix_bits,
            now,
        );
    }

    /// Tells what went wrong.
    pub fn show_message(&mut self, message: &ErrorMessage, mix_bits: u32, now: Duration)
        requires
            now.nanos + millis(at_least_one(message.duration_ms)) <= MAX_NANOS,
        ensures
            final(self).notifies(
                message.output@,
                message.text@,
                NotificationKind::Error,
                message.duration_ms,
                old(self).entry_bits(mix_bits, now),
                now,
            ),
            final(self).exit == old(self).exit,
            final(self).zoom_indicators == old(self).zoom_indicators,
    {
        self.show_error(
            message.output.as_str(),
            message.text.as_str(),
            message.duration_ms,
            mix_bits,
            now,
        );
    }

    /// Says that something went wrong.
    pub fn show_error(
        &mut self,
        output: &str,
        message: &str,
        duration_ms: u64,
        mix_bits: u32,
        now: Duration,
    )
        requires
            now.nanos + millis(at_least_one(duration_ms)) <= MAX_NANOS,
        ensures
            final(self).notifies(
                output@,
                message@,
                NotificationKind::Error,
                duration_ms,
                old(self).entry_bits(mix_bits, now),
                now,
            ),
            final(self).exit == old(self).exit,
            final(self).zoom_indicators == old(self).zoom_indicators,
    {
        self.show_notification(
            output,
            message.to_owned(),
            NotificationKind::Error,
            duration_ms,
            mix_bits,
            now,
        );
    }

    /// Takes an error away that no longer holds. Other messages stay.
    pub fn clear_config_error(&mut self, mix_bits: u32, now: Duration) -> (cleared: bool)
        ensures
            cleared == (old(self).notification is Some && old(self).notification->0.kind
                == NotificationKind::Error && old(self).notification->0.dismissed is None),
            !cleared ==> *final(self) == *old(self),
            cleared ==> final(self).notification is Some && {
                let before = old(self).notification->0;
                let after = final(self).notification->0;
                &&& after.dismissed == Some((now, mix_bits))
                &&& after.output == before.output
                &&& after.message == before.message
                &&& after.kind == before.kind
                &&& after.shown_at == before.shown_at
                &&& after.enter_bits == before.enter_bits
                &&& after.expires_at == before.expires_at
                &&& after.expiry_notified == before.expiry_notified
            },
            final(self).exit == old(self).exit,
            final(self).zoom_indicators == old(self).zoom_indicators,
    {
        let clears = match &self.notification {
            Some(notification) => notification.kind == NotificationKind::Error
                && notification.dismissed.is_none(),
            None => false,
        };
        if !clears {
            return false;
        }
        match self.notification.take() {
            Some(mut notification) => {
                notification.dismissed = Some((now, mix_bits));
                self.notification = Some(notification);
                true
            },
            None => false,
        }
    }

    /// The indicator that a change of the scale leaves. One that is shown keeps how it
    /// came; one that goes away comes back from what is seen of it.
    pub open spec fn indicator(
        self,
        output: Seq<char>,
        scale_bits: u32,
        config: ZoomIndicatorConfig,
        mix_bits: u32,
        now: Duration,
    ) -> ZoomIndicator {
        let (shown_at, enter_bits) = if self.zoom_indicators@.contains_key(output)
            && !self.zoom_indicators@[output].is_over(now) {
            if now.nanos >= self.zoom_indicators@[output].expires_at.nanos {
                (now, mix_bits)
            } else {
                (
                    self.zoom_indicators@[output].shown_at,
                    self.zoom_indicators@[output].enter_bits,
                )
            }
        } else {
            (now, ONE_BITS)
        };
        ZoomIndicator {
            scale_bits,
            shown_at,
            enter_bits,
            expires_at: Duration {
                nanos: (now.nanos + millis(config.hold_duration_ms as int)) as u128,
            },
            fade: Duration { nanos: millis(config.fade_duration_ms as int) as u128 },
            expiry_notified: false,
        }
    }

    /// Shows the scale of an output. Where indicators are off the one that is shown goes.
    pub fn show_zoom_indicator(
        &mut self,
        output: &str,
        scale_bits: u32,
        config: ZoomIndicatorConfig,
        mix_bits: u32,
        now: Duration,
    ) -> (changed: bool)
        requires
            now.nanos + millis(config.hold_duration_ms as int) <= MAX_NANOS,
        ensures
            changed == (config.enabled || old(self).zoom_indicators@.contains_key(output@)),
            final(self).zoom_indicators@ == (if config.enabled {
                old(self).zoom_indicators@.insert(
                    output@,
                    old(self).indicator(output@, scale_bits, config, mix_bits, now),
                )
            } else {
                old(self).zoom_indicators@.remove(output@)
            }),
            final(self).exit == old(self).exit,
            final(self).notification == old(self).notification,
    {
        if !config.enabled {
            let removed = self.zoom_indicators.remove(output);
            return removed.is_some();
        }
        let (shown_at, enter_bits): (Duration, u32) = match self.zoom_indicators.get(output) {
            Some(indicator) => if indicator.finished(now) {
                (now, ONE_BITS)
            } else if now.nanos >= indicator.expires_at.nanos {
                (now, mix_bits)
            } else {
                (indicator.shown_at, indicator.enter_bits)
            },
            None => (now, ONE_BITS),
        };
        let expires_at = now.plus(Duration::from_millis(config.hold_duration_ms));
        let fade = Duration::from_millis(config.fade_duration_ms);
        self.zoom_indicators.insert(
            output.to_owned(),
            ZoomIndicator {
                scale_bits,
                shown_at,
                enter_bits,
                expires_at,
                fade,
                expiry_notified: false,
            },
        );
        true
    }

    /// Drops every indicator where they are switched off.
    pub fn reload_zoom_indicator(&mut self, config: ZoomIndicatorConfig) -> (changed: bool)
        ensures
            changed == (!config.enabled && old(self).zoom_indicators@.len() > 0),
            final(self).zoom_indicators@ == (if changed {
                Map::empty()
            } else {
                old(self).zoom_indicators@
            }),
            final(self).exit == old(self).exit,
            final(self).notification == old(self).notification,
    {
        if config.enabled || self.zoom_indicators.len() == 0 {
            return false;
        }
        self.zoom_indicators = TextMap::new();
        true
    }

    pub fn remove_output(&mut self, output: &str)
        ensures
            final(self).zoom_indicators@ == old(self).zoom_indicators@.remove(output@),
            final(self).exit == old(self).exit,
            final(self).notification == old(self).notification,
    {
        self.zoom_indicators.remove(output);
    }

    /// What is drawn on an output. The question whether to leave is drawn on all, as soon
    /// as there is something of it to be seen: `exit_bits` are those of how much is seen.
    pub fn snapshot(&self, output: &str, exit_bits: u32, now: Duration) -> (snapshot:
        OverlaySnapshot)
        ensures
            match snapshot.exit {
                Some(fade) => self.exit is Some && is_seen(exit_bits) && self.exit->0.is_fade(
                    now,
                    fade,
                ),
                None => self.exit is None || !is_seen(exit_bits),
            },
            match snapshot.notification {
                Some(shown) => self.notification is Some && self.notification->0.output@ == output@
                    && !self.notification->0.is_over(now) && shown.message@
                    == self.notification->0.message@ && shown.kind == self.notification->0.kind
                    && self.notification->0.is_fade(now, shown.fade),
                None => self.notification is None || self.notification->0.output@ != output@
                    || self.notification->0.is_over(now),
            },
            match snapshot.zoom_indicator {
                Some(shown) => self.zoom_indicators@.contains_key(output@)
                    && !self.zoom_indicators@[output@].is_over(now) && shown.scale_bits
                    == self.zoom_indicators@[output@].scale_bits
                    && self.zoom_indicators@[output@].is_fade(now, shown.fade),
                None => !self.zoom_indicators@.contains_key(output@)
                    || self.zoom_indicators@[output@].is_over(now),
            },
    {
        let exit = match self.exit {
            Some(exit) => if seen(exit_bits) {
                Some(exit.fade(now))
            } else {
                None
            },
            None => None,
        };
        let notification = match &self.notification {
            Some(notification) => if same_text(notification.output.as_str(), output)
                && !notification.finished(now) {
                Some(
                    NotificationSnapshot {
                        message: notification.message.clone(),
                        kind: notification.kind,
                        fade: notification.fade(now),
                    },
                )
            } else {
                None
            },
            None => None,
        };
        let zoom_indicator = match self.zoom_indicators.get(output) {
            Some(indicator) => if indicator.finished(now) {
                None
            } else {
                Some(
                    ZoomIndicatorSnapshot {
                        scale_bits: indicator.scale_bits,
                        fade: indicator.fade_at(now),
                    },
                )
            },
            None => None,
        };
        OverlaySnapshot { exit, notification, zoom_indicator }
    }

    /// Some indicator moves.
    pub open spec fn any_indicator_moves(self, now: Duration) -> bool {
        exists|output: Seq<char>| #[trigger]
            self.zoom_indicators@.contains_key(output) && self.zoom_indicators@[output].moves(now)
    }

    /// Whether the next frame will differ.
    pub fn animating(&self, now: Duration) -> (r: bool)
        ensures
            r == ((self.exit is Some && self.exit->0.moves(now)) || (self.notification is Some
                && self.notification->0.moves(now)) || self.any_indicator_moves(now)),
    {
        let exit = match self.exit {
            Some(exit) => exit.animating(now),
            None => false,
        };
        let notification = match &self.notification {
            Some(notification) => notification.animating(now),
            None => false,
        };
        let names = self.zoom_indicators.names();
        let mut moving = false;
        let mut index: usize = 0;
        while index < names.len()
            invariant
                index <= names@.len(),
                forall|i: int|
                    0 <= i < names@.len() ==> self.zoom_indicators@.contains_key(
                        #[trigger] names@[i]@,
                    ),
                moving ==> self.any_indicator_moves(now),
                !moving ==> forall|i: int|
                    0 <= i < index ==> !self.zoom_indicators@[#[trigger] names@[i]@].moves(now),
            decreases names@.len() - index,
        {
            if let Some(indicator) = self.zoom_indicators.get(names[index].as_str()) {
                if indicator.animating(now) {
                    assert(self.zoom_indicators@.contains_key(names@[index as int]@));
                    moving = true;
                }
            }
            index += 1;
        }
        proof {
            if !moving && self.any_indicator_moves(now) {
                let output = choose|output: Seq<char>| #[trigger]
                    self.zoom_indicators@.contains_key(output)
                        && self.zoom_indicators@[output].moves(now);
                let i = choose|i: int| 0 <= i < names@.len() && #[trigger] names@[i]@ == output;
                assert(!self.zoom_indicators@[names@[i]@].moves(now));
            }
        }
        exit || notification || moving
    }

    /// The message after a look at the clock.
    pub open spec fn woken_notification(self, now: Duration) -> Option<Notification> {
        match self.notification {
            Some(notification) => if notification.is_over(now) {
                None
            } else if notification.dismissed is None && now.nanos
                >= notification.expires_at.nanos {
                Some(Notification { expiry_notified: true, ..notification })
            } else {
                Some(notification)
            },
            None => None,
        }
    }

    /// An indicator after a look at the clock.
    pub open spec fn woken_indicator(indicator: ZoomIndicator, now: Duration) -> ZoomIndicator {
        if now.nanos >= indicator.expires_at.nanos {
            ZoomIndicator { expiry_notified: true, ..indicator }
        } else {
            indicator
        }
    }

    /// An indicator has just run out, or is over.
    pub open spec fn indicator_wakes(indicator: ZoomIndicator, now: Duration) -> bool {
        (now.nanos >= indicator.expires_at.nanos && !indicator.expiry_notified)
            || indicator.is_over(now)
    }

    /// Something has just run out, or is over.
    pub open spec fn wakes(self, now: Duration) -> bool {
        ||| self.notification is Some && self.notification->0.dismissed is None && now.nanos
            >= self.notification->0.expires_at.nanos && !self.notification->0.expiry_notified
        ||| self.notification is Some && self.notification->0.is_over(now)
        ||| self.exit is Some && self.exit->0.is_over(now)
        ||| exists|output: Seq<char>| #[trigger]
            self.zoom_indicators@.contains_key(output) && Self::indicator_wakes(
                self.zoom_indicators@[output],
                now,
            )
    }

    /// Looks at the clock: `true` where a frame is due, to begin a fade or to erase what
    /// is over.
    pub fn wakeup(&mut self, now: Duration) -> (redraw: bool)
        ensures
            redraw == old(self).wakes(now),
            final(self).notification == old(self).woken_notification(now),
            final(self).exit == (if old(self).exit is Some && old(self).exit->0.is_over(now) {
                None
            } else {
                old(self).exit
            }),
            forall|output: Seq<char>| #[trigger]
                final(self).zoom_indicators@.contains_key(output) == (old(
                    self,
                ).zoom_indicators@.contains_key(output) && !old(
                    self,
                ).zoom_indicators@[output].is_over(now)),
            forall|output: Seq<char>| #[trigger]
                final(self).zoom_indicators@.contains_key(output)
                    ==> final(self).zoom_indicators@[output] == Self::woken_indicator(
                    old(self).zoom_indicators@[output],
                    now,
                ),
    {
        let ghost start = *self;
        let mut redraw = false;
        let (expires, over) = match &self.notification {
            Some(notification) => (
                notification.dismissed.is_none() && now.nanos >= notification.expires_at.nanos,
                notification.finished(now),
            ),
            None => (false, false),
        };
        if over {
            self.notification = None;
            redraw = true;
        } else if expires {
            if let Some(mut notification) = self.notification.take() {
                if !notification.expiry_notified {
                    redraw = true;
                }
                notification.expiry_notified = true;
                self.notification = Some(notification);
            }
        }
        let exit_over = match self.exit {
            Some(exit) => exit.finished(now),
            None => false,
        };
        if exit_over {
            self.exit = None;
            redraw = true;
        }
        let names = self.zoom_indicators.names();
        let ghost before = self.zoom_indicators@;
        let ghost drawn = redraw;
        let mut index: usize = 0;
        while index < names.len()
            invariant
                index <= names@.len(),
                before == start.zoom_indicators@,
                self.exit == (if start.exit is Some && start.exit->0.is_over(now) {
                    None
                } else {
                    start.exit
                }),
                self.notification == start.woken_notification(now),
                forall|i: int| 0 <= i < names@.len() ==> before.contains_key(#[trigger] names@[i]@),
                forall|output: Seq<char>| #[trigger]
                    self.zoom_indicators@.contains_key(output) == (before.contains_key(output)
                        && !(is_named(names@, index as int, output) && before[output].is_over(now))),
                forall|output: Seq<char>| #[trigger]
                    self.zoom_indicators@.contains_key(output) ==> self.zoom_indicators@[output]
                        == (if is_named(names@, index as int, output) {
                        Self::woken_indicator(before[output], now)
                    } else {
                        before[output]
                    }),
                redraw == (drawn || exists|output: Seq<char>| #[trigger]
                    before.contains_key(output) && is_named(names@, index as int, output)
                        && Self::indicator_wakes(before[output], now)),
            decreases names@.len() - index,
        {
            let ghost key = names@[index as int]@;
            let ghost earlier = self.zoom_indicators@;
            let ghost was = redraw;
            let found = self.zoom_indicators.get(names[index].as_str());
            let current: Option<ZoomIndicator> = match found {
                Some(indicator) => Some(*indicator),
                None => None,
            };
            if let Some(indicator) = current {
                let expired = now.nanos >= indicator.expires_at.nanos;
                let over = indicator.finished(now);
                if (expired && !indicator.expiry_notified) || over {
                    redraw = true;
                }
                if over {
                    self.zoom_indicators.remove(names[index].as_str());
                } else if expired {
                    let mut woken = indicator;
                    woken.expiry_notified = true;
                    self.zoom_indicators.insert(names[index].clone(), woken);
                }
            }
            proof {
                assert(before.contains_key(key));
                assert forall|output: Seq<char>| #[trigger]
                    is_named(names@, index as int + 1, output) == (is_named(
                    names@,
                    index as int,
                    output,
                ) || output == key) by {
                    if output == key {
                        assert(names@[index as int]@ == output);
                    }
                    if is_named(names@, index as int, output) {
                        let i = choose|i: int|
                            0 <= i < index as int && #[trigger] names@[i]@ == output;
                        assert(names@[i]@ == output);
                    }
                }
            }
            index += 1;
        }
        proof {
            assert forall|output: Seq<char>| before.contains_key(
                output,
            ) implies #[trigger] is_named(names@, names@.len() as int, output) by {
                let i = choose|i: int| 0 <= i < names@.len() && #[trigger] names@[i]@ == output;
                assert(names@[i]@ == output);
            }
        }
        redraw
    }
}

/// The question whether to leave is modal exactly while it is open: asking again
/// changes nothing, and a question that was taken back can be asked anew.
pub proof fn exit_is_asked_once(exit: ExitConfirmation, now: Duration)
    ensures
        exit.closing is None ==> !exit.is_over(now),
        exit.is_over(now) ==> !exit.moves(now),
{
}

/// What is over no longer moves, whatever it is.
pub proof fn what_is_over_rests(notification: Notification, indicator: ZoomIndicator, now: Duration)
    ensures
        notification.is_over(now) ==> !notification.moves(now),
        indicator.is_over(now) ==> !indicator.moves(now),
{
}

/// A message moves exactly while it has not come to the end of its fade, and is over exactly
/// where it has fallen to the end. It comes and goes in a hundred and eighty milliseconds.
pub proof fn messages_move_while_they_fade(notification: Notification, now: Duration, fade: Fade)
    requires
        notification.is_fade(now, fade),
    ensures
        match fade {
            Fade::Rising { from_bits, elapsed, over } => {
                &&& over.nanos == 180_000_000
                &&& from_bits == notification.enter_bits
                &&& notification.dismissed is None
                &&& now.nanos < notification.expires_at.nanos
                &&& now.nanos >= notification.shown_at.nanos ==> notification.shown_at.nanos
                    + elapsed.nanos == now.nanos
                &&& now.nanos < notification.shown_at.nanos ==> elapsed.nanos == 0
                &&& !notification.is_over(now)
                &&& notification.moves(now) <==> elapsed.nanos < over.nanos
            },
            Fade::Falling { from_bits, elapsed, over } => {
                &&& over.nanos == 180_000_000
                &&& notification.dismissed is None ==> from_bits == 0x3f80_0000
                    && notification.expires_at.nanos + elapsed.nanos == now.nanos
                &&& notification.dismissed is Some ==> from_bits == (notification.dismissed->0).1
                    && (now.nanos >= (notification.dismissed->0).0.nanos ==> (
                notification.dismissed->0).0.nanos + elapsed.nanos == now.nanos)
                &&& notification.is_over(now) <==> elapsed.nanos >= over.nanos
                &&& notification.moves(now) <==> elapsed.nanos < over.nanos
            },
        },
{
}

/// The question whether to leave rises from nothing and stays until it is answered, falls from
/// what was seen of it then, and moves while it does either.
pub proof fn the_question_moves_while_it_fades(exit: ExitConfirmation, now: Duration, fade: Fade)
    requires
        exit.is_fade(now, fade),
    ensures
        match fade {
            Fade::Rising { from_bits, elapsed, over } => {
                &&& over.nanos == 180_000_000
                &&& from_bits == 0
                &&& exit.closing is None
                &&& now.nanos >= exit.opened_at.nanos ==> exit.opened_at.nanos + elapsed.nanos
                    == now.nanos
                &&& !exit.is_over(now)
                &&& exit.moves(now) <==> elapsed.nanos < over.nanos
            },
            Fade::Falling { from_bits, elapsed, over } => {
                &&& over.nanos == 180_000_000
                &&& exit.closing is Some
                &&& from_bits == (exit.closing->0).1
                &&& now.nanos >= (exit.closing->0).0.nanos ==> (exit.closing->0).0.nanos
                    + elapsed.nanos == now.nanos
                &&& exit.is_over(now) <==> elapsed.nanos >= over.nanos
                &&& exit.moves(now) <==> elapsed.nanos < over.nanos
            },
        },
{
}

/// An indicator rises until it runs out and falls from then on, both in the time of its fade.
/// It moves while it falls, and while it rises from less than a thousandth short of the whole.
pub proof fn indicators_move_while_they_fade(indicator: ZoomIndicator, now: Duration, fade: Fade)
    requires
        indicator.is_fade(now, fade),
    ensures
        match fade {
            Fade::Rising { from_bits, elapsed, over } => {
                &&& over == indicator.fade
                &&& from_bits == indicator.enter_bits
                &&& now.nanos < indicator.expires_at.nanos
                &&& now.nanos >= indicator.shown_at.nanos ==> indicator.shown_at.nanos
                    + elapsed.nanos == now.nanos
                &&& !indicator.is_over(now)
                &&& from_bits < 0x3f7f_be77 && now.nanos >= indicator.shown_at.nanos ==> (
                indicator.moves(now) <==> elapsed.nanos < over.nanos)
                &&& 0x3f7f_be77 <= from_bits <= 0x7f80_0000 ==> !indicator.moves(now)
            },
            Fade::Falling { from_bits, elapsed, over } => {
                &&& over == indicator.fade
                &&& from_bits == 0x3f80_0000
                &&& indicator.expires_at.nanos + elapsed.nanos == now.nanos
                &&& indicator.is_over(now) <==> elapsed.nanos >= over.nanos
                &&& indicator.moves(now) <==> elapsed.nanos < over.nanos
            },
        },
{
}

/// What is over stays over.
pub proof fn what_is_over_stays_over(
    notification: Notification,
    exit: ExitConfirmation,
    indicator: ZoomIndicator,
    now: Duration,
    later: Duration,
)
    requires
        now.nanos <= later.nanos,
    ensures
        notification.is_over(now) ==> notification.is_over(later),
        exit.is_over(now) ==> exit.is_over(later),
        indicator.is_over(now) ==> indicator.is_over(later),
{
}

/// A message that is shown is seen for the milliseconds that it is for, one at least, then
/// falls for a hundred and eighty more, and is over; and it says what it was told to say.
pub proof fn messages_last_as_long_as_they_are_for(
    manager: OverlayManager,
    output: Seq<char>,
    message: Seq<char>,
    kind: NotificationKind,
    duration_ms: u64,
    enter_bits: u32,
    shown_at: Duration,
    now: Duration,
    fade: Fade,
)
    requires
        manager.notifies(output, message, kind, duration_ms, enter_bits, shown_at),
        manager.notification->0.is_fade(now, fade),
        now.nanos >= shown_at.nanos,
    ensures
        ({
            let shown = manager.notification->0;
            let length = if duration_ms == 0 {
                1_000_000int
            } else {
                duration_ms * 1_000_000
            };
            &&& shown.output@ == output
            &&& shown.message@ == message
            &&& shown.kind == kind
            &&& fade is Rising <==> now.nanos < shown_at.nanos + length
            &&& fade is Rising ==> fade->Rising_from_bits == enter_bits
            &&& shown.is_over(now) <==> now.nanos >= shown_at.nanos + length + 180_000_000
            &&& now.nanos == shown_at.nanos ==> shown.moves(now)
        }),
{
}

/// A new message rises from what is seen of the one that it replaces, and from nothing where
/// none is seen.
pub proof fn messages_rise_from_what_is_seen(manager: OverlayManager, mix_bits: u32, now: Duration)
    ensures
        manager.notification is None ==> manager.entry_bits(mix_bits, now) == 0,
        manager.notification is Some && manager.notification->0.is_over(now)
            ==> manager.entry_bits(mix_bits, now) == 0,
        manager.notification is Some && !manager.notification->0.is_over(now)
            ==> manager.entry_bits(mix_bits, now) == mix_bits,
{
}

/// More than a thousandth is seen, and so is the whole; nothing, less than nothing and what is
/// no number are not.
pub proof fn more_than_a_thousandth_is_seen(bits: u32)
    ensures
        bits <= 0x3a83_126f ==> !is_seen(bits),
        0x3a83_126f < bits <= 0x7f80_0000 ==> is_seen(bits),
        0x7f80_0000 < bits ==> !is_seen(bits),
{
}

/// An indicator holds from the last change of the scale on. One that is shown goes on as it
/// came, one that falls rises from what is seen of it, and a new one is there at once.
pub proof fn indicators_hold_from_the_last_change(
    manager: OverlayManager,
    output: Seq<char>,
    scale_bits: u32,
    config: ZoomIndicatorConfig,
    mix_bits: u32,
    now: Duration,
)
    requires
        now.nanos + millis(config.hold_duration_ms as int) <= MAX_NANOS,
    ensures
        ({
            let indicator = manager.indicator(output, scale_bits, config, mix_bits, now);
            let before = manager.zoom_indicators@[output];
            let known = manager.zoom_indicators@.contains_key(output);
            &&& indicator.scale_bits == scale_bits
            &&& indicator.expires_at.nanos == now.nanos + config.hold_duration_ms * 1_000_000
            &&& indicator.fade.nanos == config.fade_duration_ms * 1_000_000
            &&& !indicator.expiry_notified
            &&& known && now.nanos < before.expires_at.nanos ==> indicator.shown_at
                == before.shown_at && indicator.enter_bits == before.enter_bits
            &&& known && before.expires_at.nanos <= now.nanos < before.expires_at.nanos
                + before.fade.nanos ==> indicator.shown_at == now && indicator.enter_bits
                == mix_bits
            &&& !known || now.nanos >= before.expires_at.nanos + before.fade.nanos
                ==> indicator.shown_at == now && indicator.enter_bits == 0x3f80_0000
        }),
{
}

/// A look at the clock takes away the message that is over and no other, and changes nothing
/// of one that stays but that its end was seen.
pub proof fn looks_at_the_clock_keep_messages(manager: OverlayManager, now: Duration)
    requires
        manager.notification is Some,
    ensures
        ({
            let before = manager.notification->0;
            let after = manager.woken_notification(now);
            &&& after is None <==> before.is_over(now)
            &&& after is Some ==> {
                &&& after->0.output == before.output
                &&& after->0.message == before.message
                &&& after->0.kind == before.kind
                &&& after->0.shown_at == before.shown_at
                &&& after->0.enter_bits == before.enter_bits
                &&& after->0.expires_at == before.expires_at
                &&& after->0.dismissed == before.dismissed
                &&& after->0.expiry_notified <==> before.expiry_notified || (before.dismissed
                    is None && now.nanos >= before.expires_at.nanos)
            }
        }),
{
}

/// A look at the clock finds something to draw exactly where a message or an indicator has run
/// out since the last look, or something is over.
pub proof fn frames_are_due_when_something_ends(
    manager: OverlayManager,
    output: Seq<char>,
    now: Duration,
)
    ensures
        manager.notification is Some && manager.notification->0.is_over(now) ==> manager.wakes(now),
        manager.exit is Some && manager.exit->0.is_over(now) ==> manager.wakes(now),
        manager.notification is Some && manager.notification->0.dismissed is None
            && !manager.notification->0.expiry_notified && now.nanos
            >= manager.notification->0.expires_at.nanos ==> manager.wakes(now),
        manager.zoom_indicators@.contains_key(output) && manager.zoom_indicators@[output].is_over(
            now,
        ) ==> manager.wakes(now),
        manager.zoom_indicators@.contains_key(output)
            && !manager.zoom_indicators@[output].expiry_notified && now.nanos
            >= manager.zoom_indicators@[output].expires_at.nanos ==> manager.wakes(now),
{
}

/// A look at the clock is followed by none that finds something at the same time: what it has
/// told of it does not tell of again.
pub proof fn frames_are_due_once(before: OverlayManager, after: OverlayManager, now: Duration)
    requires
        after.notification == before.woken_notification(now),
        after.exit == (if before.exit is Some && before.exit->0.is_over(now) {
            None
        } else {
            before.exit
        }),
        forall|output: Seq<char>| #[trigger]
            after.zoom_indicators@.contains_key(output) == (before.zoom_indicators@.contains_key(
                output,
            ) && !before.zoom_indicators@[output].is_over(now)),
        forall|output: Seq<char>| #[trigger]
            after.zoom_indicators@.contains_key(output) ==> after.zoom_indicators@[output]
                == OverlayManager::woken_indicator(before.zoom_indicators@[output], now),
    ensures
        !after.wakes(now),
{
}

/// An indicator that a look at the clock finds at its end is marked so, and nothing else of it
/// changes.
pub proof fn looks_at_the_clock_keep_indicators(indicator: ZoomIndicator, now: Duration)
    ensures
        ({
            let after = OverlayManager::woken_indicator(indicator, now);
            &&& after.scale_bits == indicator.scale_bits
            &&& after.shown_at == indicator.shown_at
            &&& after.enter_bits == indicator.enter_bits
            &&& after.expires_at == indicator.expires_at
            &&& after.fade == indicator.fade
            &&& after.expiry_notified <==> indicator.expiry_notified || now.nanos
                >= indicator.expires_at.nanos
        }),
{
}

/// The question is modal from when it is asked until it is taken back.
pub proof fn the_question_is_modal_until_answered(manager: OverlayManager)
    ensures
        manager.exit is None ==> !manager.asks_exit(),
        manager.exit is Some && manager.exit->0.closing is Some ==> !manager.asks_exit(),
        manager.exit is Some && manager.exit->0.closing is None ==> manager.asks_exit(),
{
}

/// What goes wrong is told on its output for three seconds.
pub proof fn faults_are_told_for_three_seconds(
    message: ErrorMessage,
    output: Seq<char>,
    text: Seq<char>,
)
    requires
        message.tells(output, text),
    ensures
        message.output@ == output,
        message.text@ == text,
        message.duration_ms == 3 * 1_000,
{
}

} // verus!
