//! One session: the configuration, the countdown, the clipboard queue and
//! the password on display, and what each event of the host does to them.

use crate::charset::CharClass;
use crate::clipboard::{after_foregrounded, after_submit, text_of, ClipboardDeliveryQueue};
use crate::config::{
    Field, SessionConfig, StoredConfig, ToggleOutcome, MAX_GROUPS, MIN_GROUPS,
};
use crate::generator::{generate_password, is_generated, Strategy};
use crate::grouping::effective_groups;
use crate::timer::{AutoCloseTimer, TickOutcome, TimerState};
use vstd::prelude::*;

verus! {

/// The state of a session.
#[derive(Debug)]
pub struct Session {
    pub config: SessionConfig,
    pub timer: AutoCloseTimer,
    pub clipboard: ClipboardDeliveryQueue,
    pub password: String,
}

/// The state of a session as plain values.
pub struct SessionView {
    pub config: SessionConfig,
    pub timer: AutoCloseTimer,
    pub pending: Option<Seq<char>>,
    pub password: Seq<char>,
}

impl View for Session {
    type V = SessionView;

    open spec fn view(&self) -> SessionView {
        SessionView {
            config: self.config,
            timer: self.timer,
            pending: self.clipboard@,
            password: self.password@,
        }
    }
}

impl SessionView {
    /// The invariant of a session: the configuration keeps its own, and
    /// the countdown is switched on exactly when the configuration says so.
    pub open spec fn wf(self) -> bool {
        &&& self.config.wf()
        &&& self.timer.wf()
        &&& self.timer.armed == self.config.auto_close
    }

    /// The session a loaded configuration starts: no countdown under way,
    /// nothing pending, nothing on display.
    pub open spec fn started(config: SessionConfig) -> SessionView {
        SessionView {
            config,
            timer: AutoCloseTimer { armed: config.auto_close, state: TimerState::Idle },
            pending: None,
            password: Seq::empty(),
        }
    }

    /// The text a copy-immediately step writes to the clipboard now: the
    /// text itself when the feature is on and the surface in the
    /// foreground.
    pub open spec fn copied_now(self, text: Seq<char>, foregrounded: bool) -> Option<Seq<char>> {
        if self.config.copy_immediately {
            after_submit(self.pending, text, foregrounded).delivered
        } else {
            None
        }
    }

    /// The payload left pending by a copy-immediately step: the text when
    /// the feature is on and the surface in the background, else none.
    pub open spec fn pending_after(self, text: Seq<char>, foregrounded: bool) -> Option<Seq<char>> {
        if self.config.copy_immediately {
            after_submit(self.pending, text, foregrounded).pending
        } else {
            None
        }
    }

    /// The session after `text` came out of the generator. The empty text
    /// stands for an invalid request: it goes on display and nothing else
    /// happens. Any other text goes on display, is copied or queued when
    /// copy-immediately is on, and restarts the countdown.
    pub open spec fn after_password(self, text: Seq<char>, foregrounded: bool) -> SessionView {
        if text.len() == 0 {
            SessionView { password: text, ..self }
        } else {
            SessionView {
                config: self.config,
                timer: self.timer.restarted(),
                pending: self.pending_after(text, foregrounded),
                password: text,
            }
        }
    }

    /// The text to write to the clipboard after `text` came out of the
    /// generator.
    pub open spec fn copied_after_password(self, text: Seq<char>, foregrounded: bool) -> Option<
        Seq<char>,
    > {
        if text.len() == 0 {
            None
        } else {
            self.copied_now(text, foregrounded)
        }
    }

    /// The session after auto-close is switched on or off.
    pub open spec fn after_auto_close(self, on: bool) -> SessionView {
        SessionView {
            config: self.config.with_field(Field::AutoClose(on)),
            timer: self.timer.armed_as(on),
            ..self
        }
    }

    /// The session after copy-immediately is switched on or off: switched
    /// on, the password on display is copied or queued; switched off, the
    /// queue is emptied.
    pub open spec fn after_copy_immediately(self, on: bool, foregrounded: bool) -> SessionView {
        let switched = SessionView {
            config: self.config.with_field(Field::CopyImmediately(on)),
            ..self
        };
        SessionView { pending: switched.pending_after(self.password, foregrounded), ..switched }
    }

    /// The session after an attempt to switch a class on or off.
    pub open spec fn after_toggle(self, class: CharClass, requested: bool) -> SessionView {
        SessionView { config: self.config.toggled(class, requested), ..self }
    }
}

impl Session {
    /// Starts a session from what storage held; `None` stands for a missing
    /// or unreadable record. The flag returned says whether the
    /// configuration has to be saved at once.
    pub fn start(stored: Option<StoredConfig>) -> (out: (Session, bool))
        ensures
            out.0@ == SessionView::started(SessionConfig::loaded(stored).config),
            out.1 == SessionConfig::loaded(stored).dirty,
            out.0@.wf(),
    {
        let loaded = SessionConfig::load(stored);
        let session = Session {
            config: loaded.config,
            timer: AutoCloseTimer::new(loaded.config.auto_close),
            clipboard: ClipboardDeliveryQueue::new(),
            password: String::new(),
        };
        (session, loaded.dirty)
    }

    /// Takes in what the generator returned. Returns the text to write to
    /// the clipboard now, if any.
    pub fn accept_password(&mut self, text: String, foregrounded: bool) -> (copied: Option<String>)
        ensures
            final(self)@ == old(self)@.after_password(text@, foregrounded),
            text_of(copied) == old(self)@.copied_after_password(text@, foregrounded),
            old(self)@.wf() ==> final(self)@.wf(),
    {
        self.password = text.clone();
        if text.as_str().is_empty() {
            return None;
        }
        self.timer.password_generated();
        if self.config.copy_immediately {
            self.clipboard.submit(text, foregrounded)
        } else {
            self.clipboard.clear();
            None
        }
    }

    /// Generates a password of `groups` groups from the enabled classes and
    /// takes it in. Returns the text to write to the clipboard now, if any;
    /// the new password is on display.
    pub fn generate(&mut self, strategy: Strategy, groups: i32, foregrounded: bool) -> (copied:
        Option<String>)
        ensures
            is_generated(
                final(self)@.password,
                strategy,
                groups as int,
                old(self).config.options_spec(),
            ),
            final(self)@ == old(self)@.after_password(final(self)@.password, foregrounded),
            text_of(copied) == old(self)@.copied_after_password(
                final(self)@.password,
                foregrounded,
            ),
            old(self).config.has_charset() ==> final(self)@.password.len() == 6 * effective_groups(
                groups as int,
            ) - 1,
            old(self)@.wf() ==> final(self)@.wf(),
    {
        let options = self.config.options();
        let text = generate_password(strategy, groups, &options);
        self.accept_password(text, foregrounded)
    }

    /// The user asked for the password on display to be copied: the text
    /// to write to the clipboard.
    pub fn copy_requested(&self) -> (copied: String)
        ensures
            copied@ == self@.password,
    {
        self.password.clone()
    }

    /// The user chose a group count in the control, which offers 1 to 10.
    /// The count is taken as it comes. The configuration has to be saved.
    pub fn set_groups(&mut self, groups: i32)
        ensures
            final(self)@ == (SessionView {
                config: old(self).config.with_field(Field::Groups(groups)),
                ..old(self)@
            }),
            old(self)@.wf() && MIN_GROUPS <= groups <= MAX_GROUPS ==> final(self)@.wf(),
    {
        self.config.set_field(Field::Groups(groups));
    }

    /// The user tried to switch a class on or off. On `Accepted` the
    /// configuration has to be saved; on `Vetoed` the control has to show
    /// the class as enabled again.
    pub fn toggle_charset(&mut self, class: CharClass, requested: bool) -> (outcome: ToggleOutcome)
        ensures
            outcome == old(self).config.toggle_outcome(class, requested),
            final(self)@ == old(self)@.after_toggle(class, requested),
            old(self)@.wf() ==> final(self)@.wf(),
    {
        self.config.toggle_charset(class, requested)
    }

    /// The user switched auto-close on or off. The configuration has to be
    /// saved; switched off, the display of the remaining time is cleared.
    pub fn set_auto_close(&mut self, on: bool)
        ensures
            final(self)@ == old(self)@.after_auto_close(on),
            !on ==> final(self).timer.display() is None,
            old(self)@.wf() ==> final(self)@.wf(),
    {
        self.config.set_field(Field::AutoClose(on));
        self.timer.set_armed(on);
    }

    /// The user switched copy-immediately on or off. The configuration has
    /// to be saved. Returns the text to write to the clipboard now, if any.
    pub fn set_copy_immediately(&mut self, on: bool, foregrounded: bool) -> (copied: Option<String>)
        ensures
            final(self)@ == old(self)@.after_copy_immediately(on, foregrounded),
            text_of(copied) == if on && foregrounded {
                Some(old(self)@.password)
            } else {
                None
            },
            old(self)@.wf() ==> final(self)@.wf(),
    {
        self.config.set_field(Field::CopyImmediately(on));
        if on {
            let text = self.password.clone();
            self.clipboard.submit(text, foregrounded)
        } else {
            self.clipboard.clear();
            None
        }
    }

    /// The pointer was pressed somewhere on the surface. Returns whether
    /// the countdown was cancelled, in which case the display of the
    /// remaining time is cleared.
    pub fn pointer_pressed(&mut self) -> (cancelled: bool)
        ensures
            cancelled == old(self).timer.cancels(),
            final(self)@ == (SessionView { timer: old(self).timer.pressed(), ..old(self)@ }),
            old(self)@.wf() ==> final(self)@.wf(),
    {
        self.timer.pointer_pressed()
    }

    /// One second passed; `visible` says whether the surface is still
    /// there to be seen.
    pub fn tick(&mut self, visible: bool) -> (outcome: TickOutcome)
        ensures
            outcome == old(self).timer.tick_outcome(visible),
            final(self)@ == (SessionView { timer: old(self).timer.ticked(visible), ..old(self)@ }),
            old(self)@.wf() ==> final(self)@.wf(),
    {
        self.timer.tick(visible)
    }

    /// The surface came to the foreground. Returns the text to write to
    /// the clipboard now, if one was pending.
    pub fn foregrounded(&mut self) -> (copied: Option<String>)
        ensures
            final(self)@ == (SessionView {
                pending: after_foregrounded(old(self)@.pending).pending,
                ..old(self)@
            }),
            text_of(copied) == after_foregrounded(old(self)@.pending).delivered,
            old(self)@.wf() ==> final(self)@.wf(),
    {
        self.clipboard.on_foregrounded()
    }
}

} // verus!
