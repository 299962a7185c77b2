//! The supervision of the hidden helper: when its webview is reloaded and when the program is
//! started anew.

use vstd::prelude::*;

verus! {

/// A webview that has published nothing for this many seconds is taken for dead.
pub const PUBLISHER_STALL_SECONDS: u64 = 45;

/// The seconds between two reloads of the webview.
pub const RELOAD_BACKOFF_SECONDS: u64 = 120;

/// The seconds between two looks at the helper.
pub const WATCHDOG_SECONDS: u64 = 10;

/// The exit status that asks the service manager to start the program anew.
pub const EXIT_FOR_UPDATE: i32 = 75;

/// The clock's units in a second.
pub const NANOS_PER_SECOND: u64 = 1_000_000_000;

/// What the watchdog sees. Times are whole seconds, rounded down.
#[derive(Clone, Copy, Debug, PartialEq, Eq, Structural)]
pub struct Observation {
    /// The manual lock latch is set.
    pub latched: bool,
    /// Whether the main window can be seen, if there is a main window.
    pub visible: Option<bool>,
    /// An update has replaced the program's binary.
    pub binary_replaced: bool,
    /// The time since the last publication.
    pub publication_age: u64,
    /// The time since the webview was last reloaded, if it was.
    pub reload_age: Option<u64>,
}

/// What the watchdog does.
#[derive(Clone, Copy, Debug, PartialEq, Eq, Structural)]
pub enum WatchdogAction {
    Wait,
    /// End the program so that it is started from the new binary.
    Restart,
    /// Reload the webview.
    Reload,
}

impl Observation {
    /// Nobody would notice a restart: there is a main window, it is hidden, and the latch, which a
    /// restart would release, is not set.
    pub open spec fn may_restart(self) -> bool {
        !self.latched && self.visible == Some(false)
    }

    /// The webview has published nothing for long enough.
    pub open spec fn stalled(self) -> bool {
        self.publication_age >= PUBLISHER_STALL_SECONDS
    }

    /// The last reload, if there was one, is long enough ago.
    pub open spec fn backoff_over(self) -> bool {
        self.reload_age matches Some(age) ==> age >= RELOAD_BACKOFF_SECONDS
    }

    /// What the watchdog does.
    pub open spec fn response(self) -> WatchdogAction {
        if self.latched || self.visible is None {
            WatchdogAction::Wait
        } else if self.binary_replaced && self.may_restart() {
            WatchdogAction::Restart
        } else if self.stalled() && self.backoff_over() {
            WatchdogAction::Reload
        } else {
            WatchdogAction::Wait
        }
    }

    /// Decides what the watchdog does.
    pub fn decide(&self) -> (action: WatchdogAction)
        ensures
            action == self.response(),
    {
        if self.latched {
            return WatchdogAction::Wait;
        }
        let visible = match self.visible {
            Some(visible) => visible,
            None => {
                return WatchdogAction::Wait;
            },
        };
        if self.binary_replaced && !visible {
            return WatchdogAction::Restart;
        }
        let backoff_over = match self.reload_age {
            Some(age) => age >= RELOAD_BACKOFF_SECONDS,
            None => true,
        };
        if self.publication_age >= PUBLISHER_STALL_SECONDS && backoff_over {
            WatchdogAction::Reload
        } else {
            WatchdogAction::Wait
        }
    }
}

/// One look at the helper.
#[derive(Clone, Copy, Debug, PartialEq, Eq, Structural)]
pub struct Look {
    /// When it was taken, in nanoseconds of a clock that never goes back.
    pub now: u64,
    /// The manual lock latch is set.
    pub latched: bool,
    /// Whether the main window can be seen, if there is a main window.
    pub visible: Option<bool>,
    /// An update has replaced the program's binary.
    pub binary_replaced: bool,
    /// The time since the last publication, in whole seconds, rounded down.
    pub publication_age: u64,
}

impl Look {
    /// The whole seconds from `earlier` to this look.
    pub open spec fn seconds_since(self, earlier: u64) -> u64 {
        if self.now >= earlier {
            ((self.now - earlier) / NANOS_PER_SECOND as int) as u64
        } else {
            0
        }
    }

    /// What is seen, if the webview was last reloaded at `last_reload`.
    pub open spec fn observation(self, last_reload: Option<u64>) -> Observation {
        Observation {
            latched: self.latched,
            visible: self.visible,
            binary_replaced: self.binary_replaced,
            publication_age: self.publication_age,
            reload_age: match last_reload {
                Some(earlier) => Some(self.seconds_since(earlier)),
                None => None,
            },
        }
    }

    /// When the webview was last reloaded, once this look was acted upon.
    pub open spec fn reload_after(self, last_reload: Option<u64>) -> Option<u64> {
        if self.observation(last_reload).response() is Reload {
            Some(self.now)
        } else {
            last_reload
        }
    }
}

/// The watchdog. It remembers when it last had the webview reloaded.
#[derive(Debug)]
pub struct Watchdog {
    last_reload: Option<u64>,
}

impl View for Watchdog {
    type V = Option<u64>;

    closed spec fn view(&self) -> Option<u64> {
        self.last_reload
    }
}

impl Default for Watchdog {
    /// A watchdog that has not had the webview reloaded.
    fn default() -> (watchdog: Self)
        ensures
            watchdog@ == None::<u64>,
    {
        Watchdog { last_reload: None }
    }
}

impl Watchdog {
    /// Decides what is done about what was seen, and remembers a reload.
    pub fn look(&mut self, look: Look) -> (action: WatchdogAction)
        ensures
            action == look.observation(old(self)@).response(),
            final(self)@ == look.reload_after(old(self)@),
    {
        let reload_age = match self.last_reload {
            Some(earlier) => Some(look.now.saturating_sub(earlier) / NANOS_PER_SECOND),
            None => None,
        };
        let seen = Observation {
            latched: look.latched,
            visible: look.visible,
            binary_replaced: look.binary_replaced,
            publication_age: look.publication_age,
            reload_age,
        };
        let action = seen.decide();
        if action == WatchdogAction::Reload {
            self.last_reload = Some(look.now);
        }
        action
    }
}

/// When the webview was last reloaded, after the watchdog has acted upon `looks`.
pub open spec fn last_reload(looks: Seq<Look>) -> Option<u64>
    decreases looks.len(),
{
    if looks.len() == 0 {
        None
    } else {
        looks.last().reload_after(last_reload(looks.drop_last()))
    }
}

/// Whether the look with the number `index` has the webview reloaded.
pub open spec fn reloads_at(looks: Seq<Look>, index: int) -> bool {
    looks[index].observation(last_reload(looks.take(index))).response() is Reload
}

/// After a reload the last one is no earlier.
proof fn lemma_reload_is_remembered(looks: Seq<Look>, index: int, end: int)
    requires
        0 <= index < end <= looks.len(),
        reloads_at(looks, index),
    ensures
        last_reload(looks.take(end)) matches Some(time) && time >= looks[index].now,
    decreases end,
{
    assert(looks.take(end).drop_last() =~= looks.take(end - 1));
    assert(looks.take(end).last() == looks[end - 1]);
    if index < end - 1 {
        lemma_reload_is_remembered(looks, index, end - 1);
    }
}

/// Of two looks that both have the webview reloaded, the later comes at least the backoff after the
/// earlier.
pub proof fn law_reloads_keep_their_distance(looks: Seq<Look>, earlier: int, later: int)
    requires
        0 <= earlier < later < looks.len(),
        reloads_at(looks, earlier),
        reloads_at(looks, later),
    ensures
        looks[later].now >= looks[earlier].now + RELOAD_BACKOFF_SECONDS * NANOS_PER_SECOND,
{
    lemma_reload_is_remembered(looks, earlier, later);
}

/// The program is started anew exactly if its binary was replaced while the main window is hidden
/// and the manual lock latch is not set.
pub proof fn law_restarts_only_unseen_and_unlatched(seen: Observation)
    ensures
        seen.response() is Restart <==> seen.binary_replaced && seen.visible == Some(false)
            && !seen.latched,
{
}

/// The webview is never reloaded while it publishes, nor twice within the backoff.
pub proof fn law_reloads_only_stalled_webview(seen: Observation)
    ensures
        seen.response() is Reload ==> seen.publication_age >= PUBLISHER_STALL_SECONDS && (
        seen.reload_age matches Some(age) ==> age >= RELOAD_BACKOFF_SECONDS),
{
}

/// While the manual lock latch is set the watchdog does nothing.
pub proof fn law_watchdog_rests_while_latched(seen: Observation)
    requires
        seen.latched,
    ensures
        seen.response() is Wait,
{
}

}
