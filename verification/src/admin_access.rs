//! The hidden way into the admin panel of the desktop interface: five clicks on the logo,
//! each within two seconds of the one before, open it; it then asks for the admin PIN.
//! Times are milliseconds of a monotonic clock.
use vstd::prelude::*;

verus! {

/// How close together the clicks on the logo must come, in milliseconds.
pub const CLICK_WINDOW_MS: u64 = 2000;

/// The number of clicks that opens the admin panel.
pub const CLICKS_TO_OPEN: u8 = 5;

/// The state of the way into the admin panel.
#[derive(Debug, Clone, Copy, PartialEq, Eq, Structural)]
pub struct AdminAccess {
    pub logo_click_count: u8,
    pub last_logo_click: u64,
    pub show_admin_panel: bool,
    pub admin_authenticated: bool,
}

/// Milliseconds from `from` to `to`; none when `to` is earlier.
pub open spec fn elapsed(from: u64, to: u64) -> int {
    if to >= from { to - from } else { 0 }
}

/// The state after a click on the logo at `now`: a click within the window of the one
/// before counts on, and the fifth opens the panel and starts the count again; a later
/// click counts as the first.
pub open spec fn clicked(s: AdminAccess, now: u64) -> AdminAccess {
    if elapsed(s.last_logo_click, now) < CLICK_WINDOW_MS {
        if s.logo_click_count + 1 >= CLICKS_TO_OPEN {
            AdminAccess { logo_click_count: 0, show_admin_panel: true, last_logo_click: now, ..s }
        } else {
            AdminAccess { logo_click_count: (s.logo_click_count + 1) as u8, last_logo_click: now, ..s }
        }
    } else {
        AdminAccess { logo_click_count: 1, last_logo_click: now, ..s }
    }
}

/// The state after clicks at the times `ts`, in order.
pub open spec fn clicks(s: AdminAccess, ts: Seq<u64>) -> AdminAccess
    decreases ts.len(),
{
    if ts.len() == 0 {
        s
    } else {
        clicked(clicks(s, ts.drop_last()), ts.last())
    }
}

/// A count the clicks keep: below the number that opens the panel.
pub open spec fn count_ok(s: AdminAccess) -> bool {
    s.logo_click_count < CLICKS_TO_OPEN
}

impl AdminAccess {
    /// The state at start-up at `now`: no clicks counted, the panel closed.
    pub fn new(now: u64) -> (a: AdminAccess)
        ensures
            a == (AdminAccess { logo_click_count: 0, last_logo_click: now, show_admin_panel: false, admin_authenticated: false }),
    {
        AdminAccess { logo_click_count: 0, last_logo_click: now, show_admin_panel: false, admin_authenticated: false }
    }

    /// A click on the logo at `now`.
    pub fn logo_click(&mut self, now: u64)
        requires
            count_ok(*old(self)),
        ensures
            *final(self) == clicked(*old(self), now),
            count_ok(*final(self)),
    {
        let since = if now >= self.last_logo_click { now - self.last_logo_click } else { 0 };
        if since < CLICK_WINDOW_MS {
            self.logo_click_count = self.logo_click_count + 1;
            if self.logo_click_count >= CLICKS_TO_OPEN {
                self.show_admin_panel = true;
                self.logo_click_count = 0;
            }
        } else {
            self.logo_click_count = 1;
        }
        self.last_logo_click = now;
    }

    /// The outcome of the admin system's PIN check: an accepted PIN opens the panel's
    /// contents.
    pub fn submit_pin(&mut self, accepted: bool)
        ensures
            *final(self) == (AdminAccess { admin_authenticated: old(self).admin_authenticated || accepted, ..*old(self) }),
    {
        if accepted {
            self.admin_authenticated = true;
        }
    }

    /// "Cancel" at the PIN prompt.
    pub fn cancel(&mut self)
        ensures
            *final(self) == (AdminAccess { show_admin_panel: false, ..*old(self) }),
    {
        self.show_admin_panel = false;
    }

    /// "Close" on the panel: it must be unlocked again next time.
    pub fn close(&mut self)
        ensures
            *final(self) == (AdminAccess { show_admin_panel: false, admin_authenticated: false, ..*old(self) }),
    {
        self.show_admin_panel = false;
        self.admin_authenticated = false;
    }
}

/// Five clicks that start a fresh count (the first comes two seconds or more after the
/// last click) and follow one another within two seconds open the admin panel; and a
/// click opens a closed panel only when it is the fifth in such a run.
pub proof fn law_five_quick_clicks_open(s: AdminAccess, ts: Seq<u64>, now: u64)
    requires
        count_ok(s),
    ensures
        (ts.len() == 5 && elapsed(s.last_logo_click, ts[0]) >= CLICK_WINDOW_MS
            && elapsed(ts[0], ts[1]) < CLICK_WINDOW_MS && elapsed(ts[1], ts[2]) < CLICK_WINDOW_MS
            && elapsed(ts[2], ts[3]) < CLICK_WINDOW_MS && elapsed(ts[3], ts[4]) < CLICK_WINDOW_MS)
            ==> clicks(s, ts).show_admin_panel,
        !s.show_admin_panel && clicked(s, now).show_admin_panel ==> s.logo_click_count == CLICKS_TO_OPEN - 1
            && elapsed(s.last_logo_click, now) < CLICK_WINDOW_MS,
{
    if ts.len() == 5 && elapsed(s.last_logo_click, ts[0]) >= CLICK_WINDOW_MS
        && elapsed(ts[0], ts[1]) < CLICK_WINDOW_MS && elapsed(ts[1], ts[2]) < CLICK_WINDOW_MS
        && elapsed(ts[2], ts[3]) < CLICK_WINDOW_MS && elapsed(ts[3], ts[4]) < CLICK_WINDOW_MS {
        let s1 = clicks(s, ts.take(1));
        assert(ts.take(1).drop_last() =~= ts.take(0));
        assert(clicks(s, ts.take(0)) == s);
        assert(s1.logo_click_count == 1 && s1.last_logo_click == ts[0]);
        let s2 = clicks(s, ts.take(2));
        assert(ts.take(2).drop_last() =~= ts.take(1));
        assert(s2.logo_click_count == 2 && s2.last_logo_click == ts[1]);
        let s3 = clicks(s, ts.take(3));
        assert(ts.take(3).drop_last() =~= ts.take(2));
        assert(s3.logo_click_count == 3 && s3.last_logo_click == ts[2]);
        let s4 = clicks(s, ts.take(4));
        assert(ts.take(4).drop_last() =~= ts.take(3));
        assert(s4.logo_click_count == 4 && s4.last_logo_click == ts[3]);
        assert(ts.drop_last() =~= ts.take(4));
        assert(clicks(s, ts) == clicked(s4, ts[4]));
    }
}

} // verus!
