//! Badge state: pending count, tooltip text, and dock badge label.
//!
//! The tray's visible state is a pure function of the pending count and
//! of one capability flag resolved at startup (whether the host platform
//! supports dock badges). `ShellModel` tracks that state together with
//! the tray icon's presence, and `update_badge` is the badge-update
//! command of the command surface.

use vstd::prelude::*;
use crate::digits::{decimal_digits, format_count};
use crate::errors::ShellError;

verus! {

/// The tooltip shown for a pending count: the bare application name for
/// zero, otherwise the name with the count appended in a fixed format.
pub open spec fn tooltip_spec(count: nat) -> Seq<char> {
    if count == 0 {
        "SureThing Clone"@
    } else {
        "SureThing Clone — "@ + decimal_digits(count) + " pending"@
    }
}

/// The dock badge label for a pending count: the numeral when the count
/// is positive and the platform supports dock badges, otherwise absent.
pub open spec fn badge_label_spec(count: nat, supports_dock_badge: bool) -> Option<Seq<char>> {
    if count > 0 && supports_dock_badge {
        Some(decimal_digits(count))
    } else {
        None
    }
}

/// Renders the tooltip for `count`.
pub fn tooltip_for(count: u32) -> (s: String)
    ensures
        s@ == tooltip_spec(count as nat),
{
    if count == 0 {
        "SureThing Clone".to_owned()
    } else {
        let mut s = "SureThing Clone — ".to_owned();
        let digits = format_count(count);
        s.append(digits.as_str());
        s.append(" pending");
        s
    }
}

/// Renders the dock badge label for `count` under the given capability.
pub fn badge_label_for(count: u32, supports_dock_badge: bool) -> (r: Option<String>)
    ensures
        r.deep_view() == badge_label_spec(count as nat, supports_dock_badge),
{
    if count > 0 && supports_dock_badge {
        Some(format_count(count))
    } else {
        None
    }
}

/// The tray icon's visible state: the pending count and what the OS
/// shell shows for it.
pub struct TrayState {
    /// The count last applied by the badge-update command.
    pub pending_count: u32,
    /// The tooltip attached to the tray icon.
    pub tooltip: String,
    /// The dock badge label, absent when the count is zero or the
    /// platform has no dock badge.
    pub badge_label: Option<String>,
}

/// A tray state is well formed when tooltip and badge agree with the
/// pending count under the given capability flag.
pub open spec fn tray_state_wf(t: TrayState, supports_dock_badge: bool) -> bool {
    &&& t.tooltip@ == tooltip_spec(t.pending_count as nat)
    &&& t.badge_label.deep_view() == badge_label_spec(t.pending_count as nat, supports_dock_badge)
}

/// Builds the tray state for `count`.
pub fn tray_state_for(count: u32, supports_dock_badge: bool) -> (t: TrayState)
    ensures
        t.pending_count == count,
        tray_state_wf(t, supports_dock_badge),
{
    TrayState {
        pending_count: count,
        tooltip: tooltip_for(count),
        badge_label: badge_label_for(count, supports_dock_badge),
    }
}

/// The controller's whole state: the capability flag resolved at
/// startup, and the tray icon when it exists.
pub struct ShellModel {
    /// Whether the host platform renders dock badges; fixed at startup.
    pub supports_dock_badge: bool,
    /// The tray icon's state, absent before setup or after the icon was
    /// destroyed.
    pub tray: Option<TrayState>,
}

/// What the badge-update command does: with no tray it fails with
/// `TrayNotFound` and changes nothing; with a tray it succeeds and the
/// new visible state is a pure function of `count` and the capability.
pub open spec fn update_badge_rel(
    pre: ShellModel,
    count: u32,
    post: ShellModel,
    r: Result<(), ShellError>,
) -> bool {
    if pre.tray is None {
        &&& post == pre
        &&& r == Err::<(), ShellError>(ShellError::TrayNotFound)
    } else {
        &&& r == Ok::<(), ShellError>(())
        &&& post.supports_dock_badge == pre.supports_dock_badge
        &&& post.tray is Some
        &&& post.tray->0.pending_count == count
        &&& post.tray->0.tooltip@ == tooltip_spec(count as nat)
        &&& post.tray->0.badge_label.deep_view() == badge_label_spec(
            count as nat,
            pre.supports_dock_badge,
        )
    }
}

/// What the OS shell shows of a model: the tooltip and badge label of
/// the tray icon, when there is one.
pub open spec fn tray_visible(s: ShellModel) -> Option<(Seq<char>, Option<Seq<char>>)> {
    match s.tray {
        Some(t) => Some((t.tooltip@, t.badge_label.deep_view())),
        None => None,
    }
}

impl ShellModel {
    /// A model is well formed when its tray state, if present, agrees
    /// with its own pending count.
    pub open spec fn wf(self) -> bool {
        self.tray is Some ==> tray_state_wf(self.tray->0, self.supports_dock_badge)
    }

    /// The state at process start, before the tray icon is built.
    pub fn new(supports_dock_badge: bool) -> (s: ShellModel)
        ensures
            s.supports_dock_badge == supports_dock_badge,
            s.tray is None,
            s.wf(),
    {
        ShellModel { supports_dock_badge, tray: None }
    }

    /// Setup: the tray icon comes up with a zero count and the bare
    /// application name as tooltip.
    pub fn install_tray(&mut self)
        ensures
            final(self).supports_dock_badge == old(self).supports_dock_badge,
            final(self).tray is Some,
            final(self).tray->0.pending_count == 0,
            final(self).wf(),
    {
        let supports = self.supports_dock_badge;
        self.tray = Some(tray_state_for(0, supports));
    }

    /// The badge-update command: recomputes tooltip and badge label for
    /// `count`, or fails with `TrayNotFound` when no tray icon exists.
    pub fn update_badge(&mut self, count: u32) -> (r: Result<(), ShellError>)
        ensures
            update_badge_rel(*old(self), count, *final(self), r),
            r is Ok <==> old(self).tray is Some,
            final(self).wf(),
    {
        if self.tray.is_none() {
            return Err(ShellError::TrayNotFound);
        }
        let supports = self.supports_dock_badge;
        self.tray = Some(tray_state_for(count, supports));
        Ok(())
    }
}

/// The tooltip format, spelled out: zero gives the bare application
/// name with no trailing count, a positive count gives the name, the
/// numeral and the word "pending" in one fixed shape.
pub proof fn lemma_tooltip_format(count: nat)
    ensures
        count == 0 ==> tooltip_spec(count) == "SureThing Clone"@,
        count > 0 ==> tooltip_spec(count) == "SureThing Clone — "@ + decimal_digits(count)
            + " pending"@,
{
}

/// A badge label is present exactly when the count is positive and the
/// platform supports dock badges; never on an unsupported platform.
pub proof fn lemma_badge_presence(count: nat, supports_dock_badge: bool)
    ensures
        badge_label_spec(count, supports_dock_badge) is Some <==> (count > 0
            && supports_dock_badge),
        !supports_dock_badge ==> badge_label_spec(count, supports_dock_badge) is None,
{
}

/// The badge-update command is idempotent: applying it twice with the
/// same count gives the same result and the same visible tray state as
/// applying it once.
pub proof fn lemma_update_badge_idempotent(
    s0: ShellModel,
    s1: ShellModel,
    s2: ShellModel,
    count: u32,
    r1: Result<(), ShellError>,
    r2: Result<(), ShellError>,
)
    requires
        update_badge_rel(s0, count, s1, r1),
        update_badge_rel(s1, count, s2, r2),
    ensures
        r2 == r1,
        tray_visible(s2) == tray_visible(s1),
{
}

/// With no tray present the badge-update command reports `TrayNotFound`
/// and mutates nothing, not even partially.
pub proof fn lemma_update_badge_no_tray(
    pre: ShellModel,
    count: u32,
    post: ShellModel,
    r: Result<(), ShellError>,
)
    requires
        pre.tray is None,
        update_badge_rel(pre, count, post, r),
    ensures
        post == pre,
        r == Err::<(), ShellError>(ShellError::TrayNotFound),
{
}

} // verus!
