//! One account's status, and the facts the dashboard shows for it.

use vstd::prelude::*;
use crate::instant::{read_clock, Timestamp};

verus! {

/// The arena part of an account's game state.
#[derive(Clone, Copy, Debug, PartialEq, Eq)]
pub struct Arena {
    /// When the next fight becomes free of charge, if that is tracked.
    pub next_free_fight: Option<Timestamp>,
}

/// The part of an account's game state that the dashboard looks at.
#[derive(Clone, Copy, Debug, PartialEq, Eq)]
pub struct GameState {
    pub arena: Arena,
}

/// What a worker last published about its account.
#[derive(Clone, Debug, PartialEq, Eq)]
pub enum AccountStatus {
    /// The first login is under way.
    LoggingIn,
    /// The session dropped and the worker is logging in again.
    LoggingInAgain,
    /// Logged in, and nothing is being done right now.
    Idle(GameState),
    /// Logged in and doing the thing that the text names.
    Busy(GameState, String),
    /// The worker gave up; the text says why.
    FatalError(String),
}

/// The outcome of locking an account's status cell and copying it out.
#[derive(Clone, Debug, PartialEq, Eq)]
pub enum StatusRead {
    /// The lock was taken and this is what the cell held.
    Snapshot(AccountStatus),
    /// A worker died while holding the lock, so the cell cannot be read.
    Poisoned,
}

/// Scrapbook settings attached to an account.
#[derive(Clone, Copy, Debug, PartialEq, Eq)]
pub struct ScrapbookInfo {
    pub auto_battle: bool,
}

/// What is shown in the column for the next free fight.
#[derive(Clone, Copy, Debug, PartialEq, Eq)]
pub enum CountdownIcon {
    /// Nothing is known about the next free fight.
    Unknown,
    /// The next free fight is this many whole seconds away.
    CountdownSeconds(i64),
    /// A free fight is available now.
    Ready,
}

/// What is shown in the column for automatic battles.
#[derive(Clone, Copy, Debug, PartialEq, Eq)]
pub enum AutoBattleIcon {
    /// The account has no scrapbook settings.
    Unknown,
    /// Automatic battles are switched on.
    Ready,
    /// Automatic battles are switched off.
    Negative,
}

/// Everything the dashboard shows about one account. It is computed afresh
/// for every frame and thrown away afterwards.
#[derive(Clone, Debug, PartialEq, Eq)]
pub struct DisplayFacts {
    pub label: String,
    pub countdown: CountdownIcon,
    pub auto_battle: AutoBattleIcon,
}

/// The countdown shown at the instant `now` for a next free fight at
/// `next_free_fight`: unknown when no time is tracked, a count of whole
/// seconds while that time lies strictly ahead, and ready from then on.
pub open spec fn countdown_at(next_free_fight: Option<Timestamp>, now: Timestamp) -> CountdownIcon {
    match next_free_fight {
        None => CountdownIcon::Unknown,
        Some(t) => if t.later_than(now) {
            CountdownIcon::CountdownSeconds(t.whole_seconds_after(now))
        } else {
            CountdownIcon::Ready
        },
    }
}

/// The marker shown for automatic battles.
pub open spec fn auto_battle_marker(scrapbook: Option<ScrapbookInfo>) -> AutoBattleIcon {
    match scrapbook {
        None => AutoBattleIcon::Unknown,
        Some(info) => if info.auto_battle {
            AutoBattleIcon::Ready
        } else {
            AutoBattleIcon::Negative
        },
    }
}

impl AccountStatus {
    /// The status label: one fixed text per variant, except that a busy
    /// account shows the name of what it is doing, letter for letter.
    pub open spec fn label_text(self) -> Seq<char> {
        match self {
            AccountStatus::LoggingIn => "Logging in"@,
            AccountStatus::LoggingInAgain => "Logging in"@,
            AccountStatus::Idle(_) => "Active"@,
            AccountStatus::Busy(_, reason) => reason@,
            AccountStatus::FatalError(_) => "Error!"@,
        }
    }

    /// The game state that the status carries, which only a logged-in
    /// account has.
    pub open spec fn game_state(self) -> Option<GameState> {
        match self {
            AccountStatus::Idle(gs) => Some(gs),
            AccountStatus::Busy(gs, _) => Some(gs),
            _ => None,
        }
    }

    /// The countdown shown for this status at the instant `now`.
    pub open spec fn countdown(self, now: Timestamp) -> CountdownIcon {
        match self.game_state() {
            None => CountdownIcon::Unknown,
            Some(gs) => countdown_at(gs.arena.next_free_fight, now),
        }
    }
}

impl StatusRead {
    /// The status label of the read. A poisoned lock is shown as a fatal
    /// error is.
    pub open spec fn label_text(self) -> Seq<char> {
        match self {
            StatusRead::Snapshot(status) => status.label_text(),
            StatusRead::Poisoned => "Error!"@,
        }
    }

    /// The countdown shown for the read at the instant `now`. A poisoned
    /// lock gives no game state, hence no countdown.
    pub open spec fn countdown(self, now: Timestamp) -> CountdownIcon {
        match self {
            StatusRead::Snapshot(status) => status.countdown(now),
            StatusRead::Poisoned => CountdownIcon::Unknown,
        }
    }
}

impl DisplayFacts {
    /// Whether these facts and `other` show the same: the same label, the
    /// same countdown and the same auto-battle marker.
    pub open spec fn same_as(self, other: DisplayFacts) -> bool {
        &&& self.label@ == other.label@
        &&& self.countdown == other.countdown
        &&& self.auto_battle == other.auto_battle
    }

    /// Whether these are the facts to show at the instant `now` for an
    /// account whose status cell gave `read` and whose scrapbook settings are
    /// `scrapbook`.
    pub open spec fn describes(
        self,
        read: StatusRead,
        scrapbook: Option<ScrapbookInfo>,
        now: Timestamp,
    ) -> bool {
        &&& self.label@ == read.label_text()
        &&& self.countdown == read.countdown(now)
        &&& self.auto_battle == auto_battle_marker(scrapbook)
    }
}

/// Computes the countdown shown at `now` for a next free fight at
/// `next_free_fight`.
pub fn countdown_icon(next_free_fight: &Option<Timestamp>, now: &Timestamp) -> (icon: CountdownIcon)
    ensures
        icon == countdown_at(*next_free_fight, *now),
{
    match next_free_fight {
        None => CountdownIcon::Unknown,
        Some(t) => {
            if t.is_after(now) {
                CountdownIcon::CountdownSeconds(t.seconds_after(now))
            } else {
                CountdownIcon::Ready
            }
        },
    }
}

/// Computes the marker shown for automatic battles.
pub fn auto_battle_icon(scrapbook: &Option<ScrapbookInfo>) -> (icon: AutoBattleIcon)
    ensures
        icon == auto_battle_marker(*scrapbook),
{
    match scrapbook {
        None => AutoBattleIcon::Unknown,
        Some(info) => {
            if info.auto_battle {
                AutoBattleIcon::Ready
            } else {
                AutoBattleIcon::Negative
            }
        },
    }
}

/// Computes the status label of a read.
pub fn status_label(read: &StatusRead) -> (label: String)
    ensures
        label@ == read.label_text(),
{
    match read {
        StatusRead::Snapshot(AccountStatus::LoggingIn) => "Logging in".to_owned(),
        StatusRead::Snapshot(AccountStatus::LoggingInAgain) => "Logging in".to_owned(),
        StatusRead::Snapshot(AccountStatus::Idle(_)) => "Active".to_owned(),
        StatusRead::Snapshot(AccountStatus::Busy(_, reason)) => reason.clone(),
        StatusRead::Snapshot(AccountStatus::FatalError(_)) => "Error!".to_owned(),
        StatusRead::Poisoned => "Error!".to_owned(),
    }
}

/// Computes the countdown shown for a read at the instant `now`.
pub fn status_countdown(read: &StatusRead, now: &Timestamp) -> (icon: CountdownIcon)
    ensures
        icon == read.countdown(*now),
{
    match read {
        StatusRead::Snapshot(AccountStatus::Idle(gs)) => countdown_icon(
            &gs.arena.next_free_fight,
            now,
        ),
        StatusRead::Snapshot(AccountStatus::Busy(gs, _)) => countdown_icon(
            &gs.arena.next_free_fight,
            now,
        ),
        _ => CountdownIcon::Unknown,
    }
}

/// Turns one read of an account's status cell into the facts to show for the
/// account at the instant `now`. Every read has facts: a poisoned lock is
/// shown as a fatal error with no countdown, and nothing here can fail.
pub fn aggregate_status(
    read: &StatusRead,
    scrapbook: &Option<ScrapbookInfo>,
    now: &Timestamp,
) -> (facts: DisplayFacts)
    ensures
        facts.describes(*read, *scrapbook, *now),
{
    DisplayFacts {
        label: status_label(read),
        countdown: status_countdown(read, now),
        auto_battle: auto_battle_icon(scrapbook),
    }
}

/// Reads the wall clock once and computes the facts to show for the account
/// at that instant.
pub fn aggregate_status_now(read: &StatusRead, scrapbook: &Option<ScrapbookInfo>) -> (facts:
    DisplayFacts)
    ensures
        exists|now: Timestamp| facts.describes(*read, *scrapbook, now),
{
    let now = read_clock();
    aggregate_status(read, scrapbook, &now)
}

/// The facts shown for an account are a function of what was read: two
/// aggregations of the same read, with the same scrapbook settings, at the
/// same instant show the same label, the same countdown and the same
/// auto-battle marker.
pub proof fn lemma_aggregation_is_repeatable(
    first: DisplayFacts,
    second: DisplayFacts,
    read: StatusRead,
    scrapbook: Option<ScrapbookInfo>,
    now: Timestamp,
)
    requires
        first.describes(read, scrapbook, now),
        second.describes(read, scrapbook, now),
    ensures
        first.same_as(second),
{
}

/// Every status label comes from the fixed table: it is `Logging in`,
/// `Active` or `Error!`, or else the account is busy and the label is the
/// name of what it is doing.
pub proof fn lemma_label_is_from_table(read: StatusRead)
    ensures
        read.label_text() == "Logging in"@ || read.label_text() == "Active"@ || read.label_text()
            == "Error!"@ || (read matches StatusRead::Snapshot(AccountStatus::Busy(_, reason))
            && read.label_text() == reason@),
{
}

} // verus!
