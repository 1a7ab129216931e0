use vstd::prelude::*;
use vstd::string::StringExecFns;

verus! {

/// A change is written back once it has been left alone this long.
pub const SAVE_DELAY_MS: u64 = 500;

/// After a failed write the next attempt is pushed this far into the future.
pub const RETRY_DELAY_MS: u64 = 4000;

/// Whether the configuration still has to be written (and from when the
/// change counts), and whether the last write failed. Times are milliseconds
/// on a monotonic clock.
pub struct SaveState {
    dirty: Option<u64>,
    failing: bool,
}

pub open spec fn save_error_text() -> Seq<char> {
    "参数未能保存到本机，请检查磁盘空间和目录权限。应用会自动重试。"@
}

/// Whether a write is due at `now` (see [`SaveState::due`]).
pub open spec fn write_due(s: (Option<u64>, bool), now: u64, force: bool) -> bool {
    match s.0 {
        None => false,
        Some(t) => force || now >= t + SAVE_DELAY_MS,
    }
}

/// The state after a write attempted at `now` (see [`SaveState::record`]).
pub open spec fn recorded(s: (Option<u64>, bool), saved: bool, now: u64) -> (Option<u64>, bool) {
    if saved {
        (None, false)
    } else {
        (Some((now + RETRY_DELAY_MS) as u64), true)
    }
}

impl View for SaveState {
    type V = (Option<u64>, bool);

    closed spec fn view(&self) -> (Option<u64>, bool) {
        (self.dirty, self.failing)
    }
}

impl SaveState {
    /// Nothing to write, no failure.
    pub fn new() -> (s: SaveState)
        ensures
            s@ == (None::<u64>, false),
    {
        SaveState { dirty: None, failing: false }
    }

    /// Records a change made at `now`.
    pub fn mark_dirty(&mut self, now: u64)
        ensures
            final(self)@ == (Some(now), old(self)@.1),
    {
        self.dirty = Some(now);
    }

    /// Whether to write now: there is a pending change and either the write
    /// is forced (at exit) or the change is at least [`SAVE_DELAY_MS`] old. A
    /// change dated in the future counts as made just now.
    pub fn due(&self, now: u64, force: bool) -> (b: bool)
        ensures
            b == write_due(self@, now, force),
    {
        match self.dirty {
            None => false,
            Some(t) => force || now.saturating_sub(t) >= SAVE_DELAY_MS,
        }
    }

    /// Records the outcome of a write attempted at `now`. A success clears the
    /// pending change and the failure; a failure keeps the change pending but
    /// dates it [`RETRY_DELAY_MS`] ahead. The result says whether the failure
    /// shown to the user changed, so that the state has to be published.
    pub fn record(&mut self, saved: bool, now: u64) -> (changed: bool)
        requires
            !saved ==> now + RETRY_DELAY_MS <= u64::MAX,
        ensures
            final(self)@ == recorded(old(self)@, saved, now),
            changed == (old(self)@.1 != final(self)@.1),
    {
        let before = self.failing;
        if saved {
            self.dirty = None;
            self.failing = false;
        } else {
            self.dirty = Some(now + RETRY_DELAY_MS);
            self.failing = true;
        }
        before != self.failing
    }

    /// The failure shown in the panel, if the last write failed.
    pub fn error_message(&self) -> (m: Option<String>)
        ensures
            self@.1 ==> m is Some && m->0@ == save_error_text(),
            !self@.1 ==> m is None,
    {
        if self.failing {
            Some(String::from_str("参数未能保存到本机，请检查磁盘空间和目录权限。应用会自动重试。"))
        } else {
            None
        }
    }
}

/// A change is written back once it has been left alone for
/// [`SAVE_DELAY_MS`], and at once when the write is forced.
pub proof fn change_is_written_after_delay(s: (Option<u64>, bool), changed_at: u64, now: u64)
    ensures
        write_due((Some(changed_at), s.1), now, false) == (now >= changed_at + SAVE_DELAY_MS),
        write_due((Some(changed_at), s.1), now, true),
{
}

/// After a successful write nothing is written again, forced or not, until
/// the next change.
pub proof fn saved_state_is_clean(s: (Option<u64>, bool), at: u64, now: u64, force: bool)
    ensures
        !write_due(recorded(s, true, at), now, force),
        !recorded(s, true, at).1,
{
}

/// After a failed write at `at`, the next unforced attempt comes no earlier
/// than [`RETRY_DELAY_MS`] plus [`SAVE_DELAY_MS`] later, and the failure is
/// shown until a write succeeds. A second failure in a row changes nothing
/// the user sees.
pub proof fn failed_write_is_retried_later(s: (Option<u64>, bool), at: u64, now: u64, again: u64)
    requires
        at + RETRY_DELAY_MS <= u64::MAX,
        again + RETRY_DELAY_MS <= u64::MAX,
    ensures
        write_due(recorded(s, false, at), now, false) == (now >= at + RETRY_DELAY_MS
            + SAVE_DELAY_MS),
        recorded(s, false, at).1,
        recorded(recorded(s, false, at), false, again).1 == recorded(s, false, at).1,
{
}

} // verus!
