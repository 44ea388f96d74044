//! The log of pickups and other notices shown to the player for a while.
use vstd::prelude::*;

verus! {

/// How long a log entry is shown.
pub const LOG_ENTRY_MS: u64 = 4000;

/// A line for the log.
#[derive(Debug)]
pub struct ItemLogEvent(pub String);

/// Whether an entry logged at `logged_ms` is still shown at `now`.
pub open spec fn is_recent(logged_ms: u64, now: nat) -> bool {
    now < logged_ms + LOG_ENTRY_MS
}

/// The entries of `s` still shown at `now`, in order.
pub open spec fn recent(s: Seq<(ItemLogEvent, u64)>, now: nat) -> Seq<(ItemLogEvent, u64)>
    decreases s.len(),
{
    if s.len() == 0 {
        Seq::empty()
    } else if is_recent(s.last().1, now) {
        recent(s.drop_last(), now).push(s.last())
    } else {
        recent(s.drop_last(), now)
    }
}

fn copy_event(e: &ItemLogEvent) -> (r: ItemLogEvent)
    ensures
        r == *e,
{
    ItemLogEvent(e.0.clone())
}

/// The shown log: each entry with the time it was logged, oldest first.
pub struct ItemLogText {
    pub entries: Vec<(ItemLogEvent, u64)>,
}

impl ItemLogText {
    /// An empty log.
    pub fn new() -> (r: ItemLogText)
        ensures
            r.entries@.len() == 0,
    {
        ItemLogText { entries: Vec::new() }
    }

    /// Logs `events` at `now_ms`.
    pub fn add_events(&mut self, events: &Vec<ItemLogEvent>, now_ms: u64)
        ensures
            final(self).entries@ == old(self).entries@ + events@.map_values(
                |e: ItemLogEvent| (e, now_ms),
            ),
    {
        let mut i: usize = 0;
        while i < events.len()
            invariant
                i <= events@.len(),
                self.entries@ == old(self).entries@ + events@.take(i as int).map_values(
                    |e: ItemLogEvent| (e, now_ms),
                ),
            decreases events@.len() - i,
        {
            let e = copy_event(&events[i]);
            self.entries.push((e, now_ms));
            i = i + 1;
            assert(events@.take(i as int).map_values(|e: ItemLogEvent| (e, now_ms)) =~= events@.take(
                (i - 1) as int,
            ).map_values(|e: ItemLogEvent| (e, now_ms)).push((events@[i - 1], now_ms)));
        }
        assert(events@.take(events@.len() as int) =~= events@);
    }

    /// Drops the entries no longer shown at `now_ms`.
    pub fn update(&mut self, now_ms: u64)
        ensures
            final(self).entries@ == recent(old(self).entries@, now_ms as nat),
    {
        let mut kept: Vec<(ItemLogEvent, u64)> = Vec::new();
        let mut i: usize = 0;
        while i < self.entries.len()
            invariant
                i <= self.entries@.len(),
                self.entries@ == old(self).entries@,
                kept@ == recent(self.entries@.take(i as int), now_ms as nat),
            decreases self.entries@.len() - i,
        {
            assert(self.entries@.take(i + 1).drop_last() =~= self.entries@.take(i as int));
            let logged = self.entries[i].1;
            if now_ms < logged || now_ms - logged < LOG_ENTRY_MS {
                let e = copy_event(&self.entries[i].0);
                kept.push((e, logged));
            }
            i = i + 1;
        }
        assert(self.entries@.take(self.entries@.len() as int) =~= self.entries@);
        self.entries = kept;
    }

    /// The shown lines, oldest first.
    pub fn lines(&self) -> (r: Vec<String>)
        ensures
            r@.len() == self.entries@.len(),
            forall|k: int| 0 <= k < r@.len() ==> #[trigger] r@[k] == self.entries@[k].0.0,
    {
        let mut r: Vec<String> = Vec::new();
        let mut i: usize = 0;
        while i < self.entries.len()
            invariant
                i <= self.entries@.len(),
                r@.len() == i,
                forall|k: int| 0 <= k < i ==> #[trigger] r@[k] == self.entries@[k].0.0,
            decreases self.entries@.len() - i,
        {
            r.push(self.entries[i].0.0.clone());
            i = i + 1;
        }
        r
    }
}

} // verus!
