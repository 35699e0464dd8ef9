//! The HUD's match clock, its queue of notifications and its score overview.

use vstd::prelude::*;
use std::collections::VecDeque;
use crate::text::{padded2, push_padded2};

verus! {

/// The clock's hours, minutes and seconds for a match time in whole
/// seconds. The minutes count every minute played, not only those of the
/// current hour.
pub open spec fn clock_parts(total_seconds: nat) -> (nat, nat, nat) {
    (total_seconds / 3600, total_seconds / 60, total_seconds % 60)
}

/// The clock text `HH:MM:SS`, each part printed with at least two digits.
pub open spec fn clock_text_of(total_seconds: nat) -> Seq<char> {
    let (h, m, s) = clock_parts(total_seconds);
    padded2(h) + seq![':'] + padded2(m) + seq![':'] + padded2(s)
}

/// The text of the match clock after `total_seconds` whole seconds.
pub fn clock_text(total_seconds: u32) -> (t: String)
    ensures
        t@ == clock_text_of(total_seconds as nat),
{
    let hours = total_seconds / 3600;
    let minutes = total_seconds / 60;
    let seconds = total_seconds % 60;
    let mut t = String::new();
    push_padded2(&mut t, hours as u64);
    proof { reveal_strlit(":"); }
    t.append(":");
    push_padded2(&mut t, minutes as u64);
    t.append(":");
    push_padded2(&mut t, seconds as u64);
    assert(t@ =~= clock_text_of(total_seconds as nat));
    t
}

/// What the notification line does on a frame.
pub enum NotificationUpdate {
    /// The current notification has time left: leave the line as it is.
    Keep,
    /// Show this notification and restart its timer.
    Show(String),
    /// Nothing is waiting: clear the line.
    Clear,
}

/// Notifications waiting to be shown, oldest first.
pub struct Notifications {
    queue: VecDeque<String>,
}

impl View for Notifications {
    type V = Seq<Seq<char>>;

    closed spec fn view(&self) -> Seq<Seq<char>> {
        self.queue@.map_values(|m: String| m@)
    }
}

impl Notifications {
    /// No notifications.
    pub fn new() -> (n: Self)
        ensures
            n@ == Seq::<Seq<char>>::empty(),
    {
        let n = Notifications { queue: VecDeque::new() };
        assert(n@ =~= Seq::<Seq<char>>::empty());
        n
    }

    /// Queues a notification behind those already waiting.
    pub fn add_message(&mut self, message: &str)
        ensures
            final(self)@ == old(self)@.push(message@),
    {
        self.queue.push_back(message.to_owned());
        assert(self@ =~= old(self)@.push(message@));
    }

    /// The notifications waiting, oldest first.
    pub fn len(&self) -> (n: usize)
        ensures
            n == self@.len(),
    {
        self.queue.len()
    }

    /// Decides the notification line for a frame: when the shown
    /// notification's time is up (`timed_out`), the oldest waiting one is
    /// shown, or the line is cleared if none waits.
    pub fn update(&mut self, timed_out: bool) -> (u: NotificationUpdate)
        ensures
            !timed_out ==> u is Keep && final(self)@ == old(self)@,
            timed_out && old(self)@.len() > 0 ==> final(self)@ == old(self)@.drop_first() && match u {
                NotificationUpdate::Show(m) => m@ == old(self)@[0],
                _ => false,
            },
            timed_out && old(self)@.len() == 0 ==> u is Clear && final(self)@ == old(self)@,
    {
        if !timed_out {
            return NotificationUpdate::Keep;
        }
        match self.queue.pop_front() {
            Some(m) => {
                assert(self@ =~= old(self)@.drop_first());
                NotificationUpdate::Show(m)
            },
            None => NotificationUpdate::Clear,
        }
    }
}

/// Notifications are shown in the order they were queued: queuing a new
/// one behind a waiting line changes neither which one is shown next nor
/// the order of the rest.
pub proof fn notifications_are_first_in_first_out(waiting: Seq<Seq<char>>, message: Seq<char>)
    requires
        waiting.len() > 0,
    ensures
        waiting.push(message)[0] == waiting[0],
        waiting.push(message).drop_first() == waiting.drop_first().push(message),
{
    assert(waiting.push(message).drop_first() =~= waiting.drop_first().push(message));
}

/// `i` is a position of a highest score.
pub open spec fn is_highest_at(scores: Seq<u32>, i: int) -> bool {
    &&& 0 <= i < scores.len()
    &&& forall|k: int| 0 <= k < scores.len() ==> scores[k] <= scores[i]
}

/// `j` is a position of a highest score once the score at `i` is set aside.
pub open spec fn is_next_highest_at(scores: Seq<u32>, i: int, j: int) -> bool {
    &&& 0 <= j < scores.len()
    &&& j != i
    &&& forall|k: int| 0 <= k < scores.len() && k != i ==> scores[k] <= scores[j]
}

/// The leading score and the runner-up's score, as the HUD's score
/// overview shows them: the highest score, and the highest of the others.
pub fn two_highest(scores: &[u32]) -> (r: (Option<u32>, Option<u32>))
    ensures
        r.0 is None <==> scores@.len() == 0,
        r.1 is None <==> scores@.len() < 2,
        r.0 matches Some(a) ==> exists|i: int| is_highest_at(scores@, i) && scores@[i] == a,
        r.1 matches Some(b) ==> exists|i: int, j: int|
            is_highest_at(scores@, i) && Some(scores@[i]) == r.0 && is_next_highest_at(scores@, i, j)
                && scores@[j] == b,
{
    let n = scores.len();
    if n == 0 {
        return (None, None);
    }
    let mut best: usize = 0;
    let mut k: usize = 1;
    while k < n
        invariant
            n == scores@.len(),
            1 <= k <= n,
            best < k,
            forall|m: int| 0 <= m < k ==> scores@[m] <= scores@[best as int],
        decreases n - k,
    {
        if scores[k] > scores[best] {
            best = k;
        }
        k = k + 1;
    }
    assert(is_highest_at(scores@, best as int));
    if n == 1 {
        return (Some(scores[best]), None);
    }
    let mut second: usize = if best == 0 { 1 } else { 0 };
    let mut k: usize = 0;
    while k < n
        invariant
            n == scores@.len(),
            k <= n,
            second < n,
            second != best,
            best < n,
            forall|m: int| 0 <= m < k && m != best ==> scores@[m] <= scores@[second as int],
        decreases n - k,
    {
        if k != best && scores[k] > scores[second] {
            second = k;
        }
        k = k + 1;
    }
    assert(is_next_highest_at(scores@, best as int, second as int));
    (Some(scores[best]), Some(scores[second]))
}

/// The clock reads hours, minutes and seconds, each with at least two
/// digits and separated by colons: the whole hours, the whole minutes
/// (all of them, not only those of the current hour) and the seconds of
/// the current minute.
pub proof fn clock_reads_hours_minutes_seconds(total_seconds: nat)
    ensures
        clock_text_of(total_seconds) == padded2(total_seconds / 3600) + seq![':'] + padded2(
            total_seconds / 60,
        ) + seq![':'] + padded2(total_seconds % 60),
{
}

/// A highest score is at least every score, and the next highest is at
/// least every other score but the one set aside.
pub proof fn highest_scores_bound_the_rest(scores: Seq<u32>, i: int, j: int)
    ensures
        is_highest_at(scores, i) ==> 0 <= i < scores.len() && forall|k: int|
            0 <= k < scores.len() ==> scores[k] <= scores[i],
        is_next_highest_at(scores, i, j) ==> 0 <= j < scores.len() && j != i && forall|k: int|
            0 <= k < scores.len() && k != i ==> scores[k] <= scores[j],
{
}

} // verus!
