//! Edits that the commands make to the play queue. Positions are the ones a
//! user sees: position 1 is the track that plays, position 2 the next one.

use vstd::prelude::*;
use std::collections::VecDeque;

verus! {

/// Why a remove command leaves the queue as it is.
#[derive(Debug, Clone, Copy, PartialEq, Eq, Structural)]
pub enum RemoveRefusal {
    /// Position 0 or 1: the track that plays cannot be removed.
    PlayingTrack,
    /// A position past the end of the queue.
    OutOfReach,
}

/// Why a swap command leaves the queue as it is.
#[derive(Debug, Clone, Copy, PartialEq, Eq, Structural)]
pub enum SwapRefusal {
    /// One of the positions is 0 or 1: the track that plays cannot move.
    PlayingTrack,
    /// One of the positions lies past the end of the queue.
    OutOfReach,
}

impl RemoveRefusal {
    /// The error text sent for this refusal.
    pub fn message(&self) -> (r: &'static str)
        ensures
            *self == RemoveRefusal::PlayingTrack ==> r@ == "Can't remove the currently playing track"@,
            *self == RemoveRefusal::OutOfReach ==> r@ == "Queue values out of reach"@,
    {
        match self {
            RemoveRefusal::PlayingTrack => "Can't remove the currently playing track",
            RemoveRefusal::OutOfReach => "Queue values out of reach",
        }
    }
}

impl SwapRefusal {
    /// The error text sent for this refusal.
    pub fn message(&self) -> (r: &'static str)
        ensures
            *self == SwapRefusal::PlayingTrack ==> r@ == "Can't swap the currently playing track"@,
            *self == SwapRefusal::OutOfReach ==> r@ == "Queue values out of reach"@,
    {
        match self {
            SwapRefusal::PlayingTrack => "Can't swap the currently playing track",
            SwapRefusal::OutOfReach => "Queue values out of reach",
        }
    }
}

/// The reply after a track was removed.
pub const TRACK_REMOVED: &'static str = ":cd: Track removed ✘";

/// The reply after two tracks were swapped.
pub const TRACKS_SWAPPED: &'static str = ":cd: Tracks swapped";

/// What a remove of `position` does to a queue of `queue_len` tracks: the
/// index it removes, or why it refuses.
pub open spec fn remove_plan(position: usize, queue_len: usize) -> Result<usize, RemoveRefusal> {
    if position == 1 || position == 0 {
        Err(RemoveRefusal::PlayingTrack)
    } else if position > queue_len {
        Err(RemoveRefusal::OutOfReach)
    } else {
        Ok((position - 1) as usize)
    }
}

/// What a swap of `first` and `second` does to a queue of `queue_len`
/// tracks: the two indices it exchanges, or why it refuses.
pub open spec fn swap_plan(first: usize, second: usize, queue_len: usize) -> Result<(usize, usize), SwapRefusal> {
    if first == 1 || second == 1 || first == 0 || second == 0 {
        Err(SwapRefusal::PlayingTrack)
    } else if first > queue_len || second > queue_len {
        Err(SwapRefusal::OutOfReach)
    } else {
        Ok(((first - 1) as usize, (second - 1) as usize))
    }
}

/// `q` with the items at `i` and `j` exchanged.
pub open spec fn swapped<T>(q: Seq<T>, i: int, j: int) -> Seq<T> {
    q.update(i, q[j]).update(j, q[i])
}

/// `q` with every track after the first one dropped.
pub open spec fn cleared<T>(q: Seq<T>) -> Seq<T> {
    if q.len() > 1 {
        q.take(1)
    } else {
        q
    }
}

/// Whether a remove of `position` is refused before the queue is looked
/// at: positions 0 and 1 name the track that plays.
pub fn remove_targets_playing_track(position: usize) -> (r: bool)
    ensures
        r == (remove_plan(position, 0) == Err::<usize, RemoveRefusal>(RemoveRefusal::PlayingTrack)),
        r == (position == 0 || position == 1),
{
    position == 1 || position == 0
}

/// Whether a swap of `first` and `second` is refused before the queue is
/// looked at: positions 0 and 1 name the track that plays.
pub fn swap_targets_playing_track(first: usize, second: usize) -> (r: bool)
    ensures
        r == (swap_plan(first, second, 0) == Err::<(usize, usize), SwapRefusal>(
            SwapRefusal::PlayingTrack,
        )),
        r == (first == 1 || second == 1 || first == 0 || second == 0),
{
    first == 1 || second == 1 || first == 0 || second == 0
}

/// Decides a remove command on a queue of `queue_len` tracks.
pub fn plan_remove(position: usize, queue_len: usize) -> (r: Result<usize, RemoveRefusal>)
    ensures
        r == remove_plan(position, queue_len),
{
    if position == 1 || position == 0 {
        return Err(RemoveRefusal::PlayingTrack);
    }
    if position > queue_len {
        return Err(RemoveRefusal::OutOfReach);
    }
    Ok(position - 1)
}

/// Decides a swap command on a queue of `queue_len` tracks.
pub fn plan_swap(first: usize, second: usize, queue_len: usize) -> (r: Result<(usize, usize), SwapRefusal>)
    ensures
        r == swap_plan(first, second, queue_len),
{
    if first == 1 || second == 1 || first == 0 || second == 0 {
        return Err(SwapRefusal::PlayingTrack);
    }
    if first > queue_len || second > queue_len {
        return Err(SwapRefusal::OutOfReach);
    }
    Ok((first - 1, second - 1))
}

/// Removes the track at `index`; a queue without that index is left as it is.
pub fn remove_at<T>(queue: &mut VecDeque<T>, index: usize)
    ensures
        index < old(queue)@.len() ==> final(queue)@ == old(queue)@.remove(index as int),
        index >= old(queue)@.len() ==> final(queue)@ == old(queue)@,
{
    let _ = queue.remove(index);
}

/// Exchanges the tracks at indices `i` and `j`.
pub fn swap_at<T>(queue: &mut VecDeque<T>, i: usize, j: usize)
    requires
        i < old(queue)@.len(),
        j < old(queue)@.len(),
    ensures
        final(queue)@ == swapped(old(queue)@, i as int, j as int),
{
    let ghost q = queue@;
    if i == j {
        assert(swapped(q, i as int, j as int) =~= q);
        return;
    }
    let (lo, hi) = if i < j {
        (i, j)
    } else {
        (j, i)
    };
    let high_track = match queue.remove(hi) {
        Some(t) => t,
        None => {
            proof {
                assert(false);
            }
            return;
        },
    };
    let low_track = match queue.remove(lo) {
        Some(t) => t,
        None => {
            proof {
                assert(false);
            }
            return;
        },
    };
    queue.insert(lo, high_track);
    queue.insert(hi, low_track);
    assert(queue@ =~= swapped(q, i as int, j as int));
}

/// Drops every track after the one that plays.
pub fn clear_upcoming<T>(queue: &mut VecDeque<T>)
    ensures
        final(queue)@ == cleared(old(queue)@),
{
    if queue.len() > 1 {
        queue.truncate(1);
    }
}


/// A remove that goes ahead takes out the track at the position asked for,
/// never the one that plays, and shortens the queue by one.
pub proof fn law_remove_spares_playing_track<T>(queue: Seq<T>, position: usize)
    requires
        queue.len() <= usize::MAX,
        remove_plan(position, queue.len() as usize) is Ok,
    ensures
        ({
            let i = remove_plan(position, queue.len() as usize)->Ok_0;
            &&& 1 <= i < queue.len()
            &&& i == position - 1
            &&& queue.remove(i as int).len() == queue.len() - 1
            &&& queue.remove(i as int)[0] == queue[0]
        }),
{
}

/// A swap that goes ahead exchanges the two positions asked for and never
/// moves the track that plays.
pub proof fn law_swap_spares_playing_track<T>(queue: Seq<T>, first: usize, second: usize)
    requires
        queue.len() <= usize::MAX,
        swap_plan(first, second, queue.len() as usize) is Ok,
    ensures
        ({
            let (i, j) = swap_plan(first, second, queue.len() as usize)->Ok_0;
            &&& 1 <= i < queue.len()
            &&& 1 <= j < queue.len()
            &&& swapped(queue, i as int, j as int)[0] == queue[0]
            &&& swapped(queue, i as int, j as int)[i as int] == queue[j as int]
            &&& swapped(queue, i as int, j as int)[j as int] == queue[i as int]
        }),
{
}

/// Swapping the same two positions twice gives the queue back.
pub proof fn law_swap_twice_restores<T>(queue: Seq<T>, i: int, j: int)
    requires
        0 <= i < queue.len(),
        0 <= j < queue.len(),
    ensures
        swapped(swapped(queue, i, j), i, j) == queue,
{
    assert(swapped(swapped(queue, i, j), i, j) =~= queue);
}

/// A swap keeps the same tracks, as many times each.
pub proof fn law_swap_keeps_tracks<T>(queue: Seq<T>, i: int, j: int)
    requires
        0 <= i < queue.len(),
        0 <= j < queue.len(),
    ensures
        swapped(queue, i, j).to_multiset() == queue.to_multiset(),
{
    broadcast use {
        vstd::seq_lib::to_multiset_update,
        vstd::multiset::group_multiset_properties,
        vstd::multiset::group_multiset_axioms,
        vstd::seq_lib::to_multiset_contains,
    };
    let m = queue.to_multiset();
    let s1 = queue.update(i, queue[j]);
    assert(s1.to_multiset() == m.insert(queue[j]).remove(queue[i]));
    assert(s1[j] == queue[j]);
    assert(m.contains(queue[i]));
    assert(m.insert(queue[j]).remove(queue[i]).insert(queue[i]).remove(queue[j]) =~= m);
}

/// Clearing keeps the track that plays and nothing else.
pub proof fn law_clear_keeps_playing_track<T>(queue: Seq<T>)
    requires
        queue.len() >= 1,
    ensures
        cleared(queue) == seq![queue[0]],
{
    assert(cleared(queue) =~= seq![queue[0]]);
}


/// A remove is refused only for positions 0 and 1 and for positions past
/// the end of the queue; any position from 2 to the queue's length removes
/// the track at that position (index `position - 1`).
pub proof fn law_remove_accepts_every_upcoming_position(position: usize, queue_len: usize)
    ensures
        2 <= position <= queue_len ==> remove_plan(position, queue_len) == Ok::<usize, RemoveRefusal>(
            (position - 1) as usize,
        ),
        position <= 1 ==> remove_plan(position, queue_len) == Err::<usize, RemoveRefusal>(
            RemoveRefusal::PlayingTrack,
        ),
        position > queue_len && position >= 2 ==> remove_plan(position, queue_len) == Err::<
            usize,
            RemoveRefusal,
        >(RemoveRefusal::OutOfReach),
{
}

/// A swap exchanges exactly the two positions the user named (indices
/// `first - 1` and `second - 1`), and it goes ahead for any two positions
/// from 2 to the queue's length.
pub proof fn law_swap_exchanges_named_positions(first: usize, second: usize, queue_len: usize)
    ensures
        swap_plan(first, second, queue_len) is Ok ==> swap_plan(first, second, queue_len)->Ok_0 == (
            (first - 1) as usize,
            (second - 1) as usize,
        ),
        2 <= first <= queue_len && 2 <= second <= queue_len ==> swap_plan(
            first,
            second,
            queue_len,
        ) == Ok::<(usize, usize), SwapRefusal>(((first - 1) as usize, (second - 1) as usize)),
        first <= 1 || second <= 1 ==> swap_plan(first, second, queue_len) == Err::<
            (usize, usize),
            SwapRefusal,
        >(SwapRefusal::PlayingTrack),
{
}

} // verus!
