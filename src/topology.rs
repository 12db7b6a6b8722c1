use vstd::prelude::*;
use crate::window::{MonitorSelection, VideoMode, WindowPosition};

verus! {

/// An attached monitor, as the windowing backend reports it.
pub struct Monitor {
    pub name: Option<String>,
    pub physical_width: u32,
    pub physical_height: u32,
    pub refresh_rate_millihertz: Option<u32>,
    pub video_modes: Vec<VideoMode>,
}

/// The refresh rates of a list of video modes, in order.
pub open spec fn mode_rates(modes: Seq<VideoMode>) -> Seq<u32> {
    modes.map_values(|m: VideoMode| m.refresh_rate_millihertz)
}

/// The refresh rates of every video mode of every monitor, monitor by monitor.
pub open spec fn all_rates(monitors: Seq<Monitor>) -> Seq<u32>
    decreases monitors.len(),
{
    if monitors.len() == 0 {
        Seq::empty()
    } else {
        all_rates(monitors.drop_last()) + mode_rates(monitors.last().video_modes@)
    }
}

/// The largest element of `s`, or `None` when `s` is empty.
pub open spec fn max_of(s: Seq<u32>) -> Option<u32>
    decreases s.len(),
{
    if s.len() == 0 {
        None
    } else {
        match max_of(s.drop_last()) {
            None => Some(s.last()),
            Some(m) => Some(if s.last() >= m { s.last() } else { m }),
        }
    }
}

/// `max_of` is an element of the sequence and bounds every element.
pub proof fn lemma_max_of(s: Seq<u32>)
    ensures
        max_of(s) is None <==> s.len() == 0,
        max_of(s) matches Some(m) ==> s.contains(m) && forall|k: int| 0 <= k < s.len() ==> s[k] <= m,
    decreases s.len(),
{
    if s.len() > 0 {
        let t = s.drop_last();
        lemma_max_of(t);
        assert(s == t.push(s.last()));
        if let Some(m) = max_of(s) {
            assert forall|k: int| 0 <= k < s.len() implies s[k] <= m by {
                if k < t.len() {
                    assert(s[k] == t[k]);
                }
            }
            if m == s.last() {
                assert(s[s.len() - 1] == m);
            } else {
                let i = choose|i: int| 0 <= i < t.len() && t[i] == m;
                assert(s[i] == m);
            }
        }
    }
}

proof fn lemma_max_of_push(s: Seq<u32>, x: u32)
    ensures
        max_of(s.push(x)) == (match max_of(s) {
            None => Some(x),
            Some(m) => Some(if x >= m { x } else { m }),
        }),
{
    assert(s.push(x).drop_last() == s);
}

/// The highest refresh rate among all video modes of all monitors, or `None`
/// when no monitor reports a video mode.
pub fn max_refresh_rate(monitors: &Vec<Monitor>) -> (r: Option<u32>)
    ensures
        r == max_of(all_rates(monitors@)),
        r is None <==> all_rates(monitors@).len() == 0,
        r matches Some(m) ==> all_rates(monitors@).contains(m) && forall|k: int|
            0 <= k < all_rates(monitors@).len() ==> all_rates(monitors@)[k] <= m,
{
    let mut best: Option<u32> = None;
    let mut i: usize = 0;
    while i < monitors.len()
        invariant
            0 <= i <= monitors.len(),
            best == max_of(all_rates(monitors@.take(i as int))),
        decreases monitors.len() - i,
    {
        let modes = &monitors[i].video_modes;
        let ghost done = all_rates(monitors@.take(i as int));
        let mut j: usize = 0;
        while j < modes.len()
            invariant
                0 <= j <= modes.len(),
                best == max_of(done + mode_rates(modes@.take(j as int))),
            decreases modes.len() - j,
        {
            let rate = modes[j].refresh_rate_millihertz;
            proof {
                lemma_max_of_push(done + mode_rates(modes@.take(j as int)), rate);
                assert(modes@.take(j as int + 1) == modes@.take(j as int).push(modes@[j as int]));
                assert(mode_rates(modes@.take(j as int + 1)) =~= mode_rates(modes@.take(j as int)).push(rate));
                assert(done + mode_rates(modes@.take(j as int + 1)) =~= (done + mode_rates(modes@.take(j as int))).push(rate));
            }
            best = match best {
                None => Some(rate),
                Some(m) => Some(if rate >= m { rate } else { m }),
            };
            j = j + 1;
        }
        proof {
            assert(modes@.take(modes@.len() as int) == modes@);
            assert(monitors@.take(i as int + 1).drop_last() == monitors@.take(i as int));
        }
        i = i + 1;
    }
    proof {
        assert(monitors@.take(monitors@.len() as int) == monitors@);
        lemma_max_of(all_rates(monitors@));
    }
    best
}

/// Watches the number of attached monitors and lists the "move to monitor"
/// choices again whenever that number changes.
///
/// Only the count is compared: monitors that are swapped or reordered at an
/// equal count are not noticed.
pub struct MonitorWatch {
    pub known_count: usize,
}

impl MonitorWatch {
    /// A watch that has seen no monitor yet.
    pub fn new() -> (w: MonitorWatch)
        ensures
            w.known_count == 0,
    {
        MonitorWatch { known_count: 0 }
    }

    /// Records the current monitor count. When it differs from the last one
    /// recorded, returns the positions to offer: centred on the primary
    /// monitor, then centred on each monitor by index.
    pub fn refresh(&mut self, count: usize) -> (r: Option<Vec<WindowPosition>>)
        ensures
            final(self).known_count == count,
            count == old(self).known_count ==> r is None,
            count != old(self).known_count ==> (r matches Some(v) && v@ == move_choices(count as nat)),
    {
        if self.known_count == count {
            return None;
        }
        self.known_count = count;
        Some(monitor_positions(count))
    }
}

/// Centred on the primary monitor, then centred on monitors `0 .. count`.
pub open spec fn move_choices(count: nat) -> Seq<WindowPosition> {
    seq![WindowPosition::Centered(MonitorSelection::Primary)] + Seq::new(
        count,
        |i: int| WindowPosition::Centered(MonitorSelection::Index(i as usize)),
    )
}

/// The "move to monitor" positions for a topology of `count` monitors.
pub fn monitor_positions(count: usize) -> (v: Vec<WindowPosition>)
    ensures
        v@ == move_choices(count as nat),
{
    let mut v: Vec<WindowPosition> = Vec::new();
    v.push(WindowPosition::Centered(MonitorSelection::Primary));
    let mut i: usize = 0;
    while i < count
        invariant
            0 <= i <= count,
            v@ == move_choices(i as nat),
        decreases count - i,
    {
        v.push(WindowPosition::Centered(MonitorSelection::Index(i)));
        proof {
            assert(move_choices(i as nat + 1) =~= move_choices(i as nat).push(
                WindowPosition::Centered(MonitorSelection::Index(i)),
            ));
        }
        i = i + 1;
    }
    v
}

} // verus!
