//! System events shown on the island and the queue they wait in.
//!
//! Each sensor tick takes the queued event of highest priority (the earliest
//! one among equals) and keeps the rest in the order they were queued,
//! coalescing volume changes, WeChat hints and application toasts to the
//! newest of each.
use std::collections::VecDeque;
use vstd::prelude::*;

verus! {

pub enum SystemEvent {
    VolumeChange { percent: u8, muted: bool },
    CapsLock { on: bool },
    LowBattery { percent: u8 },
    /// WeChat, from the window scan only.
    WeChat { source: String, kind: String, title: String, body: String },
    /// Any other application, from the notification centre.
    AppToast {
        app_name: String,
        aumid: Option<String>,
        title: String,
        body: String,
        icon_base64: Option<String>,
    },
}

/// Display priority: WeChat 5, toast 4, low battery 3, caps lock 2, volume 1.
pub open spec fn priority_of(e: SystemEvent) -> u8 {
    match e {
        SystemEvent::WeChat { .. } => 5,
        SystemEvent::AppToast { .. } => 4,
        SystemEvent::LowBattery { .. } => 3,
        SystemEvent::CapsLock { .. } => 2,
        SystemEvent::VolumeChange { .. } => 1,
    }
}

pub fn priority(ev: &SystemEvent) -> (p: u8)
    ensures
        p == priority_of(*ev),
{
    match ev {
        SystemEvent::WeChat { .. } => 5,
        SystemEvent::AppToast { .. } => 4,
        SystemEvent::LowBattery { .. } => 3,
        SystemEvent::CapsLock { .. } => 2,
        SystemEvent::VolumeChange { .. } => 1,
    }
}

/// Events of which only one is kept after a tick: 0 volume, 1 WeChat, 2 toast.
pub open spec fn coalesce_class(e: SystemEvent) -> Option<u8> {
    match e {
        SystemEvent::VolumeChange { .. } => Some(0),
        SystemEvent::WeChat { .. } => Some(1),
        SystemEvent::AppToast { .. } => Some(2),
        _ => None,
    }
}

/// The index of the event a tick shows: the first one of the highest
/// priority present (a later event displaces the running choice only with a
/// strictly higher priority).
pub open spec fn shown_index(e: Seq<SystemEvent>) -> Option<int>
    decreases e.len(),
{
    if e.len() == 0 {
        None
    } else {
        let best = shown_index(e.drop_last());
        let bp: int = match best {
            Some(k) => priority_of(e[k]) as int,
            None => 0,
        };
        if priority_of(e.last()) > bp {
            Some(e.len() - 1)
        } else {
            best
        }
    }
}

/// The event a tick shows, if any.
pub open spec fn shown(e: Seq<SystemEvent>) -> Option<SystemEvent> {
    match shown_index(e) {
        Some(k) => Some(e[k]),
        None => None,
    }
}

/// The queue after a tick: the events not shown, in the order they were
/// queued, with only the newest of each coalescing class.
pub open spec fn after_tick(e: Seq<SystemEvent>) -> Seq<SystemEvent> {
    match shown_index(e) {
        Some(k) => coalesce(e.remove(k)),
        None => coalesce(e),
    }
}

/// Whether `s[i]` is kept when coalescing: it has no class, or it is the last
/// (newest) of its class.
pub open spec fn last_of_class(s: Seq<SystemEvent>, i: int) -> bool {
    coalesce_class(s[i]) is None || forall|j: int|
        i < j < s.len() ==> coalesce_class(#[trigger] s[j]) != coalesce_class(s[i])
}

/// `s` keeping only the newest volume change, the newest WeChat hint and the
/// newest toast, and every other event, in order.
pub open spec fn coalesce(s: Seq<SystemEvent>) -> Seq<SystemEvent>
    decreases s.len(),
{
    if s.len() == 0 {
        s
    } else if last_of_class(s, 0) {
        seq![s[0]] + coalesce(s.drop_first())
    } else {
        coalesce(s.drop_first())
    }
}

pub struct EventQueue {
    events: VecDeque<SystemEvent>,
}

impl View for EventQueue {
    type V = Seq<SystemEvent>;

    closed spec fn view(&self) -> Seq<SystemEvent> {
        self.events@
    }
}

/// A new, empty event queue.
pub fn new_queue() -> (q: EventQueue)
    ensures
        q@ == Seq::<SystemEvent>::empty(),
{
    EventQueue { events: VecDeque::new() }
}

impl EventQueue {
    pub fn push_back(&mut self, ev: SystemEvent)
        ensures
            final(self)@ == old(self)@.push(ev),
    {
        self.events.push_back(ev);
    }

    pub fn len(&self) -> (n: usize)
        ensures
            n == self@.len(),
    {
        self.events.len()
    }

    /// One tick: removes and returns the event to show, and keeps the rest in
    /// their order, only the newest volume change, WeChat hint and toast.
    pub fn take_next(&mut self) -> (best: Option<SystemEvent>)
        ensures
            best == shown(old(self)@),
            final(self)@ == after_tick(old(self)@),
    {
        let ghost all = self.events@;
        let n0 = self.events.len();
        let mut bk: Option<usize> = None;
        let mut bp: u8 = 0;
        let mut i: usize = 0;
        while i < n0
            invariant
                n0 == all.len(),
                self.events@ == all,
                i <= n0,
                match bk {
                    Some(k) => shown_index(all.take(i as int)) == Some(k as int) && k < i && bp
                        == priority_of(all[k as int]),
                    None => shown_index(all.take(i as int)) is None && bp == 0,
                },
            decreases n0 - i,
        {
            proof {
                assert(all.take(i + 1).drop_last() =~= all.take(i as int));
                assert(all.take(i + 1).last() == all[i as int]);
                if let Some(k) = bk {
                    assert(all.take(i + 1)[k as int] == all[k as int]);
                }
            }
            let p = priority(&self.events[i]);
            if p > bp {
                bk = Some(i);
                bp = p;
            }
            i = i + 1;
        }
        proof {
            assert(all.take(n0 as int) =~= all);
        }
        let best = match bk {
            Some(k) => self.events.remove(k),
            None => None,
        };
        let mut rest: VecDeque<SystemEvent> = VecDeque::new();
        std::mem::swap(&mut rest, &mut self.events);
        let ghost set_aside = rest@;
        let mut seen_vol = false;
        let mut seen_wx = false;
        let mut seen_toast = false;
        let n = rest.len();
        let mut i: usize = n;
        let mut rest_iter = rest;
        assert(set_aside.take(n as int) =~= set_aside);
        assert(set_aside.skip(n as int) =~= Seq::<SystemEvent>::empty());
        while i > 0
            invariant
                n == set_aside.len(),
                i <= n,
                rest_iter@ == set_aside.take(i as int),
                self.events@ == coalesce(set_aside.skip(i as int)),
                seen_vol == exists|j: int| i <= j < n && coalesce_class(#[trigger] set_aside[j]) == Some(0u8),
                seen_wx == exists|j: int| i <= j < n && coalesce_class(#[trigger] set_aside[j]) == Some(1u8),
                seen_toast == exists|j: int| i <= j < n && coalesce_class(#[trigger] set_aside[j]) == Some(2u8),
            decreases i,
        {
            let ev = rest_iter.pop_back().unwrap();
            i -= 1;
            let ghost t = set_aside.skip(i as int);
            proof {
                assert(set_aside.take(i + 1).drop_last() =~= set_aside.take(i as int));
                assert(set_aside.take(i + 1).last() == set_aside[i as int]);
                assert(t.drop_first() =~= set_aside.skip(i + 1));
                assert(t[0] == ev);
                assert forall|j: int| 0 < j < t.len() implies t[j] == set_aside[i + j] by {}
            }
            let keep = match &ev {
                SystemEvent::VolumeChange { .. } => !seen_vol,
                SystemEvent::WeChat { .. } => !seen_wx,
                SystemEvent::AppToast { .. } => !seen_toast,
                _ => true,
            };
            proof {
                if keep && coalesce_class(ev) is Some {
                    assert forall|j: int| 0 < j < t.len() implies coalesce_class(#[trigger] t[j])
                        != coalesce_class(t[0]) by {
                        assert(t[j] == set_aside[i + j]);
                    }
                } else if !keep {
                    let w = choose|w: int|
                        i + 1 <= w < n && coalesce_class(#[trigger] set_aside[w]) == coalesce_class(ev);
                    assert(t[w - i] == set_aside[w]);
                }
            }
            match &ev {
                SystemEvent::VolumeChange { .. } => {
                    seen_vol = true;
                },
                SystemEvent::WeChat { .. } => {
                    seen_wx = true;
                },
                SystemEvent::AppToast { .. } => {
                    seen_toast = true;
                },
                _ => {},
            }
            if keep {
                self.events.push_front(ev);
            }
        }
        proof {
            assert(set_aside.skip(0) =~= set_aside);
        }
        best
    }
}


/// Law: each tick shows an event of the highest priority present in the queue,
/// and among those the one queued first; it shows nothing only when the queue is empty.
pub proof fn law_shown_event_is_earliest_of_highest_priority(e: Seq<SystemEvent>)
    ensures
        shown_index(e) is None <==> e.len() == 0,
        shown_index(e) matches Some(k) ==> 0 <= k < e.len() && (forall|j: int|
            0 <= j < e.len() ==> priority_of(#[trigger] e[j]) <= priority_of(e[k])) && (forall|j: int|
            0 <= j < k ==> priority_of(#[trigger] e[j]) < priority_of(e[k])),
    decreases e.len(),
{
    if e.len() > 0 {
        let d = e.drop_last();
        law_shown_event_is_earliest_of_highest_priority(d);
        assert forall|j: int| 0 <= j < d.len() implies #[trigger] e[j] == d[j] by {}
        match shown_index(d) {
            Some(k) => {
                assert(e[k] == d[k]);
            },
            None => {},
        }
    }
}

proof fn lemma_removed_from(e: Seq<SystemEvent>, k: int, x: SystemEvent)
    requires
        0 <= k < e.len(),
        e.remove(k).contains(x),
    ensures
        e.contains(x),
{
    let r = e.remove(k);
    let w = choose|w: int| 0 <= w < r.len() && r[w] == x;
    if w < k {
        assert(e[w] == r[w]);
    } else {
        assert(e[w + 1] == r[w]);
    }
}

proof fn lemma_newest_not_shown_is_last(e: Seq<SystemEvent>, k: int, j: int)
    requires
        0 <= k < e.len(),
        0 <= j < e.len(),
        j != k,
        coalesce_class(e[j]) is None || forall|w: int|
            j < w < e.len() && w != k ==> coalesce_class(#[trigger] e[w]) != coalesce_class(e[j]),
    ensures
        ({
            let jj = if j < k { j } else { j - 1 };
            &&& 0 <= jj < e.remove(k).len()
            &&& e.remove(k)[jj] == e[j]
            &&& last_of_class(e.remove(k), jj)
        }),
{
    let r = e.remove(k);
    let jj = if j < k { j } else { j - 1 };
    assert(r[jj] == e[j]);
    if coalesce_class(e[j]) is Some {
        assert forall|v: int| jj < v < r.len() implies coalesce_class(#[trigger] r[v]) != coalesce_class(
            r[jj],
        ) by {
            if v < k {
                assert(r[v] == e[v]);
            } else {
                assert(r[v] == e[v + 1]);
            }
        }
    }
}

/// Law: a tick shows the first event of the highest priority and keeps every
/// other event whose class is not coalesced, and of each coalescing class
/// (volume, WeChat, toast) the newest event not shown, in the order they were
/// queued; it keeps at most one event of each such class and nothing new.
pub proof fn law_tick_keeps_the_newest(e: Seq<SystemEvent>)
    ensures
        forall|i: int, j: int|
            0 <= i < j < after_tick(e).len() && coalesce_class(after_tick(e)[i]) is Some
                ==> coalesce_class(#[trigger] after_tick(e)[i]) != coalesce_class(#[trigger] after_tick(e)[j]),
        forall|i: int| 0 <= i < after_tick(e).len() ==> e.contains(#[trigger] after_tick(e)[i]),
        forall|j: int|
            0 <= j < e.len() && shown_index(e) != Some(j) && (coalesce_class(e[j]) is None || forall|w: int|
                j < w < e.len() && shown_index(e) != Some(w) ==> coalesce_class(#[trigger] e[w])
                    != coalesce_class(e[j])) ==> after_tick(e).contains(#[trigger] e[j]),
{
    law_shown_event_is_earliest_of_highest_priority(e);
    match shown_index(e) {
        Some(k) => {
            let r = e.remove(k);
            let t = coalesce(r);
            assert(after_tick(e) == t);
            law_coalesce(r);
            assert forall|i: int| 0 <= i < t.len() implies e.contains(#[trigger] t[i]) by {
                lemma_removed_from(e, k, t[i]);
            }
            assert forall|j: int|
                0 <= j < e.len() && Some(k) != Some(j) && (coalesce_class(e[j]) is None || forall|w: int|
                    j < w < e.len() && Some(k) != Some(w) ==> coalesce_class(#[trigger] e[w])
                        != coalesce_class(e[j])) implies t.contains(#[trigger] e[j]) by {
                assert(coalesce_class(e[j]) is None || forall|w: int|
                    j < w < e.len() && w != k ==> coalesce_class(#[trigger] e[w]) != coalesce_class(e[j]));
                lemma_newest_not_shown_is_last(e, k, j);
            }
        },
        None => {
            law_coalesce(e);
        },
    }
}

/// Law: after a tick the queue holds at most one event of each coalescing class
/// (volume, WeChat, toast), and that one is the newest of its class; it keeps
/// every caps-lock and low-battery event it was given, and holds nothing that
/// was not given to it.
#[verifier::rlimit(50)]
pub proof fn law_coalesce(s: Seq<SystemEvent>)
    ensures
        forall|i: int, j: int|
            0 <= i < j < coalesce(s).len() && coalesce_class(coalesce(s)[i]) is Some
                ==> coalesce_class(#[trigger] coalesce(s)[i]) != coalesce_class(#[trigger] coalesce(s)[j]),
        forall|x: SystemEvent|
            coalesce_class(x) is None ==> #[trigger] coalesce(s).to_multiset().count(x)
                == s.to_multiset().count(x),
        forall|i: int| 0 <= i < coalesce(s).len() ==> s.contains(#[trigger] coalesce(s)[i]),
        forall|j: int|
            0 <= j < s.len() && last_of_class(s, j) ==> coalesce(s).contains(#[trigger] s[j]),
    decreases s.len(),
{
    broadcast use vstd::seq_lib::group_to_multiset_ensures;

    if s.len() == 0 {
    } else {
        let d = s.drop_first();
        law_coalesce(d);
        let x = s[0];
        let cd = coalesce(d);
        assert(seq![x] + d =~= s);
        vstd::seq_lib::lemma_multiset_commutative(seq![x], d);
        assert(seq![x].to_multiset() =~= vstd::multiset::Multiset::<SystemEvent>::empty().insert(x)) by {
            assert(seq![x] =~= Seq::<SystemEvent>::empty().push(x));
        }
        assert forall|i: int| 0 <= i < cd.len() implies s.contains(#[trigger] cd[i]) by {
            let w = choose|w: int| 0 <= w < d.len() && d[w] == cd[i];
            assert(s[w + 1] == d[w]);
        }
        assert forall|j: int| 1 <= j < s.len() && last_of_class(s, j) implies cd.contains(#[trigger] s[j]) by {
            assert(d[j - 1] == s[j]);
            if coalesce_class(s[j]) is Some {
                assert forall|k: int| j - 1 < k < d.len() implies coalesce_class(#[trigger] d[k])
                    != coalesce_class(d[j - 1]) by {
                    assert(d[k] == s[k + 1]);
                }
            }
            assert(last_of_class(d, j - 1));
        }
        if last_of_class(s, 0) {
            let c = seq![x] + cd;
            assert(coalesce(s) == c);
            vstd::seq_lib::lemma_multiset_commutative(seq![x], cd);
            assert forall|i: int, j: int|
                0 <= i < j < c.len() && coalesce_class(c[i]) is Some implies coalesce_class(
                #[trigger] c[i]) != coalesce_class(#[trigger] c[j]) by {
                if i == 0 {
                    assert(c[j] == cd[j - 1]);
                    let w = choose|w: int| 0 <= w < d.len() && d[w] == cd[j - 1];
                    assert(s[w + 1] == d[w]);
                } else {
                    assert(c[i] == cd[i - 1] && c[j] == cd[j - 1]);
                }
            }
            assert forall|i: int| 0 <= i < c.len() implies s.contains(#[trigger] c[i]) by {
                if i == 0 {
                    assert(s[0] == x);
                } else {
                    assert(c[i] == cd[i - 1]);
                }
            }
            assert forall|j: int| 0 <= j < s.len() && last_of_class(s, j) implies c.contains(#[trigger] s[j]) by {
                if j == 0 {
                    assert(c[0] == x);
                } else {
                    let w = choose|w: int| 0 <= w < cd.len() && cd[w] == s[j];
                    assert(c[w + 1] == cd[w]);
                }
            }
        } else {
            assert(coalesce(s) == cd);
            assert(coalesce_class(x) is Some);
        }
    }
}

} // verus!
