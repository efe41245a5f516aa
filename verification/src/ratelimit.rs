//! The per-client request limit: forty requests per client in a one-second
//! window.

use crate::text::str_equals;
use vstd::prelude::*;

verus! {

/// A client's window: when it started (milliseconds) and how many requests it
/// has counted.
pub type Window = (u64, u32);

/// Milliseconds from `started` to `now`, zero when `now` is earlier.
pub open spec fn elapsed(now: u64, started: u64) -> int {
    if now >= started {
        now - started
    } else {
        0
    }
}

/// The windows still kept at `now`: those started less than two seconds ago.
pub open spec fn recent(m: Map<Seq<char>, Window>, now: u64) -> Map<Seq<char>, Window> {
    Map::new(|k: Seq<char>| m.dom().contains(k) && elapsed(now, m[k].0) < 2000, |k: Seq<char>| m[k])
}

/// A client's window after one more request at `now`: a missing window, or
/// one that started a second or more ago, starts afresh at `now`; the request
/// is counted (the count stays at its maximum once there).
pub open spec fn counted(prev: Option<Window>, now: u64) -> Window {
    let w: Window = match prev {
        Some(w) => w,
        None => (now, 0u32),
    };
    let fresh: Window = if elapsed(now, w.0) >= 1000 {
        (now, 0u32)
    } else {
        w
    };
    (fresh.0, if fresh.1 < u32::MAX {
        (fresh.1 + 1) as u32
    } else {
        fresh.1
    })
}

/// The windows after a request of `client` at `now`.
pub open spec fn after_request(m: Map<Seq<char>, Window>, client: Seq<char>, now: u64) -> Map<Seq<char>, Window> {
    let r = recent(m, now);
    r.insert(
        client,
        counted(
            if r.dom().contains(client) {
                Some(r[client])
            } else {
                None
            },
            now,
        ),
    )
}

/// Whether that request is refused: it is beyond the fortieth of its window.
pub open spec fn request_denied(m: Map<Seq<char>, Window>, client: Seq<char>, now: u64) -> bool {
    after_request(m, client, now)[client].1 > 40
}

/// The windows of a list of entries (later entries win).
pub open spec fn entries_map(es: Seq<(Seq<char>, u64, u32)>) -> Map<Seq<char>, Window>
    decreases es.len(),
{
    if es.len() == 0 {
        Map::empty()
    } else {
        entries_map(es.drop_last()).insert(es.last().0, (es.last().1, es.last().2))
    }
}

/// The text view of stored entries.
pub open spec fn entry_views(es: Seq<(String, u64, u32)>) -> Seq<(Seq<char>, u64, u32)> {
    es.map_values(|e: (String, u64, u32)| (e.0@, e.1, e.2))
}

/// The per-client request counts.
pub struct RateLimiter {
    entries: Vec<(String, u64, u32)>,
}

proof fn lemma_entries_dom(es: Seq<(Seq<char>, u64, u32)>, k: Seq<char>)
    ensures
        entries_map(es).dom().contains(k) <==> exists|i: int| 0 <= i < es.len() && #[trigger] es[i].0 == k,
    decreases es.len(),
{
    if es.len() > 0 {
        lemma_entries_dom(es.drop_last(), k);
        if exists|i: int| 0 <= i < es.len() && #[trigger] es[i].0 == k {
            let i = choose|i: int| 0 <= i < es.len() && #[trigger] es[i].0 == k;
            if i < es.len() - 1 {
                assert(es.drop_last()[i].0 == k);
            }
        }
        if exists|i: int| 0 <= i < es.drop_last().len() && #[trigger] es.drop_last()[i].0 == k {
            let i = choose|i: int| 0 <= i < es.drop_last().len() && #[trigger] es.drop_last()[i].0 == k;
            assert(es[i].0 == k);
        }
    }
}

impl RateLimiter {
    /// No two entries are for the same client.
    #[verifier::type_invariant]
    spec fn wf(&self) -> bool {
        let es = entry_views(self.entries@);
        forall|i: int, j: int| 0 <= i < j < es.len() ==> es[i].0 != es[j].0
    }

    /// The window of every client.
    pub closed spec fn view(&self) -> Map<Seq<char>, Window> {
        entries_map(entry_views(self.entries@))
    }

    /// No client has a window yet.
    pub fn new() -> (r: RateLimiter)
        ensures
            r.view() == Map::<Seq<char>, Window>::empty(),
    {
        let r = RateLimiter { entries: Vec::new() };
        assert(entry_views(r.entries@) =~= Seq::<(Seq<char>, u64, u32)>::empty());
        r
    }

    /// Counts a request of `client` at `now` (milliseconds on a monotonic
    /// clock) and answers whether it is refused.
    pub fn check(&mut self, client: &str, now: u64) -> (denied: bool)
        ensures
            final(self).view() == after_request(old(self).view(), client@, now),
            denied == request_denied(old(self).view(), client@, now),
    {
        proof {
            use_type_invariant(&*self);
        }
        let ghost before = self.view();
        let mut old_entries: Vec<(String, u64, u32)> = Vec::new();
        std::mem::swap(&mut old_entries, &mut self.entries);
        let ghost olds = entry_views(old_entries@);
        let mut kept: Vec<(String, u64, u32)> = Vec::new();
        let mut found: Option<usize> = None;
        let mut i: usize = 0;
        while i < old_entries.len()
            invariant
                i <= old_entries@.len(),
                olds == entry_views(old_entries@),
                forall|a: int, b: int| 0 <= a < b < olds.len() ==> olds[a].0 != olds[b].0,
                forall|a: int, b: int|
                    0 <= a < b < entry_views(kept@).len() ==> entry_views(kept@)[a].0 != entry_views(
                        kept@,
                    )[b].0,
                forall|a: int|
                    0 <= a < entry_views(kept@).len() ==> exists|b: int|
                        0 <= b < i && #[trigger] entry_views(kept@)[a] == olds[b],
                entries_map(entry_views(kept@)) == recent(entries_map(olds.subrange(0, i as int)), now),
                match found {
                    Some(f) => f < kept@.len() && entry_views(kept@)[f as int].0 == client@,
                    None => forall|a: int| 0 <= a < kept@.len() ==> entry_views(kept@)[a].0 != client@,
                },
            decreases old_entries.len() - i,
        {
            let e = &old_entries[i];
            let age: u64 = if now >= e.1 { now - e.1 } else { 0 };
            let ghost kept_before = entry_views(kept@);
            proof {
                let p = olds.subrange(0, i + 1);
                assert(p.drop_last() =~= olds.subrange(0, i as int));
                assert(p.last() == olds[i as int]);
                lemma_entries_dom(olds.subrange(0, i as int), olds[i as int].0);
                assert(!entries_map(olds.subrange(0, i as int)).dom().contains(olds[i as int].0)) by {
                    if entries_map(olds.subrange(0, i as int)).dom().contains(olds[i as int].0) {
                        let j = choose|j: int|
                            0 <= j < olds.subrange(0, i as int).len() && #[trigger] olds.subrange(
                                0,
                                i as int,
                            )[j].0 == olds[i as int].0;
                        assert(olds[j].0 == olds[i as int].0);
                    }
                }
            }
            if age < 2000 {
                if str_equals(e.0.as_str(), client) {
                    found = Some(kept.len());
                }
                kept.push((e.0.clone(), e.1, e.2));
                proof {
                    let kv = entry_views(kept@);
                    assert(kv.drop_last() =~= kept_before);
                    assert(kv.last() == olds[i as int]);
                    assert(olds[i as int].0 == e.0@);
                    assert forall|a: int, b: int| 0 <= a < b < kv.len() implies kv[a].0 != kv[b].0 by {
                        if b == kv.len() - 1 {
                            assert(kept_before[a] == kv[a]);
                            let c = choose|c: int| 0 <= c < i && #[trigger] kept_before[a] == olds[c];
                            assert(kv[a] == olds[c]);
                            assert(olds[c].0 != olds[i as int].0);
                        } else {
                            assert(kept_before[a] == kv[a]);
                            assert(kept_before[b] == kv[b]);
                        }
                    }
                    match found {
                        Some(f) => {
                            assert(kv[f as int] == kept_before[f as int] || f == kv.len() - 1);
                        },
                        None => {
                            assert forall|a: int| 0 <= a < kept@.len() implies kv[a].0 != client@ by {
                                assert(a < kv.len() - 1 ==> kv[a] == kept_before[a]);
                            }
                        },
                    }
                    assert forall|a: int| 0 <= a < kv.len() implies exists|b: int|
                        0 <= b < i + 1 && #[trigger] kv[a] == olds[b] by {
                        if a < kv.len() - 1 {
                            let c = choose|c: int| 0 <= c < i && #[trigger] kept_before[a] == olds[c];
                            assert(kv[a] == olds[c]);
                        } else {
                            assert(kv[a] == olds[i as int]);
                        }
                    }
                    assert(entries_map(kv) =~= recent(entries_map(olds.subrange(0, i + 1)), now));
                }
            } else {
                proof {
                    let kv = entry_views(kept@);
                    assert(kv =~= kept_before);
                    assert forall|a: int| 0 <= a < kv.len() implies exists|b: int|
                        0 <= b < i + 1 && #[trigger] kv[a] == olds[b] by {
                        let c = choose|c: int| 0 <= c < i && #[trigger] kept_before[a] == olds[c];
                        assert(kv[a] == olds[c]);
                    }
                    assert(entries_map(kv) =~= recent(entries_map(olds.subrange(0, i + 1)), now));
                }
            }
            i = i + 1;
        }
        assert(olds.subrange(0, olds.len() as int) =~= olds);
        let ghost r = recent(before, now);
        assert(entries_map(entry_views(kept@)) == r);
        let count: u32;
        match found {
            Some(f) => {
                let e = &kept[f];
                let age: u64 = if now >= e.1 { now - e.1 } else { 0 };
                let (start, c) = if age >= 1000 { (now, 0u32) } else { (e.1, e.2) };
                count = if c < u32::MAX { c + 1 } else { c };
                let name = e.0.clone();
                let ghost kv = entry_views(kept@);
                proof {
                    assert(r.dom().contains(client@)) by {
                        lemma_entries_dom(kv, client@);
                        assert(kv[f as int].0 == client@);
                    }
                    lemma_entries_value(kv, f as int);
                }
                kept.set(f, (name, start, count));
                proof {
                    let kv2 = entry_views(kept@);
                    assert(kv2 =~= kv.update(f as int, (client@, start, count)));
                    lemma_entries_update(kv, f as int, (client@, start, count));
                    assert forall|a: int, b: int| 0 <= a < b < kv2.len() implies kv2[a].0 != kv2[b].0 by {
                        assert(kv2[a].0 == kv[a].0);
                        assert(kv2[b].0 == kv[b].0);
                    }
                }
            },
            None => {
                let (start, c) = (now, 0u32);
                count = 1;
                let ghost kv = entry_views(kept@);
                proof {
                    lemma_entries_dom(kv, client@);
                    assert(!r.dom().contains(client@));
                }
                kept.push((client.to_owned(), start, count));
                proof {
                    let kv2 = entry_views(kept@);
                    assert(kv2.drop_last() =~= kv);
                    assert forall|a: int, b: int| 0 <= a < b < kv2.len() implies kv2[a].0 != kv2[b].0 by {
                        assert(kv2[a] == kv[a]);
                        if b < kv.len() {
                            assert(kv2[b] == kv[b]);
                        }
                    }
                }
            },
        }
        self.entries = kept;
        proof {
            let kv = entry_views(self.entries@);
            assert(self.view() =~= after_request(before, client@, now));
        }
        count > 40
    }
}

proof fn lemma_entries_value(es: Seq<(Seq<char>, u64, u32)>, i: int)
    requires
        0 <= i < es.len(),
        forall|a: int, b: int| 0 <= a < b < es.len() ==> es[a].0 != es[b].0,
    ensures
        entries_map(es)[es[i].0] == (es[i].1, es[i].2),
    decreases es.len(),
{
    if i < es.len() - 1 {
        lemma_entries_value(es.drop_last(), i);
    }
}

proof fn lemma_entries_update(es: Seq<(Seq<char>, u64, u32)>, i: int, e: (Seq<char>, u64, u32))
    requires
        0 <= i < es.len(),
        e.0 == es[i].0,
        forall|a: int, b: int| 0 <= a < b < es.len() ==> es[a].0 != es[b].0,
    ensures
        entries_map(es.update(i, e)) == entries_map(es).insert(e.0, (e.1, e.2)),
    decreases es.len(),
{
    if i == es.len() - 1 {
        assert(es.update(i, e).drop_last() =~= es.drop_last());
        assert(entries_map(es.update(i, e)) =~= entries_map(es).insert(e.0, (e.1, e.2)));
    } else {
        lemma_entries_update(es.drop_last(), i, e);
        assert(es.update(i, e).drop_last() =~= es.drop_last().update(i, e));
        assert(es.last().0 != e.0);
        assert(entries_map(es.update(i, e)) =~= entries_map(es).insert(e.0, (e.1, e.2)));
    }
}

} // verus!

verus! {

/// Law: one client's requests leave another client's answers as they were
/// (with time moving forward).
pub proof fn lemma_clients_are_independent(
    m: Map<Seq<char>, Window>,
    a: Seq<char>,
    b: Seq<char>,
    now1: u64,
    now2: u64,
)
    requires
        a != b,
        now1 <= now2,
    ensures
        after_request(after_request(m, a, now1), b, now2)[b] == after_request(m, b, now2)[b],
        request_denied(after_request(m, a, now1), b, now2) == request_denied(m, b, now2),
{
    let s = after_request(m, a, now1);
    let r1 = recent(s, now2);
    let r2 = recent(m, now2);
    if m.dom().contains(b) {
        assert(elapsed(now1, m[b].0) <= elapsed(now2, m[b].0));
    }
    assert(r1.dom().contains(b) == r2.dom().contains(b));
    if r1.dom().contains(b) {
        assert(r1[b] == r2[b]);
    }
}

/// `k` requests of one client at the same instant.
pub open spec fn repeated(m: Map<Seq<char>, Window>, client: Seq<char>, now: u64, k: nat) -> Map<Seq<char>, Window>
    decreases k,
{
    if k == 0 {
        m
    } else {
        after_request(repeated(m, client, now, (k - 1) as nat), client, now)
    }
}

/// Law: a client without a current window gets forty requests in it; the
/// k-th request of the window is refused exactly when k is above forty.
pub proof fn lemma_forty_per_window(m: Map<Seq<char>, Window>, client: Seq<char>, now: u64, k: nat)
    requires
        !recent(m, now).dom().contains(client),
        1 <= k <= u32::MAX,
    ensures
        repeated(m, client, now, k)[client] == (now, k as u32),
        request_denied(repeated(m, client, now, (k - 1) as nat), client, now) == (k > 40),
    decreases k,
{
    let prev = repeated(m, client, now, (k - 1) as nat);
    if k > 1 {
        lemma_forty_per_window(m, client, now, (k - 1) as nat);
        assert(prev.dom().contains(client));
        assert(recent(prev, now).dom().contains(client));
        assert(recent(prev, now)[client] == (now, (k - 1) as u32));
        assert(counted(Some((now, (k - 1) as u32)), now) == (now, k as u32));
    } else {
        assert(prev == m);
        assert(counted(None, now) == (now, 1u32));
    }
    assert(repeated(m, client, now, k) == after_request(prev, client, now));
}

} // verus!
