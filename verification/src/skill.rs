//! The immutable skill package as it is read from the source repository, and
//! its validation.

use crate::json::{keys_increasing, lemma_text_less_irreflexive, pair_views, string_views, text_less};
use crate::text::{chars_of, is_valid_text, str_equals, valid_text};
use crate::validate::{is_secret_reference, valid_secret_reference};
use vstd::prelude::*;

verus! {

/// The package fields committed in the source repository.
pub struct SourceSkill {
    pub id: String,
    pub name: String,
    pub version: String,
    pub summary: String,
    pub targets: Vec<String>,
    pub owner: String,
    pub secrets: Vec<String>,
    pub instructions: String,
    /// Adapter instructions per target agent.
    pub adapters: Adapters,
    pub repositories: Vec<String>,
    pub pilot_repositories: Vec<String>,
}

/// Adapter instructions per target agent: the entries of a map from agent
/// name to text, in increasing key order, so no agent occurs twice.
pub struct Adapters {
    entries: Vec<(String, String)>,
}

impl Adapters {
    /// The entries are in increasing key order.
    #[verifier::type_invariant]
    spec fn in_key_order(&self) -> bool {
        keys_increasing(pair_views(self.entries@))
    }

    /// The entries, in increasing key order.
    pub closed spec fn entries_view(&self) -> Seq<(Seq<char>, Seq<char>)> {
        if keys_increasing(pair_views(self.entries@)) {
            pair_views(self.entries@)
        } else {
            Seq::empty()
        }
    }

    /// The entries of any adapters are in increasing key order.
    pub proof fn lemma_in_key_order(&self)
        ensures
            keys_increasing(self.entries_view()),
    {
    }

    /// Adapters from the entries of a map, which come in increasing key
    /// order; `None` for entries out of that order.
    pub fn from_entries(entries: Vec<(String, String)>) -> (out: Option<Adapters>)
        ensures
            keys_increasing(pair_views(entries@)) ==> (out matches Some(a) && a.entries_view()
                == pair_views(entries@)),
            !keys_increasing(pair_views(entries@)) ==> out is None,
    {
        if keys_in_order(entries.as_slice()) {
            Some(Adapters { entries })
        } else {
            None
        }
    }

    /// The entries, in increasing key order.
    pub fn entries(&self) -> (out: &[(String, String)])
        ensures
            pair_views(out@) == self.entries_view(),
    {
        proof {
            use_type_invariant(self);
        }
        self.entries.as_slice()
    }
}

/// No two items are equal.
pub open spec fn distinct(s: Seq<Seq<char>>) -> bool {
    forall|i: int, j: int| 0 <= i < j < s.len() ==> s[i] != s[j]
}

/// Every item is valid text of at most `max` bytes.
pub open spec fn all_valid_text(s: Seq<Seq<char>>, max: nat) -> bool {
    forall|i: int| 0 <= i < s.len() ==> is_valid_text(#[trigger] s[i], max)
}

impl SourceSkill {
    pub open spec fn targets_view(&self) -> Seq<Seq<char>> {
        string_views(self.targets@)
    }

    pub open spec fn secrets_view(&self) -> Seq<Seq<char>> {
        string_views(self.secrets@)
    }

    pub open spec fn repositories_view(&self) -> Seq<Seq<char>> {
        string_views(self.repositories@)
    }

    pub open spec fn pilots_view(&self) -> Seq<Seq<char>> {
        string_views(self.pilot_repositories@)
    }

    pub open spec fn adapters_view(&self) -> Seq<(Seq<char>, Seq<char>)> {
        self.adapters.entries_view()
    }

    /// The package rules: bounded non-blank text fields; one to eight distinct
    /// targets; one to thirty-two distinct assigned repositories; distinct pilot
    /// repositories, at least one, all of them assigned; at most sixteen secret
    /// reference names; one adapter for each target and no other.
    pub open spec fn is_valid(&self) -> bool {
        let t = self.targets_view();
        let r = self.repositories_view();
        let p = self.pilots_view();
        let s = self.secrets_view();
        let a = self.adapters_view();
        &&& is_valid_text(self.id@, 120)
        &&& is_valid_text(self.name@, 100)
        &&& is_valid_text(self.version@, 40)
        &&& is_valid_text(self.summary@, 500)
        &&& is_valid_text(self.owner@, 100)
        &&& is_valid_text(self.instructions@, 20_000)
        &&& 1 <= t.len() <= 8
        &&& distinct(t)
        &&& all_valid_text(t, 80)
        &&& 1 <= r.len() <= 32
        &&& distinct(r)
        &&& all_valid_text(r, 160)
        &&& 1 <= p.len() <= r.len()
        &&& forall|i: int| 0 <= i < p.len() ==> r.contains(#[trigger] p[i])
        &&& distinct(p)
        &&& s.len() <= 16
        &&& forall|i: int| 0 <= i < s.len() ==> is_secret_reference(#[trigger] s[i])
        &&& a.len() == t.len()
        &&& forall|i: int| 0 <= i < a.len() ==> t.contains(#[trigger] a[i].0)
        &&& forall|i: int| 0 <= i < a.len() ==> is_valid_text(#[trigger] a[i].1, 20_000)
    }
}

/// Whether `items` holds a string equal to `s`.
pub fn contains_string(items: &[String], s: &str) -> (b: bool)
    ensures
        b == string_views(items@).contains(s@),
{
    let mut i: usize = 0;
    while i < items.len()
        invariant
            i <= items@.len(),
            forall|j: int| 0 <= j < i ==> items@[j]@ != s@,
        decreases items.len() - i,
    {
        if str_equals(items[i].as_str(), s) {
            assert(string_views(items@)[i as int] == s@);
            return true;
        }
        i = i + 1;
    }
    assert forall|j: int| 0 <= j < string_views(items@).len() implies string_views(items@)[j]
        != s@ by {
        assert(string_views(items@)[j] == items@[j]@);
    }
    false
}

fn distinct_strings(items: &[String]) -> (b: bool)
    ensures
        b == distinct(string_views(items@)),
{
    let ghost v = string_views(items@);
    let mut j: usize = 0;
    while j < items.len()
        invariant
            j <= items@.len(),
            v == string_views(items@),
            forall|a: int, b: int| 0 <= a < b < j ==> v[a] != v[b],
        decreases items.len() - j,
    {
        let mut i: usize = 0;
        while i < j
            invariant
                i <= j < items@.len(),
                v == string_views(items@),
                forall|a: int, b: int| 0 <= a < b < j ==> v[a] != v[b],
                forall|a: int| 0 <= a < i ==> v[a] != v[j as int],
            decreases j - i,
        {
            if str_equals(items[i].as_str(), items[j].as_str()) {
                assert(v[i as int] == v[j as int]);
                return false;
            }
            i = i + 1;
        }
        j = j + 1;
    }
    true
}

fn all_valid_texts(items: &[String], max: usize) -> (b: bool)
    ensures
        b == all_valid_text(string_views(items@), max as nat),
{
    let ghost v = string_views(items@);
    let mut i: usize = 0;
    while i < items.len()
        invariant
            i <= items@.len(),
            v == string_views(items@),
            forall|a: int| 0 <= a < i ==> is_valid_text(#[trigger] v[a], max as nat),
        decreases items.len() - i,
    {
        if !valid_text(items[i].as_str(), max) {
            assert(!is_valid_text(v[i as int], max as nat));
            return false;
        }
        i = i + 1;
    }
    true
}

fn all_secret_references(items: &[String]) -> (b: bool)
    ensures
        b == forall|i: int|
            0 <= i < string_views(items@).len() ==> is_secret_reference(
                #[trigger] string_views(items@)[i],
            ),
{
    let ghost v = string_views(items@);
    let mut i: usize = 0;
    while i < items.len()
        invariant
            i <= items@.len(),
            v == string_views(items@),
            forall|a: int| 0 <= a < i ==> is_secret_reference(#[trigger] v[a]),
        decreases items.len() - i,
    {
        if !valid_secret_reference(items[i].as_str()) {
            assert(!is_secret_reference(v[i as int]));
            return false;
        }
        i = i + 1;
    }
    true
}

fn all_contained(items: &[String], within: &[String]) -> (b: bool)
    ensures
        b == forall|i: int|
            0 <= i < string_views(items@).len() ==> string_views(within@).contains(
                #[trigger] string_views(items@)[i],
            ),
{
    let ghost v = string_views(items@);
    let mut i: usize = 0;
    while i < items.len()
        invariant
            i <= items@.len(),
            v == string_views(items@),
            forall|a: int| 0 <= a < i ==> string_views(within@).contains(#[trigger] v[a]),
        decreases items.len() - i,
    {
        if !contains_string(within, items[i].as_str()) {
            assert(!string_views(within@).contains(v[i as int]));
            return false;
        }
        i = i + 1;
    }
    true
}

fn adapters_valid(adapters: &[(String, String)], targets: &[String]) -> (b: bool)
    ensures
        b == ((forall|i: int|
            0 <= i < pair_views(adapters@).len() ==> string_views(targets@).contains(
                #[trigger] pair_views(adapters@)[i].0,
            )) && (forall|i: int|
            0 <= i < pair_views(adapters@).len() ==> is_valid_text(
                #[trigger] pair_views(adapters@)[i].1,
                20_000,
            ))),
{
    let ghost a = pair_views(adapters@);
    let mut i: usize = 0;
    while i < adapters.len()
        invariant
            i <= adapters@.len(),
            a == pair_views(adapters@),
            forall|k: int| 0 <= k < i ==> string_views(targets@).contains(#[trigger] a[k].0),
        decreases adapters.len() - i,
    {
        if !contains_string(targets, adapters[i].0.as_str()) {
            assert(!string_views(targets@).contains(a[i as int].0));
            return false;
        }
        i = i + 1;
    }
    let mut i: usize = 0;
    while i < adapters.len()
        invariant
            i <= adapters@.len(),
            a == pair_views(adapters@),
            forall|k: int| 0 <= k < a.len() ==> string_views(targets@).contains(#[trigger] a[k].0),
            forall|k: int| 0 <= k < i ==> is_valid_text(#[trigger] a[k].1, 20_000),
        decreases adapters.len() - i,
    {
        if !valid_text(adapters[i].1.as_str(), 20_000) {
            assert(!is_valid_text(a[i as int].1, 20_000));
            return false;
        }
        i = i + 1;
    }
    true
}

/// Whether `a` sorts strictly before `b` as Rust orders strings.
pub fn text_before(a: &str, b: &str) -> (r: bool)
    ensures
        r == text_less(a@, b@),
{
    let x = chars_of(a);
    let y = chars_of(b);
    let mut i: usize = 0;
    proof {
        assert(a@.subrange(0, a@.len() as int) =~= a@);
        assert(b@.subrange(0, b@.len() as int) =~= b@);
    }
    while i < x.len() && i < y.len() && x[i] == y[i]
        invariant
            i <= x@.len(),
            i <= y@.len(),
            x@ == a@,
            y@ == b@,
            text_less(a@, b@) == text_less(
                a@.subrange(i as int, a@.len() as int),
                b@.subrange(i as int, b@.len() as int),
            ),
        decreases x.len() - i,
    {
        proof {
            let s = a@.subrange(i as int, a@.len() as int);
            let t = b@.subrange(i as int, b@.len() as int);
            assert(s.drop_first() =~= a@.subrange(i + 1, a@.len() as int));
            assert(t.drop_first() =~= b@.subrange(i + 1, b@.len() as int));
        }
        i = i + 1;
    }
    if i == x.len() {
        i < y.len()
    } else if i == y.len() {
        false
    } else {
        (x[i] as u32) < (y[i] as u32)
    }
}

/// Whether the adapter keys are in strictly increasing order.
fn keys_in_order(adapters: &[(String, String)]) -> (b: bool)
    ensures
        b == keys_increasing(pair_views(adapters@)),
{
    let ghost a = pair_views(adapters@);
    let mut j: usize = 0;
    while j < adapters.len()
        invariant
            j <= adapters@.len(),
            a == pair_views(adapters@),
            forall|p: int, q: int| 0 <= p < q < j ==> text_less(#[trigger] a[p].0, #[trigger] a[q].0),
        decreases adapters.len() - j,
    {
        let mut i: usize = 0;
        while i < j
            invariant
                i <= j < adapters@.len(),
                a == pair_views(adapters@),
                forall|p: int, q: int| 0 <= p < q < j ==> text_less(#[trigger] a[p].0, #[trigger] a[q].0),
                forall|p: int| 0 <= p < i ==> text_less(#[trigger] a[p].0, a[j as int].0),
            decreases j - i,
        {
            if !text_before(adapters[i].0.as_str(), adapters[j].0.as_str()) {
                assert(!text_less(a[i as int].0, a[j as int].0));
                return false;
            }
            i = i + 1;
        }
        j = j + 1;
    }
    true
}

/// Whether a source package meets the package rules.
pub fn valid_package(input: &SourceSkill) -> (b: bool)
    ensures
        b == input.is_valid(),
{
    valid_text(input.id.as_str(), 120) && valid_text(input.name.as_str(), 100) && valid_text(
        input.version.as_str(),
        40,
    ) && valid_text(input.summary.as_str(), 500) && valid_text(input.owner.as_str(), 100)
        && valid_text(input.instructions.as_str(), 20_000) && input.targets.len() >= 1
        && input.targets.len() <= 8 && distinct_strings(input.targets.as_slice())
        && all_valid_texts(input.targets.as_slice(), 80) && input.repositories.len() >= 1
        && input.repositories.len() <= 32 && distinct_strings(input.repositories.as_slice())
        && all_valid_texts(input.repositories.as_slice(), 160)
        && input.pilot_repositories.len() >= 1 && input.pilot_repositories.len()
        <= input.repositories.len() && all_contained(
        input.pilot_repositories.as_slice(),
        input.repositories.as_slice(),
    ) && distinct_strings(input.pilot_repositories.as_slice()) && input.secrets.len() <= 16
        && all_secret_references(input.secrets.as_slice()) && input.adapters.entries().len()
        == input.targets.len() && adapters_valid(input.adapters.entries(), input.targets.as_slice())
}

/// Law: in a valid package every target has an adapter, and no target has
/// two.
pub proof fn lemma_every_target_has_adapter(input: &SourceSkill, target: Seq<char>)
    requires
        input.is_valid(),
        input.targets_view().contains(target),
    ensures
        exists|i: int|
            0 <= i < input.adapters_view().len() && #[trigger] input.adapters_view()[i].0 == target,
        forall|i: int, j: int|
            0 <= i < j < input.adapters_view().len() ==> input.adapters_view()[i].0
                != input.adapters_view()[j].0,
{
    let a = input.adapters_view();
    let t = input.targets_view();
    input.adapters.lemma_in_key_order();
    let keys = a.map_values(|e: (Seq<char>, Seq<char>)| e.0);
    assert forall|i: int, j: int| 0 <= i < j < a.len() implies a[i].0 != a[j].0 by {
        lemma_text_less_irreflexive(a[i].0);
        assert(text_less(a[i].0, a[j].0));
    }
    assert(keys.no_duplicates()) by {
        assert forall|i: int, j: int|
            0 <= i < keys.len() && 0 <= j < keys.len() && i != j implies keys[i] != keys[j] by {
            if i < j {
                assert(a[i].0 != a[j].0);
            } else {
                assert(a[j].0 != a[i].0);
            }
        }
    }
    assert(t.no_duplicates());
    keys.unique_seq_to_set();
    t.unique_seq_to_set();
    assert(keys.to_set().subset_of(t.to_set())) by {
        assert forall|x: Seq<char>| keys.to_set().contains(x) implies t.to_set().contains(x) by {
            let i = choose|i: int| 0 <= i < keys.len() && keys[i] == x;
            assert(t.contains(a[i].0));
        }
    }
    vstd::seq_lib::seq_to_set_is_finite(keys);
    vstd::seq_lib::seq_to_set_is_finite(t);
    vstd::set_lib::lemma_subset_equality(keys.to_set(), t.to_set());
    assert(t.to_set().contains(target));
    assert(keys.to_set().contains(target));
    let i = choose|i: int| 0 <= i < keys.len() && keys[i] == target;
    assert(a[i].0 == target);
}

/// Law: a valid package lists each assigned repository, each target and each
/// pilot repository once: no two positions of one list hold the same text.
/// It assigns one to thirty-two repositories and names one to eight targets.
pub proof fn lemma_valid_package_lists_are_sets(input: &SourceSkill)
    requires
        input.is_valid(),
    ensures
        forall|i: int, j: int|
            0 <= i < input.repositories@.len() && 0 <= j < input.repositories@.len() && i != j
                ==> #[trigger] input.repositories@[i]@ != #[trigger] input.repositories@[j]@,
        forall|i: int, j: int|
            0 <= i < input.targets@.len() && 0 <= j < input.targets@.len() && i != j
                ==> #[trigger] input.targets@[i]@ != #[trigger] input.targets@[j]@,
        forall|i: int, j: int|
            0 <= i < input.pilot_repositories@.len() && 0 <= j < input.pilot_repositories@.len() && i
                != j ==> #[trigger] input.pilot_repositories@[i]@ != #[trigger] input.pilot_repositories@[j]@,
        1 <= input.repositories@.len() <= 32,
        1 <= input.targets@.len() <= 8,
{
    let r = input.repositories_view();
    let t = input.targets_view();
    let p = input.pilots_view();
    assert forall|i: int, j: int|
        0 <= i < input.repositories@.len() && 0 <= j < input.repositories@.len() && i != j
            implies #[trigger] input.repositories@[i]@ != #[trigger] input.repositories@[j]@ by {
        assert(r[i] == input.repositories@[i]@ && r[j] == input.repositories@[j]@);
        if i > j {
            assert(r[j] != r[i]);
        }
    }
    assert forall|i: int, j: int|
        0 <= i < input.targets@.len() && 0 <= j < input.targets@.len() && i != j
            implies #[trigger] input.targets@[i]@ != #[trigger] input.targets@[j]@ by {
        assert(t[i] == input.targets@[i]@ && t[j] == input.targets@[j]@);
        if i > j {
            assert(t[j] != t[i]);
        }
    }
    assert forall|i: int, j: int|
        0 <= i < input.pilot_repositories@.len() && 0 <= j < input.pilot_repositories@.len() && i
            != j implies #[trigger] input.pilot_repositories@[i]@ != #[trigger] input.pilot_repositories@[j]@ by {
        assert(p[i] == input.pilot_repositories@[i]@ && p[j] == input.pilot_repositories@[j]@);
        if i > j {
            assert(p[j] != p[i]);
        }
    }
}

/// Law: the pilot cohort of a valid package lies within its assigned
/// repositories.
pub proof fn lemma_pilots_are_assigned(input: &SourceSkill, repository: Seq<char>)
    requires
        input.is_valid(),
        input.pilots_view().contains(repository),
    ensures
        input.repositories_view().contains(repository),
{
    let i = choose|i: int|
        0 <= i < input.pilots_view().len() && input.pilots_view()[i] == repository;
    assert(input.repositories_view().contains(input.pilots_view()[i]));
}

} // verus!
