//! The name list: the addresses that labels stand for.
use vstd::prelude::*;
use crate::text::str_eq;

verus! {

/// Maps labels to their addresses in the assembled code. Each label
/// occurs at most once.
#[derive(Debug)]
pub struct Namelist {
    labels: Vec<(String, u16)>,
}

/// Whether no label occurs twice.
pub open spec fn distinct_labels(s: Seq<(String, u16)>) -> bool {
    forall|i: int, j: int| 0 <= i < s.len() && 0 <= j < s.len() && i != j ==> s[i].0@ != s[j].0@
}

/// Whether a label occurs.
pub open spec fn has_label(s: Seq<(String, u16)>, k: Seq<char>) -> bool {
    exists|i: int| 0 <= i < s.len() && #[trigger] s[i].0@ == k
}

/// The address of a label that occurs.
pub open spec fn label_address(s: Seq<(String, u16)>, k: Seq<char>) -> u16 {
    s[choose|i: int| 0 <= i < s.len() && #[trigger] s[i].0@ == k].1
}

/// The labels and their addresses as a map.
pub open spec fn label_map(s: Seq<(String, u16)>) -> Map<Seq<char>, u16> {
    Map::new(|k: Seq<char>| has_label(s, k), |k: Seq<char>| label_address(s, k))
}

impl Namelist {
    #[verifier::type_invariant]
    spec fn well_formed(self) -> bool {
        distinct_labels(self.labels@)
    }

    /// The labels and addresses held.
    pub closed spec fn as_map(self) -> Map<Seq<char>, u16> {
        label_map(self.labels@)
    }

    /// An empty name list.
    pub fn new() -> (n: Self)
        ensures
            n@ == Map::<Seq<char>, u16>::empty(),
    {
        let n = Namelist { labels: Vec::new() };
        assert(n@ =~= Map::<Seq<char>, u16>::empty());
        n
    }

    /// Binds `label` to `address`, replacing an earlier binding of it.
    pub fn insert(&mut self, label: String, address: u16)
        ensures
            final(self)@ == old(self)@.insert(label@, address),
    {
        proof {
            use_type_invariant(&*self);
        }
        let ghost k = label@;
        let ghost s0 = self.labels@;
        let n = self.labels.len();
        let mut i: usize = 0;
        while i < n
            invariant
                n == self.labels.len(),
                self.labels@ == s0,
                old(self).labels@ == s0,
                distinct_labels(s0),
                k == label@,
                i <= n,
                forall|j: int| 0 <= j < i ==> s0[j].0@ != k,
            decreases n - i,
        {
            if str_eq(self.labels[i].0.as_str(), label.as_str()) {
                let mut labels = Vec::new();
                std::mem::swap(&mut labels, &mut self.labels);
                labels.set(i, (label, address));
                let ghost s1 = labels@;
                assert(distinct_labels(s1));
                assert(label_map(s1) =~= label_map(s0).insert(k, address)) by {
                    assert forall|kk: Seq<char>| has_label(s1, kk) == (has_label(s0, kk) || kk == k) by {
                        if has_label(s0, kk) {
                            let j = choose|j: int| 0 <= j < s0.len() && #[trigger] s0[j].0@ == kk;
                            assert(s1[j].0@ == kk);
                        }
                        if has_label(s1, kk) {
                            let j = choose|j: int| 0 <= j < s1.len() && #[trigger] s1[j].0@ == kk;
                            if j != i {
                                assert(s0[j].0@ == kk);
                            }
                        }
                        if kk == k {
                            assert(s1[i as int].0@ == kk);
                        }
                    }
                    assert forall|kk: Seq<char>| #[trigger] has_label(s1, kk) implies label_address(s1, kk)
                        == (if kk == k { address } else { label_address(s0, kk) }) by {
                        let j = choose|j: int| 0 <= j < s1.len() && #[trigger] s1[j].0@ == kk;
                        if kk == k {
                            assert(s1[i as int].0@ == kk);
                        } else {
                            let j0 = choose|j0: int| 0 <= j0 < s0.len() && #[trigger] s0[j0].0@ == kk;
                            assert(s1[j0].0@ == kk);
                        }
                    }
                }
                self.labels = labels;
                return;
            }
            i = i + 1;
        }
        let ghost kv = (label, address);
        let mut labels = Vec::new();
        std::mem::swap(&mut labels, &mut self.labels);
        labels.push((label, address));
        let ghost s1 = labels@;
        assert(s1 == s0.push(kv));
        assert(s1[n as int].0@ == k);
        assert(label_map(s1) =~= label_map(s0).insert(k, address)) by {
            assert forall|kk: Seq<char>| has_label(s1, kk) == (has_label(s0, kk) || kk == k) by {
                if has_label(s0, kk) {
                    let j = choose|j: int| 0 <= j < s0.len() && #[trigger] s0[j].0@ == kk;
                    assert(s1[j].0@ == kk);
                }
                if has_label(s1, kk) {
                    let j = choose|j: int| 0 <= j < s1.len() && #[trigger] s1[j].0@ == kk;
                    if j < n {
                        assert(s0[j].0@ == kk);
                    }
                }
            }
            assert forall|kk: Seq<char>| #[trigger] has_label(s1, kk) implies label_address(s1, kk)
                == (if kk == k { address } else { label_address(s0, kk) }) by {
                let j = choose|j: int| 0 <= j < s1.len() && #[trigger] s1[j].0@ == kk;
                if kk != k {
                    let j0 = choose|j0: int| 0 <= j0 < s0.len() && #[trigger] s0[j0].0@ == kk;
                    assert(s1[j0].0@ == kk);
                }
            }
        }
        self.labels = labels;
    }

    /// The address bound to `label`, if any.
    pub fn get(&self, label: &str) -> (r: Option<&u16>)
        ensures
            r is Some == self@.contains_key(label@),
            r matches Some(a) ==> *a == self@[label@],
    {
        proof {
            use_type_invariant(self);
        }
        let ghost s = self.labels@;
        let n = self.labels.len();
        let mut i: usize = 0;
        while i < n
            invariant
                n == s.len(),
                s == self.labels@,
                distinct_labels(s),
                i <= n,
                forall|j: int| 0 <= j < i ==> s[j].0@ != label@,
            decreases n - i,
        {
            if str_eq(self.labels[i].0.as_str(), label) {
                assert(s[i as int].0@ == label@);
                assert(has_label(s, label@));
                return Some(&self.labels[i].1);
            }
            i = i + 1;
        }
        assert(!has_label(s, label@));
        None
    }
}

impl View for Namelist {
    type V = Map<Seq<char>, u16>;

    open spec fn view(&self) -> Map<Seq<char>, u16> {
        self.as_map()
    }
}

/// Reading a label after binding it gives the address it was bound to,
/// and binding a label leaves every other label as it was.
pub proof fn law_get_after_insert(
    before: Namelist,
    after: Namelist,
    label: Seq<char>,
    address: u16,
    other: Seq<char>,
)
    requires
        after@ == before@.insert(label, address),
    ensures
        after@.contains_key(label),
        after@[label] == address,
        other != label ==> after@.contains_key(other) == before@.contains_key(other),
        other != label && before@.contains_key(other) ==> after@[other] == before@[other],
{
}

/// Binding a label twice leaves the second address: the second binding
/// replaces the first.
pub proof fn law_insert_replaces(
    before: Namelist,
    middle: Namelist,
    after: Namelist,
    label: Seq<char>,
    first: u16,
    second: u16,
)
    requires
        middle@ == before@.insert(label, first),
        after@ == middle@.insert(label, second),
    ensures
        after@ == before@.insert(label, second),
{
    assert(after@ =~= before@.insert(label, second));
}

} // verus!
