//! Sets of named capability flags (extensions, layers, features) and their
//! negotiation: what was requested, what is supported, what gets activated
//! and what is rejected.

use vstd::prelude::*;

verus! {

/// The character sequences of a list of names, in order.
pub open spec fn views(v: Seq<String>) -> Seq<Seq<char>> {
    v.map_values(|s: String| s@)
}

/// Whether `n` occurs in the list of names `v`.
pub open spec fn has_name(v: Seq<String>, n: Seq<char>) -> bool {
    exists|i: int| 0 <= i < v.len() && #[trigger] v[i]@ == n
}

/// Whether every name of `required` occurs in `available`.
pub open spec fn covers(available: Seq<String>, required: Seq<String>) -> bool {
    forall|i: int| 0 <= i < required.len() ==> has_name(available, #[trigger] required[i]@)
}

/// The names of `req`, in order, whose presence in `sup` is `present`.
pub open spec fn select_by(req: Seq<Seq<char>>, sup: Seq<String>, present: bool) -> Seq<Seq<char>>
    decreases req.len(),
{
    if req.len() == 0 {
        Seq::empty()
    } else {
        let rest = select_by(req.drop_last(), sup, present);
        if has_name(sup, req.last()) == present {
            rest.push(req.last())
        } else {
            rest
        }
    }
}

/// The requested names that are supported, in request order.
pub open spec fn activated_of(requested: Seq<String>, supported: Seq<String>) -> Seq<Seq<char>> {
    select_by(views(requested), supported, true)
}

/// The requested names that are not supported, in request order.
pub open spec fn rejected_of(requested: Seq<String>, supported: Seq<String>) -> Seq<Seq<char>> {
    select_by(views(requested), supported, false)
}

/// The outcome of negotiating a requested set against a supported set.
#[derive(Debug)]
pub struct Negotiation {
    /// Requested names that are supported: these are enabled.
    pub activated: Vec<String>,
    /// Requested names that are not supported.
    pub rejected: Vec<String>,
}

impl Negotiation {
    /// This negotiation is the one of `requested` against `supported`.
    pub open spec fn is_of(&self, requested: Seq<String>, supported: Seq<String>) -> bool {
        &&& views(self.activated@) == activated_of(requested, supported)
        &&& views(self.rejected@) == rejected_of(requested, supported)
    }
}

/// Whether `name` occurs in `names`.
pub fn contains_name(names: &Vec<String>, name: &String) -> (r: bool)
    ensures
        r == has_name(names@, name@),
{
    let mut i: usize = 0;
    while i < names.len()
        invariant
            i <= names.len(),
            forall|j: int| 0 <= j < i ==> (#[trigger] names@[j])@ != name@,
        decreases names.len() - i,
    {
        if names[i] == *name {
            return true;
        }
        i = i + 1;
    }
    false
}

/// Whether every name of `required` occurs in `available`.
pub fn covers_all(available: &Vec<String>, required: &Vec<String>) -> (r: bool)
    ensures
        r == covers(available@, required@),
{
    let mut i: usize = 0;
    while i < required.len()
        invariant
            i <= required.len(),
            forall|j: int| 0 <= j < i ==> has_name(available@, (#[trigger] required@[j])@),
        decreases required.len() - i,
    {
        if !contains_name(available, &required[i]) {
            return false;
        }
        i = i + 1;
    }
    true
}

/// Splits `requested` into the names that `supported` offers and the rest,
/// both in request order.
pub fn negotiate(requested: &Vec<String>, supported: &Vec<String>) -> (r: Negotiation)
    ensures
        r.is_of(requested@, supported@),
{
    let mut activated: Vec<String> = Vec::new();
    let mut rejected: Vec<String> = Vec::new();
    let mut i: usize = 0;
    while i < requested.len()
        invariant
            i <= requested.len(),
            views(activated@) == select_by(views(requested@).take(i as int), supported@, true),
            views(rejected@) == select_by(views(requested@).take(i as int), supported@, false),
        decreases requested.len() - i,
    {
        let name = requested[i].clone();
        let ghost prefix = views(requested@).take(i as int);
        let ghost before_a = activated@;
        let ghost before_r = rejected@;
        proof {
            let next = views(requested@).take(i + 1);
            assert(next.drop_last() =~= prefix);
            assert(next.last() == name@);
        }
        if contains_name(supported, &name) {
            activated.push(name);
            assert(views(activated@) =~= views(before_a).push(name@));
        } else {
            rejected.push(name);
            assert(views(rejected@) =~= views(before_r).push(name@));
        }
        i = i + 1;
    }
    assert(views(requested@).take(requested.len() as int) =~= views(requested@));
    Negotiation { activated, rejected }
}

} // verus!

verus! {

proof fn lemma_select_by_members(req: Seq<Seq<char>>, sup: Seq<String>, present: bool)
    ensures
        forall|n: Seq<char>| #[trigger] select_by(req, sup, present).contains(n)
            <==> (req.contains(n) && has_name(sup, n) == present),
    decreases req.len(),
{
    if req.len() > 0 {
        let init = req.drop_last();
        let last = req.last();
        let rest = select_by(init, sup, present);
        let out = select_by(req, sup, present);
        lemma_select_by_members(init, sup, present);
        assert(out == if has_name(sup, last) == present { rest.push(last) } else { rest });
        assert forall|n: Seq<char>| #[trigger] out.contains(n)
            <==> (req.contains(n) && has_name(sup, n) == present) by {
            // membership in `req` is membership in `init` or being `last`
            if req.contains(n) && n != last {
                let k = choose|k: int| 0 <= k < req.len() && req[k] == n;
                assert(k != req.len() - 1);
                assert(init[k] == n);
            }
            if init.contains(n) {
                let k = choose|k: int| 0 <= k < init.len() && init[k] == n;
                assert(req[k] == n);
            }
            assert(req[req.len() - 1] == last);
            if has_name(sup, last) == present {
                let pushed = rest.push(last);
                assert(pushed[rest.len() as int] == last);
                if pushed.contains(n) && n != last {
                    let k = choose|k: int| 0 <= k < pushed.len() && pushed[k] == n;
                    assert(k != rest.len());
                    assert(rest[k] == n);
                }
                if rest.contains(n) {
                    let k = choose|k: int| 0 <= k < rest.len() && rest[k] == n;
                    assert(pushed[k] == n);
                }
            }
        }
    }
}

/// Negotiation partitions the requested names: a name is activated exactly
/// when it is requested and supported, and rejected exactly when it is
/// requested and not supported. This holds of every set of names negotiated
/// so, extensions and layers alike.
pub proof fn lemma_negotiation_partitions(requested: Seq<String>, supported: Seq<String>)
    ensures
        forall|n: Seq<char>| #[trigger] activated_of(requested, supported).contains(n)
            <==> views(requested).contains(n) && has_name(supported, n),
        forall|n: Seq<char>| #[trigger] rejected_of(requested, supported).contains(n)
            <==> views(requested).contains(n) && !has_name(supported, n),
{
    lemma_select_by_members(views(requested), supported, true);
    lemma_select_by_members(views(requested), supported, false);
}

} // verus!
