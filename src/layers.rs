//! Selection of the diagnostic layers to activate: in debug mode, the
//! available layers whose name contains one of the allowlisted patterns, in
//! the order the platform lists them; otherwise none.

use vstd::prelude::*;
use vstd::utf8::encode_utf8;

use crate::names::views;

verus! {

/// The bytes of a name, as UTF-8.
pub open spec fn bytes_of(s: Seq<char>) -> Seq<u8> {
    encode_utf8(s)
}

/// Whether `pat` occurs in `text` starting at offset `k`.
pub open spec fn occurs_at(text: Seq<u8>, pat: Seq<u8>, k: int) -> bool {
    &&& 0 <= k
    &&& k + pat.len() <= text.len()
    &&& text.subrange(k, k + pat.len()) == pat
}

/// Whether `pat` occurs somewhere in `text`.
pub open spec fn contains_text(text: Seq<u8>, pat: Seq<u8>) -> bool {
    exists|k: int| occurs_at(text, pat, k)
}

/// Whether the layer name `name` contains one of `patterns`.
pub open spec fn allowed(name: Seq<char>, patterns: Seq<String>) -> bool {
    exists|i: int| 0 <= i < patterns.len() && contains_text(bytes_of(name), bytes_of(#[trigger] patterns[i]@))
}

/// The names of `names`, in order, that contain one of `patterns`.
pub open spec fn allowed_layers(names: Seq<Seq<char>>, patterns: Seq<String>) -> Seq<Seq<char>>
    decreases names.len(),
{
    if names.len() == 0 {
        Seq::empty()
    } else {
        let rest = allowed_layers(names.drop_last(), patterns);
        if allowed(names.last(), patterns) {
            rest.push(names.last())
        } else {
            rest
        }
    }
}

/// Whether the byte string `pat` occurs in `text`.
pub fn find_text(text: &[u8], pat: &[u8]) -> (r: bool)
    ensures
        r == contains_text(text@, pat@),
{
    if pat.len() > text.len() {
        assert forall|k: int| !occurs_at(text@, pat@, k) by {}
        return false;
    }
    let n: usize = text.len();
    let last: usize = n - pat.len();
    let mut k: usize = 0;
    loop
        invariant
            last == text@.len() - pat@.len(),
            n == text@.len(),
            k <= last,
            forall|m: int| 0 <= m < k ==> !occurs_at(text@, pat@, m),
        decreases last + 1 - k,
    {
        let mut j: usize = 0;
        let mut same = true;
        while j < pat.len() && same
            invariant
                k <= last,
                last == text@.len() - pat@.len(),
                j <= pat@.len(),
                k + pat@.len() <= text@.len(),
                n == text@.len(),
                same ==> forall|t: int| 0 <= t < j ==> text@[k + t] == pat@[t],
                !same ==> j > 0 && text@[k + j - 1] != pat@[j - 1],
            decreases pat.len() - j,
        {
            if text[k + j] != pat[j] {
                same = false;
            }
            j = j + 1;
        }
        if same {
            assert(text@.subrange(k as int, k + pat@.len()) =~= pat@);
            assert(occurs_at(text@, pat@, k as int));
            return true;
        }
        assert(text@.subrange(k as int, k + pat@.len())[j - 1] != pat@[j - 1]);
        if k == last {
            assert forall|m: int| !occurs_at(text@, pat@, m) by {
                if 0 <= m <= k {
                }
            }
            return false;
        }
        k = k + 1;
    }
}

/// Whether `name` contains one of `patterns`.
pub fn is_layer_allowed(name: &String, patterns: &Vec<String>) -> (r: bool)
    ensures
        r == allowed(name@, patterns@),
{
    let text = name.as_str().as_bytes();
    let mut i: usize = 0;
    while i < patterns.len()
        invariant
            i <= patterns@.len(),
            text@ == bytes_of(name@),
            forall|t: int| 0 <= t < i ==> !contains_text(bytes_of(name@), bytes_of((#[trigger] patterns@[t])@)),
        decreases patterns.len() - i,
    {
        if find_text(text, patterns[i].as_str().as_bytes()) {
            return true;
        }
        i = i + 1;
    }
    false
}

/// The layers to activate: when `debug` is set, those of `available` whose
/// name contains one of `patterns`, in the order of `available`; otherwise
/// none.
pub fn init_vulkan_layers(debug: bool, available: &Vec<String>, patterns: &Vec<String>) -> (r: Vec<String>)
    ensures
        debug ==> views(r@) == allowed_layers(views(available@), patterns@),
        !debug ==> r@.len() == 0,
{
    let mut r: Vec<String> = Vec::new();
    if !debug {
        return r;
    }
    let mut i: usize = 0;
    while i < available.len()
        invariant
            i <= available@.len(),
            views(r@) == allowed_layers(views(available@).take(i as int), patterns@),
        decreases available.len() - i,
    {
        let name = available[i].clone();
        let ghost before = r@;
        proof {
            let next = views(available@).take(i + 1);
            assert(next.drop_last() =~= views(available@).take(i as int));
            assert(next.last() == name@);
        }
        if is_layer_allowed(&name, patterns) {
            r.push(name);
            assert(views(r@) =~= views(before).push(name@));
        }
        i = i + 1;
    }
    assert(views(available@).take(available@.len() as int) =~= views(available@));
    r
}

} // verus!
