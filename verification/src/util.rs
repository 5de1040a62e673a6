//! Name uniqueness.

use vstd::prelude::*;

verus! {

/// The lower-case form that `str::to_lowercase` gives of `s`.
pub uninterp spec fn lowercase(s: Seq<char>) -> Seq<char>;

/// Lower-cases `s` with `str::to_lowercase`.
///
/// The contract claims only that the result is a function of `s` (named
/// [lowercase]); the Unicode case mapping itself is std's.
#[verifier::external_body]
fn to_lowercase(s: &str) -> (res: String)
    ensures
        res@ == lowercase(s@),
{
    s.to_lowercase()
}

/// The name at position `i` equals, ignoring case, a name before it.
pub open spec fn is_repeated_at(names: Seq<Seq<char>>, i: int) -> bool {
    exists|j: int| 0 <= j < i && lowercase(names[j]) == lowercase(names[i])
}

/// No two names are equal when case is ignored.
pub open spec fn unique_ignoring_case(names: Seq<Seq<char>>) -> bool {
    forall|i: int, j: int|
        0 <= i < j < names.len() ==> lowercase(names[i]) != lowercase(names[j])
}

/// `n` is one of the strings of `v`.
pub open spec fn holds_string(v: Seq<String>, n: Seq<char>) -> bool {
    exists|k: int| 0 <= k < v.len() && v[k]@ == n
}

/// `n` is a name that repeats an earlier name of `names` when case is ignored.
pub open spec fn is_non_unique(names: Seq<Seq<char>>, n: Seq<char>, upto: int) -> bool {
    exists|m: int| 0 <= m < upto && names[m] == n && is_repeated_at(names, m)
}

/// `l` is the lower-case form of one of the first `upto` names.
pub open spec fn lower_seen(names: Seq<Seq<char>>, l: Seq<char>, upto: int) -> bool {
    exists|j: int| 0 <= j < upto && lowercase(names[j]) == l
}

/// The views of a list of string slices.
pub open spec fn strs_view(names: Seq<&str>) -> Seq<Seq<char>> {
    names.map_values(|s: &str| s@)
}

fn contains_string(v: &Vec<String>, s: &str) -> (res: bool)
    ensures
        res == holds_string(v@, s@),
{
    let owned = s.to_owned();
    let mut i: usize = 0;
    while i < v.len()
        invariant
            i <= v@.len(),
            owned@ == s@,
            forall|k: int| 0 <= k < i ==> v@[k]@ != s@,
        decreases v@.len() - i,
    {
        if v[i] == owned {
            return true;
        }
        i += 1;
    }
    false
}

/// Returns the names that repeat an earlier name when case is ignored.
///
/// Every such name is returned once, in the order of its first repetition.
pub fn get_non_unique_names(names: &Vec<&str>) -> (res: Vec<String>)
    ensures
        forall|n: Seq<char>|
            #![trigger holds_string(res@, n)]
            #![trigger is_non_unique(strs_view(names@), n, names@.len() as int)]
            holds_string(res@, n) <==> is_non_unique(strs_view(names@), n, names@.len() as int),
        forall|a: int, b: int| 0 <= a < b < res@.len() ==> res@[a]@ != res@[b]@,
{
    let ghost sv = strs_view(names@);
    let mut ans: Vec<String> = Vec::new();
    let mut seen: Vec<String> = Vec::new();
    let mut i: usize = 0;
    while i < names.len()
        invariant
            i <= names@.len(),
            sv == strs_view(names@),
            sv.len() == names@.len(),
            forall|l: Seq<char>|
                #![trigger holds_string(seen@, l)]
                #![trigger lower_seen(sv, l, i as int)]
                holds_string(seen@, l) <==> lower_seen(sv, l, i as int),
            forall|n: Seq<char>|
                #![trigger holds_string(ans@, n)]
                #![trigger is_non_unique(sv, n, i as int)]
                holds_string(ans@, n) <==> is_non_unique(sv, n, i as int),
            forall|a: int, b: int| 0 <= a < b < ans@.len() ==> ans@[a]@ != ans@[b]@,
        decreases names@.len() - i,
    {
        let name: &str = names[i];
        assert(sv[i as int] == name@);
        let lower = to_lowercase(name);
        let repeated = contains_string(&seen, lower.as_str());
        if repeated {
            assert(is_repeated_at(sv, i as int));
            if !contains_string(&ans, name) {
                let ghost old_ans = ans@;
                ans.push(name.to_owned());
                assert forall|n: Seq<char>|
                    #![trigger holds_string(ans@, n)]
                    #![trigger is_non_unique(sv, n, i + 1)]
                    holds_string(ans@, n) <==> is_non_unique(sv, n, i + 1) by {
                    if holds_string(ans@, n) {
                        let k = choose|k: int| 0 <= k < ans@.len() && ans@[k]@ == n;
                        if k < old_ans.len() {
                            assert(old_ans[k]@ == n);
                            assert(holds_string(old_ans, n));
                            assert(is_non_unique(sv, n, i as int));
                            let m = choose|m: int| 0 <= m < i && sv[m] == n && is_repeated_at(sv, m);
                            assert(is_non_unique(sv, n, i + 1));
                        } else {
                            assert(sv[i as int] == n);
                            assert(is_non_unique(sv, n, i + 1));
                        }
                    }
                    if is_non_unique(sv, n, i + 1) {
                        let m = choose|m: int| 0 <= m < i + 1 && sv[m] == n && is_repeated_at(sv, m);
                        if m < i {
                            assert(is_non_unique(sv, n, i as int));
                            assert(holds_string(old_ans, n));
                            let k = choose|k: int| 0 <= k < old_ans.len() && old_ans[k]@ == n;
                            assert(ans@[k]@ == n);
                        } else {
                            assert(ans@[old_ans.len() as int]@ == n);
                        }
                    }
                }
            } else {
                assert forall|n: Seq<char>|
                    #![trigger holds_string(ans@, n)]
                    #![trigger is_non_unique(sv, n, i + 1)]
                    holds_string(ans@, n) <==> is_non_unique(sv, n, i + 1) by {
                    if exists|m: int| 0 <= m < i + 1 && sv[m] == n && is_repeated_at(sv, m) {
                        let m = choose|m: int| 0 <= m < i + 1 && sv[m] == n && is_repeated_at(sv, m);
                        if m == i {
                            let k = choose|k: int| 0 <= k < ans@.len() && ans@[k]@ == name@;
                            assert(ans@[k]@ == n);
                        }
                    }
                }
            }
        } else {
            assert(!is_repeated_at(sv, i as int)) by {
                if is_repeated_at(sv, i as int) {
                    let j = choose|j: int| 0 <= j < i && lowercase(sv[j]) == lowercase(sv[i as int]);
                    assert(exists|j2: int| 0 <= j2 < i && lowercase(sv[j2]) == lower@);
                }
            }
            let ghost old_seen = seen@;
            seen.push(lower);
            assert forall|l: Seq<char>|
                #![trigger holds_string(seen@, l)]
                #![trigger lower_seen(sv, l, i + 1)]
                holds_string(seen@, l) <==> lower_seen(sv, l, i + 1) by {
                if holds_string(seen@, l) {
                    let k = choose|k: int| 0 <= k < seen@.len() && seen@[k]@ == l;
                    if k < old_seen.len() {
                        assert(old_seen[k]@ == l);
                        assert(holds_string(old_seen, l));
                        assert(lower_seen(sv, l, i as int));
                        let j = choose|j: int| 0 <= j < i && lowercase(sv[j]) == l;
                        assert(lower_seen(sv, l, i + 1));
                    } else {
                        assert(lowercase(sv[i as int]) == l);
                        assert(lower_seen(sv, l, i + 1));
                    }
                }
                if lower_seen(sv, l, i + 1) {
                    let j = choose|j: int| 0 <= j < i + 1 && lowercase(sv[j]) == l;
                    if j < i {
                        assert(lower_seen(sv, l, i as int));
                        assert(holds_string(old_seen, l));
                        let k = choose|k: int| 0 <= k < old_seen.len() && old_seen[k]@ == l;
                        assert(seen@[k]@ == l);
                    } else {
                        assert(seen@[old_seen.len() as int]@ == l);
                    }
                }
            }
            assert forall|n: Seq<char>|
                #![trigger holds_string(ans@, n)]
                #![trigger is_non_unique(sv, n, i + 1)]
                holds_string(ans@, n) <==> is_non_unique(sv, n, i + 1) by {
                if exists|m: int| 0 <= m < i + 1 && sv[m] == n && is_repeated_at(sv, m) {
                    let m = choose|m: int| 0 <= m < i + 1 && sv[m] == n && is_repeated_at(sv, m);
                    assert(m != i);
                }
            }
        }
        i += 1;
    }
    ans
}

} // verus!
