//! Deduplicated, sorted participant-name sets with constant-time membership
//! testing, backed by a minimal-perfect-hash map.
use vstd::prelude::*;
use vstd::string::StrSliceExecFns;
use boomphf::hashmap::BoomHashMap;

verus! {

#[verifier::external_type_specification]
#[verifier::external_body]
#[verifier::reject_recursive_types(K)]
#[verifier::reject_recursive_types(D)]
pub struct ExBoomHashMap<K: core::hash::Hash, D>(BoomHashMap<K, D>);

/// The set of names a membership structure was built from.
pub uninterp spec fn boom_keys(m: BoomHashMap<String, ()>) -> Set<Seq<char>>;

/// Relies on boomphf's `BoomHashMap::new`: builds a minimal-perfect-hash map
/// whose key set is exactly the keys handed in. The keys must be distinct;
/// on duplicates the hash construction may fail to terminate.
#[verifier::external_body]
fn boom_new(keys: Vec<String>) -> (m: BoomHashMap<String, ()>)
    requires
        forall|i: int, j: int|
            0 <= i < j < keys@.len() ==> keys@[i]@ != keys@[j]@,
    ensures
        boom_keys(m) == keys@.map_values(|k: String| k@).to_set(),
{
    let n = keys.len();
    BoomHashMap::new(keys, vec![(); n])
}

/// Relies on boomphf's `BoomHashMap::get_key_id`: it hashes the query, then
/// compares it against the key stored in the resulting slot, so it answers
/// `Some` exactly for the keys the map was built from.
#[verifier::external_body]
fn boom_contains(m: &BoomHashMap<String, ()>, name: &str) -> (r: bool)
    ensures
        r == boom_keys(*m).contains(name@),
{
    m.get_key_id(name).is_some()
}

/// Strict lexicographic order on names, decided from position `i` onward:
/// by the first differing character's scalar value, a strict prefix coming
/// first.
pub open spec fn lt_from(a: Seq<char>, b: Seq<char>, i: int) -> bool
    decreases b.len() - i,
{
    if i >= b.len() {
        false
    } else if i >= a.len() {
        true
    } else if a[i] != b[i] {
        (a[i] as u32) < (b[i] as u32)
    } else {
        lt_from(a, b, i + 1)
    }
}

/// Strict lexicographic order on names.
pub open spec fn spec_name_lt(a: Seq<char>, b: Seq<char>) -> bool {
    lt_from(a, b, 0)
}

/// Ascending, strictly: each name is lexicographically below its successor,
/// so a sorted list is also duplicate-free.
pub open spec fn sorted_names(s: Seq<Seq<char>>) -> bool {
    forall|i: int| 0 <= i && i + 1 < s.len() ==> spec_name_lt(#[trigger] s[i], s[i + 1])
}

/// A name list holds no name twice.
pub open spec fn no_dup_names(s: Seq<Seq<char>>) -> bool {
    forall|i: int, j: int| 0 <= i < j < s.len() ==> s[i] != s[j]
}

/// Two distinct names compare strictly in one direction, given equal
/// characters before position `i`.
proof fn lemma_lt_from_total(a: Seq<char>, b: Seq<char>, i: int)
    requires
        0 <= i <= a.len(),
        i <= b.len(),
        forall|j: int| 0 <= j < i ==> a[j] == b[j],
    ensures
        a == b || lt_from(a, b, i) || lt_from(b, a, i),
    decreases b.len() - i,
{
    if i >= b.len() {
        if a.len() == b.len() {
            assert(a =~= b);
        } else {
            assert(lt_from(b, a, i));
        }
    } else if i >= a.len() {
        assert(lt_from(a, b, i));
    } else if a[i] != b[i] {
        let ca = a[i];
        let cb = b[i];
        if (ca as u32) < (cb as u32) {
            assert(lt_from(a, b, i));
        } else {
            vstd::utf8::char_u32_cast(ca, ca as u32);
            vstd::utf8::char_u32_cast(cb, cb as u32);
            assert((ca as u32) != (cb as u32));
            assert(lt_from(b, a, i));
        }
    } else {
        lemma_lt_from_total(a, b, i + 1);
    }
}

/// Two distinct names compare strictly in one direction.
pub proof fn lemma_name_lt_total(a: Seq<char>, b: Seq<char>)
    ensures
        a == b || spec_name_lt(a, b) || spec_name_lt(b, a),
{
    lemma_lt_from_total(a, b, 0);
}

/// Executable form of [`spec_name_lt`], comparing characters in order.
fn name_lt(a: &str, b: &str) -> (r: bool)
    ensures
        r == spec_name_lt(a@, b@),
{
    let la = a.unicode_len();
    let lb = b.unicode_len();
    let mut i: usize = 0;
    while i < la && i < lb
        invariant
            la == a@.len(),
            lb == b@.len(),
            0 <= i <= la,
            i <= lb,
            spec_name_lt(a@, b@) == lt_from(a@, b@, i as int),
        decreases la - i,
    {
        let cha = a.get_char(i);
        let chb = b.get_char(i);
        let ca = cha as u32;
        let cb = chb as u32;
        if ca != cb {
            return ca < cb;
        }
        proof {
            vstd::utf8::char_u32_cast(cha, ca);
            vstd::utf8::char_u32_cast(chb, cb);
            assert(a@[i as int] == b@[i as int]);
        }
        i += 1;
    }
    la < lb
}

/// Whether `name` occurs among the views of `names`.
fn vec_contains_name(names: &Vec<String>, name: &String) -> (r: bool)
    ensures
        r == names@.map_values(|k: String| k@).contains(name@),
{
    let ghost views = names@.map_values(|k: String| k@);
    let mut i: usize = 0;
    while i < names.len()
        invariant
            0 <= i <= names@.len(),
            views == names@.map_values(|k: String| k@),
            views.len() == names@.len(),
            forall|j: int| 0 <= j < i ==> views[j] != name@,
        decreases names@.len() - i,
    {
        if names[i].eq(name) {
            assert(views[i as int] == name@);
            return true;
        }
        i += 1;
    }
    assert(!views.contains(name@));
    false
}

/// An immutable participant-name list, deduplicated and sorted ascending at
/// construction, together with its membership-test structure.
pub struct NameSet {
    names: Vec<String>,
    set: BoomHashMap<String, ()>,
}

impl NameSet {
    /// The names, deduplicated and in ascending lexicographic order.
    pub closed spec fn names(&self) -> Seq<Seq<char>> {
        self.names@.map_values(|k: String| k@)
    }

    /// The membership structure answers exactly for the stored names, which
    /// are strictly sorted (and so duplicate-free).
    pub closed spec fn wf(&self) -> bool {
        &&& boom_keys(self.set) == self.names().to_set()
        &&& sorted_names(self.names())
        &&& no_dup_names(self.names())
    }

    /// Whether `n` is a member of the set.
    pub open spec fn spec_contains(&self, n: Seq<char>) -> bool {
        self.names().contains(n)
    }

    /// Builds the set from a raw list: the names are deduplicated and sorted
    /// ascending before the membership structure is built, so the stored
    /// list holds exactly the distinct names of the input.
    pub fn new(raw: Vec<String>) -> (s: NameSet)
        ensures
            s.wf(),
            sorted_names(s.names()),
            no_dup_names(s.names()),
            forall|x: Seq<char>|
                s.names().contains(x) <==> raw@.map_values(|k: String| k@).contains(x),
    {
        let ghost raw_views = raw@.map_values(|k: String| k@);
        let mut names: Vec<String> = Vec::new();
        let mut i: usize = 0;
        while i < raw.len()
            invariant
                0 <= i <= raw@.len(),
                raw_views == raw@.map_values(|k: String| k@),
                raw_views.len() == raw@.len(),
                forall|k: int|
                    0 <= k && k + 1 < names@.len() ==> spec_name_lt(
                        #[trigger] names@[k]@,
                        names@[k + 1]@,
                    ),
                forall|k: int, l: int| 0 <= k < l < names@.len() ==> names@[k]@ != names@[l]@,
                forall|x: Seq<char>|
                    (exists|k: int| 0 <= k < names@.len() && #[trigger] names@[k]@ == x)
                        <==> raw_views.take(i as int).contains(x),
            decreases raw@.len() - i,
        {
            let ghost prefix = raw_views.take(i as int);
            let ghost old_names = names@;
            let name = raw[i].clone();
            assert(name@ == raw_views[i as int]);
            let dup = vec_contains_name(&names, &name);
            proof {
                assert(dup == (exists|k: int|
                    0 <= k < old_names.len() && #[trigger] old_names[k]@ == name@)) by {
                    let mv = old_names.map_values(|k: String| k@);
                    if mv.contains(name@) {
                        let k = choose|k: int| 0 <= k < mv.len() && mv[k] == name@;
                        assert(old_names[k]@ == name@);
                    }
                    if exists|k: int| 0 <= k < old_names.len() && #[trigger] old_names[k]@
                        == name@ {
                        let k = choose|k: int|
                            0 <= k < old_names.len() && #[trigger] old_names[k]@ == name@;
                        assert(mv[k] == name@);
                    }
                }
            }
            let mut j: usize = 0;
            if !dup {
                while j < names.len() && name_lt(names[j].as_str(), name.as_str())
                    invariant
                        0 <= j <= names@.len(),
                        names@ == old_names,
                        name@ == raw_views[i as int],
                        forall|k: int|
                            0 <= k < j ==> spec_name_lt(#[trigger] names@[k]@, name@),
                    decreases names@.len() - j,
                {
                    j += 1;
                }
                proof {
                    if (j as int) < names@.len() {
                        lemma_name_lt_total(names@[j as int]@, name@);
                        assert(names@[j as int]@ != name@);
                        assert(spec_name_lt(name@, names@[j as int]@));
                    }
                }
                names.insert(j, name);
                proof {
                    assert(names@.len() == old_names.len() + 1);
                    assert(forall|k: int| 0 <= k < j ==> names@[k] == old_names[k]);
                    assert(names@[j as int]@ == name@);
                    assert(forall|k: int|
                        j < k < names@.len() ==> names@[k] == old_names[k - 1]);
                }
            }
            proof {
                let next = raw_views.take(i as int + 1);
                assert(next =~= prefix.push(raw_views[i as int]));
                assert forall|x: Seq<char>|
                    (exists|k: int| 0 <= k < names@.len() && #[trigger] names@[k]@ == x)
                        <==> next.contains(x) by {
                    // Contents of the updated list, in terms of the prefix.
                    if exists|k: int| 0 <= k < names@.len() && #[trigger] names@[k]@ == x {
                        let k = choose|k: int|
                            0 <= k < names@.len() && #[trigger] names@[k]@ == x;
                        if dup {
                            assert(old_names[k]@ == x);
                            assert(prefix.contains(x));
                            let t = choose|t: int| 0 <= t < prefix.len() && prefix[t] == x;
                            assert(next[t] == x);
                        } else if k < j {
                            assert(old_names[k]@ == x);
                            assert(prefix.contains(x));
                            let t = choose|t: int| 0 <= t < prefix.len() && prefix[t] == x;
                            assert(next[t] == x);
                        } else if k == j {
                            assert(x == name@);
                            assert(next[next.len() - 1] == x);
                        } else {
                            assert(old_names[k - 1]@ == x);
                            assert(prefix.contains(x));
                            let t = choose|t: int| 0 <= t < prefix.len() && prefix[t] == x;
                            assert(next[t] == x);
                        }
                        assert(next.contains(x));
                    }
                    if next.contains(x) {
                        let t = choose|t: int| 0 <= t < next.len() && next[t] == x;
                        if t < prefix.len() {
                            assert(prefix.contains(x));
                            let k = choose|k: int|
                                0 <= k < old_names.len() && #[trigger] old_names[k]@ == x;
                            if dup {
                                assert(names@[k]@ == x);
                            } else if k < j {
                                assert(names@[k]@ == x);
                            } else {
                                assert(names@[k + 1]@ == x);
                            }
                        } else {
                            assert(x == name@);
                            if dup {
                                let k = choose|k: int|
                                    0 <= k < old_names.len() && #[trigger] old_names[k]@
                                        == name@;
                                assert(names@[k]@ == x);
                            } else {
                                assert(names@[j as int]@ == x);
                            }
                        }
                        assert(exists|k: int|
                            0 <= k < names@.len() && #[trigger] names@[k]@ == x);
                    }
                }
            }
            i += 1;
        }
        proof {
            assert(raw_views.take(raw_views.len() as int) =~= raw_views);
        }
        let names_copy = clone_names(&names);
        proof {
            let cv = names_copy@.map_values(|k: String| k@);
            let nv = names@.map_values(|k: String| k@);
            assert(cv == nv);
            assert forall|a: int, b: int|
                0 <= a < b < names_copy@.len() implies names_copy@[a]@ != names_copy@[b]@ by {
                assert(cv[a] == names_copy@[a]@);
                assert(cv[b] == names_copy@[b]@);
                assert(nv[a] == names@[a]@);
                assert(nv[b] == names@[b]@);
            }
        }
        let set = boom_new(names_copy);
        let s = NameSet { names, set };
        proof {
            let mv = s.names();
            assert(mv.len() == names@.len());
            assert(forall|k: int| 0 <= k < mv.len() ==> #[trigger] mv[k] == names@[k]@);
            // The pointwise loop facts carry over to the public view.
            assert forall|k: int| 0 <= k && k + 1 < mv.len() implies spec_name_lt(
                #[trigger] mv[k],
                mv[k + 1],
            ) by {
                assert(mv[k] == names@[k]@ && mv[k + 1] == names@[k + 1]@);
            }
            assert forall|a: int, b: int| 0 <= a < b < mv.len() implies mv[a] != mv[b] by {
                assert(mv[a] == names@[a]@ && mv[b] == names@[b]@);
            }
            assert forall|x: Seq<char>|
                mv.contains(x) <==> raw_views.contains(x) by {
                if mv.contains(x) {
                    let k = choose|k: int| 0 <= k < mv.len() && mv[k] == x;
                    assert(names@[k]@ == x);
                }
                if exists|k: int| 0 <= k < names@.len() && #[trigger] names@[k]@ == x {
                    let k = choose|k: int| 0 <= k < names@.len() && #[trigger] names@[k]@ == x;
                    assert(mv[k] == x);
                }
            }
        }
        s
    }

    /// The set is empty exactly when it holds no names.
    pub fn is_empty(&self) -> (r: bool)
        ensures
            r == (self.names().len() == 0),
    {
        self.names.len() == 0
    }

    /// Membership test for one name.
    pub fn contains(&self, name: &str) -> (r: bool)
        requires
            self.wf(),
        ensures
            r == self.spec_contains(name@),
    {
        let r = boom_contains(&self.set, name);
        proof {
            if self.names().to_set().contains(name@) {
                assert(self.names().contains(name@));
            }
            if self.names().contains(name@) {
                assert(self.names().to_set().contains(name@));
            }
        }
        r
    }
}

/// A copy of the name list, element views preserved.
fn clone_names(names: &Vec<String>) -> (r: Vec<String>)
    ensures
        r@.map_values(|k: String| k@) == names@.map_values(|k: String| k@),
{
    let mut out: Vec<String> = Vec::new();
    let mut i: usize = 0;
    while i < names.len()
        invariant
            0 <= i <= names@.len(),
            out@.len() == i,
            forall|j: int| 0 <= j < i ==> out@[j]@ == names@[j]@,
        decreases names@.len() - i,
    {
        out.push(names[i].clone());
        i += 1;
    }
    proof {
        assert(out@.map_values(|k: String| k@) =~= names@.map_values(|k: String| k@));
    }
    out
}

} // verus!
