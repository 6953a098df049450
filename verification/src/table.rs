use vstd::prelude::*;

verus! {

/// A record stored under a text key.
pub trait Keyed {
    spec fn key(&self) -> Seq<char>;

    fn key_text(&self) -> (r: &String)
        ensures
            r@ == self.key(),
    ;
}

/// The map a sequence of records stands for: each key is bound to the last
/// record in the sequence that carries it.
pub open spec fn keyed_map<T: Keyed>(s: Seq<T>) -> Map<Seq<char>, T>
    decreases s.len(),
{
    if s.len() == 0 {
        Map::empty()
    } else {
        keyed_map(s.drop_last()).insert(s.last().key(), s.last())
    }
}

pub proof fn lemma_keyed_map_push<T: Keyed>(s: Seq<T>, t: T)
    ensures
        keyed_map(s.push(t)) == keyed_map(s).insert(t.key(), t),
{
    assert(s.push(t).drop_last() =~= s);
}

/// Records after index `i` that do not carry `k` do not change what the map
/// says of `k`.
pub proof fn lemma_keyed_map_prefix<T: Keyed>(s: Seq<T>, i: int, k: Seq<char>)
    requires
        0 <= i <= s.len(),
        forall|j: int| i <= j < s.len() ==> #[trigger] s[j].key() != k,
    ensures
        keyed_map(s).contains_key(k) == keyed_map(s.take(i)).contains_key(k),
        keyed_map(s).contains_key(k) ==> keyed_map(s)[k] == keyed_map(s.take(i))[k],
    decreases s.len(),
{
    if i == s.len() {
        assert(s.take(i) =~= s);
    } else {
        let d = s.drop_last();
        assert(s[s.len() - 1].key() != k);
        assert(d.take(i) =~= s.take(i));
        assert forall|j: int| i <= j < d.len() implies #[trigger] d[j].key() != k by {
            assert(d[j] == s[j]);
        }
        lemma_keyed_map_prefix(d, i, k);
    }
}

/// Replacing the last record that carries a key rebinds that key.
pub proof fn lemma_keyed_map_update<T: Keyed>(s: Seq<T>, i: int, t: T)
    requires
        0 <= i < s.len(),
        s[i].key() == t.key(),
        forall|j: int| i < j < s.len() ==> #[trigger] s[j].key() != t.key(),
    ensures
        keyed_map(s.update(i, t)) == keyed_map(s).insert(t.key(), t),
    decreases s.len(),
{
    let u = s.update(i, t);
    if i == s.len() - 1 {
        assert(u.drop_last() =~= s.drop_last());
        assert(keyed_map(u) =~= keyed_map(s).insert(t.key(), t));
    } else {
        let d = s.drop_last();
        assert(u.drop_last() =~= d.update(i, t));
        assert forall|j: int| i < j < d.len() implies #[trigger] d[j].key() != t.key() by {
            assert(d[j] == s[j]);
        }
        lemma_keyed_map_update(d, i, t);
        assert(s.last().key() != t.key());
        assert(keyed_map(u) =~= keyed_map(s).insert(t.key(), t));
    }
}

/// Every record is bound to its own key.
pub proof fn lemma_keyed_map_keys<T: Keyed>(s: Seq<T>)
    ensures
        forall|k: Seq<char>| #[trigger] keyed_map(s).contains_key(k) ==> keyed_map(s)[k].key() == k,
    decreases s.len(),
{
    if s.len() > 0 {
        lemma_keyed_map_keys(s.drop_last());
        let m = keyed_map(s.drop_last());
        assert forall|k: Seq<char>| #[trigger] keyed_map(s).contains_key(k) implies keyed_map(s)[k].key()
            == k by {
            if k != s.last().key() {
                assert(m.contains_key(k));
            }
        }
    }
}

/// Index of the last record carrying `key`, if any.
pub fn find_last<T: Keyed>(v: &Vec<T>, key: &String) -> (r: Option<usize>)
    ensures
        match r {
            None => !keyed_map(v@).contains_key(key@),
            Some(i) => {
                &&& i < v@.len()
                &&& v@[i as int].key() == key@
                &&& keyed_map(v@).contains_key(key@)
                &&& keyed_map(v@)[key@] == v@[i as int]
                &&& forall|j: int| i < j < v@.len() ==> #[trigger] v@[j].key() != key@
            },
        },
{
    let mut i: usize = v.len();
    while i > 0
        invariant
            i <= v@.len(),
            forall|j: int| i <= j < v@.len() ==> #[trigger] v@[j].key() != key@,
        decreases i,
    {
        let k = v[i - 1].key_text();
        if *k == *key {
            proof {
                let s = v@;
                lemma_keyed_map_prefix(s, i as int, key@);
                let p = s.take(i as int);
                assert(p.drop_last() =~= s.take(i - 1));
                assert(p.last() == s[i - 1]);
            }
            return Some(i - 1);
        }
        i = i - 1;
    }
    proof {
        lemma_keyed_map_prefix(v@, 0, key@);
        assert(v@.take(0).len() == 0);
    }
    None
}

/// Binds the record's key to the record, in place where the key is already
/// present.
pub fn upsert<T: Keyed>(v: &mut Vec<T>, item: T)
    ensures
        keyed_map(final(v)@) == keyed_map(old(v)@).insert(item.key(), item),
{
    let ghost k = item.key();
    let found = find_last(v, item.key_text());
    match found {
        Some(i) => {
            proof {
                lemma_keyed_map_update(old(v)@, i as int, item);
            }
            v.set(i, item);
        },
        None => {
            proof {
                lemma_keyed_map_push(old(v)@, item);
            }
            v.push(item);
        },
    }
}

} // verus!
