//! An ordered table of records: the abstract ordered map every part of
//! the governance state is kept in.
//!
//! A record is filed under a key made of a number and a text. Keys are
//! ordered by the number first, then by the UTF-8 bytes of the text, so a
//! table can be walked in ascending or descending key order from an
//! exclusive cursor.
use vstd::prelude::*;
use vstd::string::*;
use vstd::utf8::*;
use vstd::slice::*;

verus! {

/// The key a record is filed under.
pub ghost struct StoreKey {
    pub num: u64,
    pub text: Seq<char>,
}

/// The outcome of comparing two keys.
#[derive(Clone, Copy, Debug, PartialEq, Eq, Structural)]
pub enum KeyOrder {
    Less,
    Equal,
    Greater,
}

/// `a` and `b` agree on their first `i` bytes, and there `a` ends or holds
/// the smaller byte.
pub open spec fn splits_at(a: Seq<u8>, b: Seq<u8>, i: int) -> bool {
    &&& 0 <= i <= a.len()
    &&& i < b.len()
    &&& forall|j: int| 0 <= j < i ==> a[j] == b[j]
    &&& (i < a.len() ==> a[i] < b[i])
}

/// Lexicographic order on byte strings.
pub open spec fn bytes_lt(a: Seq<u8>, b: Seq<u8>) -> bool {
    exists|i: int| splits_at(a, b, i)
}

/// The order of keys: by number, then by the bytes of the text.
pub open spec fn key_lt(a: StoreKey, b: StoreKey) -> bool {
    a.num < b.num || (a.num == b.num && bytes_lt(encode_utf8(a.text), encode_utf8(b.text)))
}

pub proof fn lemma_bytes_irreflexive(a: Seq<u8>)
    ensures
        !bytes_lt(a, a),
{
}

pub proof fn lemma_bytes_transitive(a: Seq<u8>, b: Seq<u8>, c: Seq<u8>)
    requires
        bytes_lt(a, b),
        bytes_lt(b, c),
    ensures
        bytes_lt(a, c),
{
    let i = choose|i: int| splits_at(a, b, i);
    let j = choose|j: int| splits_at(b, c, j);
    let k = if i <= j { i } else { j };
    assert(splits_at(a, c, k));
}

proof fn lemma_bytes_total_from(a: Seq<u8>, b: Seq<u8>, i: int)
    requires
        0 <= i <= a.len(),
        i <= b.len(),
        forall|j: int| 0 <= j < i ==> a[j] == b[j],
    ensures
        bytes_lt(a, b) || a == b || bytes_lt(b, a),
    decreases a.len() - i,
{
    if i == a.len() {
        if i == b.len() {
            assert(a =~= b);
        } else {
            assert(splits_at(a, b, i));
        }
    } else if i == b.len() {
        assert(splits_at(b, a, i));
    } else if a[i] < b[i] {
        assert(splits_at(a, b, i));
    } else if b[i] < a[i] {
        assert(splits_at(b, a, i));
    } else {
        lemma_bytes_total_from(a, b, i + 1);
    }
}

pub proof fn lemma_bytes_total(a: Seq<u8>, b: Seq<u8>)
    ensures
        bytes_lt(a, b) || a == b || bytes_lt(b, a),
{
    lemma_bytes_total_from(a, b, 0);
}

/// Texts with the same bytes are the same text.
pub proof fn lemma_text_of_bytes(a: Seq<char>, b: Seq<char>)
    requires
        encode_utf8(a) == encode_utf8(b),
    ensures
        a == b,
{
    encode_utf8_decode_utf8(a);
    encode_utf8_decode_utf8(b);
}

/// No key is below itself.
pub proof fn lemma_key_irreflexive(a: StoreKey)
    ensures
        !key_lt(a, a),
{
    lemma_bytes_irreflexive(encode_utf8(a.text));
}

/// The key order is transitive.
pub proof fn lemma_key_transitive(a: StoreKey, b: StoreKey, c: StoreKey)
    requires
        key_lt(a, b),
        key_lt(b, c),
    ensures
        key_lt(a, c),
{
    if a.num == b.num && b.num == c.num {
        lemma_bytes_transitive(encode_utf8(a.text), encode_utf8(b.text), encode_utf8(c.text));
    }
}

/// Of two different keys one is below the other.
pub proof fn lemma_key_total(a: StoreKey, b: StoreKey)
    ensures
        key_lt(a, b) || a == b || key_lt(b, a),
{
    if a.num == b.num {
        lemma_bytes_total(encode_utf8(a.text), encode_utf8(b.text));
        if encode_utf8(a.text) == encode_utf8(b.text) {
            lemma_text_of_bytes(a.text, b.text);
        }
    }
}

/// Compares two byte strings lexicographically.
pub fn compare_bytes(a: &[u8], b: &[u8]) -> (r: KeyOrder)
    ensures
        r == KeyOrder::Less <==> bytes_lt(a@, b@),
        r == KeyOrder::Equal <==> a@ == b@,
        r == KeyOrder::Greater <==> bytes_lt(b@, a@),
{
    let mut i: usize = 0;
    while i < a.len() && i < b.len()
        invariant
            i <= a.len(),
            i <= b.len(),
            forall|j: int| 0 <= j < i ==> a@[j] == b@[j],
        decreases a.len() - i,
    {
        if a[i] < b[i] {
            proof {
                assert(splits_at(a@, b@, i as int));
                lemma_bytes_irreflexive(a@);
                if bytes_lt(b@, a@) {
                    lemma_bytes_transitive(a@, b@, a@);
                }
            }
            return KeyOrder::Less;
        }
        if b[i] < a[i] {
            proof {
                assert(splits_at(b@, a@, i as int));
                lemma_bytes_irreflexive(a@);
                if bytes_lt(a@, b@) {
                    lemma_bytes_transitive(a@, b@, a@);
                }
            }
            return KeyOrder::Greater;
        }
        i += 1;
    }
    proof {
        lemma_bytes_irreflexive(a@);
        if i == a.len() && i == b.len() {
            assert(a@ =~= b@);
        } else if i == a.len() {
            assert(splits_at(a@, b@, i as int));
            if bytes_lt(b@, a@) {
                lemma_bytes_transitive(a@, b@, a@);
            }
        } else {
            assert(splits_at(b@, a@, i as int));
            if bytes_lt(a@, b@) {
                lemma_bytes_transitive(a@, b@, a@);
            }
        }
    }
    if i == a.len() && i == b.len() {
        KeyOrder::Equal
    } else if i == a.len() {
        KeyOrder::Less
    } else {
        KeyOrder::Greater
    }
}

/// Compares the key `(a_num, a_text)` with the key `(b_num, b_text)`.
pub fn compare_keys(a_num: u64, a_text: &str, b_num: u64, b_text: &str) -> (r: KeyOrder)
    ensures
        r == KeyOrder::Less <==> key_lt(
            StoreKey { num: a_num, text: a_text@ },
            StoreKey { num: b_num, text: b_text@ },
        ),
        r == KeyOrder::Equal <==> (a_num == b_num && a_text@ == b_text@),
        r == KeyOrder::Greater <==> key_lt(
            StoreKey { num: b_num, text: b_text@ },
            StoreKey { num: a_num, text: a_text@ },
        ),
{
    if a_num < b_num {
        KeyOrder::Less
    } else if b_num < a_num {
        KeyOrder::Greater
    } else {
        let r = compare_bytes(a_text.as_bytes(), b_text.as_bytes());
        proof {
            if a_text.spec_bytes() == b_text.spec_bytes() {
                lemma_text_of_bytes(a_text@, b_text@);
            }
        }
        r
    }
}


/// A value with a model that can be copied faithfully.
pub trait Duplicate: View + Sized {
    /// A copy with the same model.
    fn duplicate(&self) -> (r: Self)
        ensures
            r@ == self@,
    ;
}

/// A value that can be filed in a [`Bucket`]: it has a model, a key that
/// is read off the model, and a faithful copy.
pub trait Record: Duplicate {
    /// The key of the record with model `m`.
    spec fn key_of(m: Self::V) -> StoreKey;

    /// What holds of every record that is filed.
    spec fn valid(m: Self::V) -> bool;

    /// The number in this record's key.
    fn key_num(&self) -> (n: u64)
        ensures
            n == Self::key_of(self@).num,
    ;

    /// The text in this record's key.
    fn key_text(&self) -> (t: &str)
        ensures
            t@ == Self::key_of(self@).text,
    ;
}

/// The keys of `s` are strictly ascending.
pub open spec fn sorted<T: Record>(s: Seq<T::V>) -> bool {
    forall|i: int, j: int|
        0 <= i < j < s.len() ==> key_lt(T::key_of(#[trigger] s[i]), T::key_of(#[trigger] s[j]))
}

/// Every record of `s` is valid.
pub open spec fn all_valid<T: Record>(s: Seq<T::V>) -> bool {
    forall|i: int| 0 <= i < s.len() ==> T::valid(#[trigger] s[i])
}

/// The number of records of `s` whose key is below `k`. In a sorted table
/// this is where `k` is filed.
pub open spec fn rank<T: Record>(s: Seq<T::V>, k: StoreKey) -> int
    decreases s.len(),
{
    if s.len() == 0 {
        0
    } else {
        rank::<T>(s.drop_last(), k) + if key_lt(T::key_of(s.last()), k) {
            1int
        } else {
            0int
        }
    }
}

/// Whether a record is filed under `k`.
pub open spec fn has_key<T: Record>(s: Seq<T::V>, k: StoreKey) -> bool {
    let p = rank::<T>(s, k);
    p < s.len() && T::key_of(s[p]) == k
}

/// The record filed under `k`, if there is one.
pub open spec fn lookup<T: Record>(s: Seq<T::V>, k: StoreKey) -> Option<T::V> {
    if has_key::<T>(s, k) {
        Some(s[rank::<T>(s, k)])
    } else {
        None
    }
}

/// The table after `m` is filed: it takes the place of the record with
/// its key, or is inserted where its key belongs.
pub open spec fn put<T: Record>(s: Seq<T::V>, m: T::V) -> Seq<T::V> {
    let p = rank::<T>(s, T::key_of(m));
    if has_key::<T>(s, T::key_of(m)) {
        s.update(p, m)
    } else {
        s.insert(p, m)
    }
}

/// The table without the record filed under `k`.
pub open spec fn delete<T: Record>(s: Seq<T::V>, k: StoreKey) -> Seq<T::V> {
    if has_key::<T>(s, k) {
        s.remove(rank::<T>(s, k))
    } else {
        s
    }
}

/// Where a walk stops and what it passes over: only keys with the number
/// `prefix` (if given), and only keys strictly beyond the cursor `after`
/// in the direction of the walk.
pub ghost struct Walk {
    pub prefix: Option<u64>,
    pub after: Option<StoreKey>,
    pub descending: bool,
    pub limit: nat,
}

impl Walk {
    /// Whether the walk reports a record filed under `k`.
    pub open spec fn admits(self, k: StoreKey) -> bool {
        &&& (self.prefix matches Some(n) ==> k.num == n)
        &&& (self.after matches Some(c) ==> if self.descending {
            key_lt(k, c)
        } else {
            key_lt(c, k)
        })
    }
}

/// The records a walk reports: in ascending key order, or descending, the
/// first `limit` of those it admits.
pub open spec fn walk<T: Record>(s: Seq<T::V>, w: Walk) -> Seq<T::V> {
    let ordered = if w.descending {
        s.reverse()
    } else {
        s
    };
    let admitted = ordered.filter(|m: T::V| w.admits(T::key_of(m)));
    if admitted.len() <= w.limit {
        admitted
    } else {
        admitted.take(w.limit as int)
    }
}

/// In a sorted table, `rank` splits the records into those below `k` and
/// those not below it.
pub proof fn lemma_rank<T: Record>(s: Seq<T::V>, k: StoreKey)
    requires
        sorted::<T>(s),
    ensures
        0 <= rank::<T>(s, k) <= s.len(),
        forall|j: int| 0 <= j < rank::<T>(s, k) ==> key_lt(T::key_of(#[trigger] s[j]), k),
        forall|j: int|
            rank::<T>(s, k) <= j < s.len() ==> !key_lt(T::key_of(#[trigger] s[j]), k),
    decreases s.len(),
{
    if s.len() > 0 {
        let t = s.drop_last();
        assert(sorted::<T>(t)) by {
            assert forall|i: int, j: int| 0 <= i < j < t.len() implies key_lt(
                T::key_of(#[trigger] t[i]),
                T::key_of(#[trigger] t[j]),
            ) by {
                assert(t[i] == s[i] && t[j] == s[j]);
            }
        }
        lemma_rank::<T>(t, k);
        let p = rank::<T>(t, k);
        assert forall|j: int| 0 <= j < t.len() implies t[j] == s[j] by {}
        if key_lt(T::key_of(s.last()), k) {
            if p < t.len() {
                assert(t[p] == s[p]);
                assert(key_lt(T::key_of(s[p]), T::key_of(s[s.len() - 1])));
                lemma_key_transitive(T::key_of(s[p]), T::key_of(s.last()), k);
                assert(false);
            }
        }
    }
}

/// The position found by a scan is the rank.
pub proof fn lemma_rank_is<T: Record>(s: Seq<T::V>, k: StoreKey, p: int)
    requires
        sorted::<T>(s),
        0 <= p <= s.len(),
        forall|j: int| 0 <= j < p ==> key_lt(T::key_of(#[trigger] s[j]), k),
        p < s.len() ==> !key_lt(T::key_of(s[p]), k),
    ensures
        rank::<T>(s, k) == p,
{
    lemma_rank::<T>(s, k);
    let r = rank::<T>(s, k);
    if r < p {
        assert(key_lt(T::key_of(s[r]), k));
    }
    if p < r {
        assert(key_lt(T::key_of(s[p]), k));
    }
}

/// A record of a sorted table is the one filed under its own key.
pub proof fn lemma_lookup_at<T: Record>(s: Seq<T::V>, i: int)
    requires
        sorted::<T>(s),
        0 <= i < s.len(),
    ensures
        rank::<T>(s, T::key_of(s[i])) == i,
        lookup::<T>(s, T::key_of(s[i])) == Some(s[i]),
{
    let k = T::key_of(s[i]);
    lemma_key_irreflexive(k);
    lemma_rank_is::<T>(s, k, i);
}

/// Under a key that is filed, `lookup` finds a record of the table with
/// that key; under another, nothing.
pub proof fn lemma_lookup<T: Record>(s: Seq<T::V>, k: StoreKey)
    requires
        sorted::<T>(s),
    ensures
        match lookup::<T>(s, k) {
            Some(m) => T::key_of(m) == k && s.contains(m),
            None => forall|i: int| 0 <= i < s.len() ==> T::key_of(#[trigger] s[i]) != k,
        },
{
    lemma_rank::<T>(s, k);
    if !has_key::<T>(s, k) {
        assert forall|i: int| 0 <= i < s.len() implies T::key_of(#[trigger] s[i]) != k by {
            if T::key_of(s[i]) == k {
                lemma_lookup_at::<T>(s, i);
            }
        }
    }
}

/// Filing keeps the table sorted; afterwards the new record is found under
/// its key and every other key finds what it found before.
pub proof fn lemma_put<T: Record>(s: Seq<T::V>, m: T::V)
    requires
        sorted::<T>(s),
    ensures
        sorted::<T>(put::<T>(s, m)),
        lookup::<T>(put::<T>(s, m), T::key_of(m)) == Some(m),
        forall|k: StoreKey|
            k != T::key_of(m) ==> #[trigger] lookup::<T>(put::<T>(s, m), k) == lookup::<T>(s, k),
        put::<T>(s, m).len() == if has_key::<T>(s, T::key_of(m)) {
            s.len()
        } else {
            s.len() + 1
        },
        all_valid::<T>(s) && T::valid(m) ==> all_valid::<T>(put::<T>(s, m)),
{
    let km = T::key_of(m);
    let p = rank::<T>(s, km);
    let t = put::<T>(s, m);
    lemma_rank::<T>(s, km);
    lemma_key_irreflexive(km);
    let shift = if has_key::<T>(s, km) { 0int } else { 1int };
    // every record of `t` is `m` or a record of `s`
    assert forall|i: int| 0 <= i < t.len() implies #[trigger] t[i] == (if i < p {
        s[i]
    } else if i == p {
        m
    } else {
        s[i - shift]
    }) by {}
    assert(sorted::<T>(t)) by {
        assert forall|i: int, j: int| 0 <= i < j < t.len() implies key_lt(
            T::key_of(#[trigger] t[i]),
            T::key_of(#[trigger] t[j]),
        ) by {
            if i == p {
                let q = j - shift;
                lemma_key_total(km, T::key_of(s[q]));
                if shift == 0 {
                    assert(key_lt(T::key_of(s[p]), T::key_of(s[q])));
                } else if q > p {
                    assert(key_lt(T::key_of(s[p]), T::key_of(s[q])));
                    if !key_lt(km, T::key_of(s[q])) {
                        if km == T::key_of(s[q]) {
                            lemma_key_total(km, T::key_of(s[p]));
                            lemma_key_irreflexive(km);
                            assert(false);
                        } else {
                            assert(false);
                        }
                    }
                } else {
                    assert(q == p);
                }
            } else if j == p {
                assert(key_lt(T::key_of(s[i]), km));
            } else if i < p && j > p {
                assert(key_lt(T::key_of(s[i]), T::key_of(s[j - shift])));
            } else if i < p {
                assert(key_lt(T::key_of(s[i]), T::key_of(s[j])));
            } else {
                assert(key_lt(T::key_of(s[i - shift]), T::key_of(s[j - shift])));
            }
        }
    }
    assert(t[p] == m);
    lemma_lookup_at::<T>(t, p);
    assert forall|k: StoreKey| k != km implies #[trigger] lookup::<T>(t, k) == lookup::<T>(
        s,
        k,
    ) by {
        lemma_lookup::<T>(s, k);
        lemma_lookup::<T>(t, k);
        match lookup::<T>(s, k) {
            Some(v) => {
                let i = choose|i: int| 0 <= i < s.len() && s[i] == v;
                let i2 = if i < p { i } else { i + shift };
                assert(t[i2] == v);
                lemma_lookup_at::<T>(t, i2);
            },
            None => {
                if let Some(v) = lookup::<T>(t, k) {
                    let i = choose|i: int| 0 <= i < t.len() && t[i] == v;
                    if i != p {
                        let i0 = if i < p { i } else { i - shift };
                        assert(s[i0] == v);
                    }
                }
            },
        }
    }
}

/// Removing keeps the table sorted; afterwards nothing is found under the
/// removed key and every other key finds what it found before.
pub proof fn lemma_delete<T: Record>(s: Seq<T::V>, k0: StoreKey)
    requires
        sorted::<T>(s),
    ensures
        sorted::<T>(delete::<T>(s, k0)),
        lookup::<T>(delete::<T>(s, k0), k0) is None,
        forall|k: StoreKey|
            k != k0 ==> #[trigger] lookup::<T>(delete::<T>(s, k0), k) == lookup::<T>(s, k),
        all_valid::<T>(s) ==> all_valid::<T>(delete::<T>(s, k0)),
{
    let p = rank::<T>(s, k0);
    let t = delete::<T>(s, k0);
    lemma_rank::<T>(s, k0);
    if has_key::<T>(s, k0) {
        assert forall|i: int| 0 <= i < t.len() implies #[trigger] t[i] == (if i < p {
            s[i]
        } else {
            s[i + 1]
        }) by {}
        assert(sorted::<T>(t)) by {
            assert forall|i: int, j: int| 0 <= i < j < t.len() implies key_lt(
                T::key_of(#[trigger] t[i]),
                T::key_of(#[trigger] t[j]),
            ) by {
                let i0 = if i < p { i } else { i + 1 };
                let j0 = if j < p { j } else { j + 1 };
                assert(key_lt(T::key_of(s[i0]), T::key_of(s[j0])));
            }
        }
        lemma_lookup::<T>(t, k0);
        if let Some(v) = lookup::<T>(t, k0) {
            let i = choose|i: int| 0 <= i < t.len() && t[i] == v;
            let i0 = if i < p { i } else { i + 1 };
            lemma_lookup_at::<T>(s, i0);
            assert(false);
        }
        assert forall|k: StoreKey| k != k0 implies #[trigger] lookup::<T>(t, k) == lookup::<T>(
            s,
            k,
        ) by {
            lemma_lookup::<T>(s, k);
            lemma_lookup::<T>(t, k);
            match lookup::<T>(s, k) {
                Some(v) => {
                    let i = choose|i: int| 0 <= i < s.len() && s[i] == v;
                    let i2 = if i < p { i } else { i - 1 };
                    assert(t[i2] == v);
                    lemma_lookup_at::<T>(t, i2);
                },
                None => {
                    if let Some(v) = lookup::<T>(t, k) {
                        let i = choose|i: int| 0 <= i < t.len() && t[i] == v;
                        let i0 = if i < p { i } else { i + 1 };
                        assert(s[i0] == v);
                    }
                },
            }
        }
    } else {
        lemma_lookup::<T>(s, k0);
    }
}


/// The models of a sequence of values.
pub open spec fn models<T: View>(v: Seq<T>) -> Seq<T::V> {
    v.map_values(|t: T| t@)
}

/// The model of an optional text.
pub open spec fn text_of(o: Option<String>) -> Option<Seq<char>> {
    match o {
        Some(s) => Some(s@),
        None => None,
    }
}

/// Copies an optional text.
pub fn duplicate_text(o: &Option<String>) -> (r: Option<String>)
    ensures
        text_of(r) == text_of(*o),
{
    match o {
        Some(s) => Some(s.clone()),
        None => None,
    }
}

/// Copies every element of `v`.
pub fn duplicate_all<T: Duplicate>(v: &Vec<T>) -> (r: Vec<T>)
    ensures
        models(r@) == models(v@),
{
    let mut out: Vec<T> = Vec::new();
    let mut i: usize = 0;
    while i < v.len()
        invariant
            i <= v.len(),
            out.len() == i,
            forall|j: int| 0 <= j < i ==> out[j]@ == v[j]@,
        decreases v.len() - i,
    {
        out.push(v[i].duplicate());
        i += 1;
    }
    assert(models(out@) =~= models(v@));
    out
}

/// The first `limit` elements of `s`, or all of it.
pub open spec fn capped<A>(s: Seq<A>, limit: nat) -> Seq<A> {
    if s.len() <= limit {
        s
    } else {
        s.take(limit as int)
    }
}

pub proof fn lemma_filter_step<A>(s: Seq<A>, pred: spec_fn(A) -> bool, i: int)
    requires
        0 <= i < s.len(),
    ensures
        s.take(i + 1).filter(pred) == if pred(s[i]) {
            s.take(i).filter(pred).push(s[i])
        } else {
            s.take(i).filter(pred)
        },
{
    reveal(Seq::filter);
    assert(s.take(i + 1).drop_last() =~= s.take(i));
}

/// A walk reports records of the table only, each of which it admits,
/// and no more of them than its limit.
pub proof fn lemma_walk_reports_records<T: Record>(s: Seq<T::V>, w: Walk)
    ensures
        walk::<T>(s, w).len() <= w.limit,
        walk::<T>(s, w).len() <= s.len(),
        forall|i: int|
            0 <= i < walk::<T>(s, w).len() ==> s.contains(#[trigger] walk::<T>(s, w)[i])
                && w.admits(T::key_of(walk::<T>(s, w)[i])),
{
    let ordered = if w.descending {
        s.reverse()
    } else {
        s
    };
    let pred = |m: T::V| w.admits(T::key_of(m));
    let admitted = ordered.filter(pred);
    ordered.lemma_filter_len(pred);
    assert forall|i: int| 0 <= i < walk::<T>(s, w).len() implies s.contains(
        #[trigger] walk::<T>(s, w)[i],
    ) && w.admits(T::key_of(walk::<T>(s, w)[i])) by {
        let m = walk::<T>(s, w)[i];
        assert(m == admitted[i]);
        ordered.lemma_filter_pred(pred, i);
        assert(admitted.contains(m));
        ordered.lemma_filter_contains_rev(pred, m);
        let j = choose|j: int| 0 <= j < ordered.len() && ordered[j] == m;
        if w.descending {
            assert(s[s.len() - 1 - j] == m);
        }
    }
}

/// Whether the record `a` comes before the record `b` on a walk in the
/// given direction.
pub open spec fn comes_before<T: Record>(a: T::V, b: T::V, descending: bool) -> bool {
    if descending {
        key_lt(T::key_of(b), T::key_of(a))
    } else {
        key_lt(T::key_of(a), T::key_of(b))
    }
}

/// Each record of `s` comes before those behind it.
pub open spec fn in_walk_order<T: Record>(s: Seq<T::V>, descending: bool) -> bool {
    forall|i: int, j: int|
        0 <= i < j < s.len() ==> comes_before::<T>(#[trigger] s[i], #[trigger] s[j], descending)
}

/// What is picked out of records in walk order is in walk order.
proof fn lemma_filter_keeps_order<T: Record>(
    s: Seq<T::V>,
    pred: spec_fn(T::V) -> bool,
    descending: bool,
)
    requires
        in_walk_order::<T>(s, descending),
    ensures
        in_walk_order::<T>(s.filter(pred), descending),
        forall|i: int| 0 <= i < s.filter(pred).len() ==> s.contains(#[trigger] s.filter(pred)[i]),
    decreases s.len(),
{
    reveal(Seq::filter);
    if s.len() > 0 {
        let front = s.drop_last();
        assert forall|i: int, j: int| 0 <= i < j < front.len() implies comes_before::<T>(
            #[trigger] front[i],
            #[trigger] front[j],
            descending,
        ) by {
            assert(front[i] == s[i] && front[j] == s[j]);
        }
        lemma_filter_keeps_order::<T>(front, pred, descending);
        let picked = front.filter(pred);
        let all = s.filter(pred);
        assert forall|i: int| 0 <= i < all.len() implies s.contains(#[trigger] all[i]) by {
            if i < picked.len() {
                assert(front.contains(picked[i]));
                let k = choose|k: int| 0 <= k < front.len() && front[k] == picked[i];
                assert(s[k] == picked[i]);
            } else {
                assert(s[s.len() - 1] == all[i]);
            }
        }
        assert forall|i: int, j: int| 0 <= i < j < all.len() implies comes_before::<T>(
            #[trigger] all[i],
            #[trigger] all[j],
            descending,
        ) by {
            if j == picked.len() {
                assert(front.contains(picked[i]));
                let k = choose|k: int| 0 <= k < front.len() && front[k] == picked[i];
                assert(comes_before::<T>(s[k], s[s.len() - 1], descending));
            }
        }
    }
}

/// A walk over a table in key order reports its records in the order of
/// their keys: ascending, or descending where that is asked for.
pub proof fn lemma_walk_is_in_order<T: Record>(s: Seq<T::V>, w: Walk)
    requires
        sorted::<T>(s),
    ensures
        in_walk_order::<T>(walk::<T>(s, w), w.descending),
{
    let ordered = if w.descending {
        s.reverse()
    } else {
        s
    };
    assert(in_walk_order::<T>(ordered, w.descending)) by {
        assert forall|i: int, j: int| 0 <= i < j < ordered.len() implies comes_before::<T>(
            #[trigger] ordered[i],
            #[trigger] ordered[j],
            w.descending,
        ) by {
            if w.descending {
                assert(key_lt(T::key_of(s[s.len() - 1 - j]), T::key_of(s[s.len() - 1 - i])));
            }
        }
    }
    lemma_filter_keeps_order::<T>(ordered, |m: T::V| w.admits(T::key_of(m)), w.descending);
}

/// An exclusive cursor: the key after which a walk starts.
#[derive(Clone, Debug, PartialEq, Eq)]
pub struct Cursor {
    pub num: u64,
    pub text: String,
}

impl View for Cursor {
    type V = StoreKey;

    open spec fn view(&self) -> StoreKey {
        StoreKey { num: self.num, text: self.text@ }
    }
}

/// The model of an optional cursor.
pub open spec fn cursor_key(after: Option<Cursor>) -> Option<StoreKey> {
    match after {
        Some(c) => Some(c@),
        None => None,
    }
}

/// A table of records in ascending key order, at most one per key.
#[derive(Debug)]
pub struct Bucket<T: Record> {
    items: Vec<T>,
}

impl<T: Record> View for Bucket<T> {
    type V = Seq<T::V>;

    closed spec fn view(&self) -> Seq<T::V> {
        models(self.items@)
    }
}

impl<T: Record> Bucket<T> {
    /// The table is in strictly ascending key order and holds valid
    /// records only.
    pub open spec fn wf(&self) -> bool {
        sorted::<T>(self@) && all_valid::<T>(self@)
    }

    /// The empty table.
    pub fn new() -> (b: Self)
        ensures
            b.wf(),
            b@ == Seq::<T::V>::empty(),
    {
        let b = Bucket { items: Vec::new() };
        assert(b@ =~= Seq::<T::V>::empty());
        b
    }

    /// The number of records.
    pub fn len(&self) -> (n: usize)
        ensures
            n == self@.len(),
    {
        self.items.len()
    }

    /// The record at position `i` of the ascending order.
    pub fn at(&self, i: usize) -> (r: &T)
        requires
            i < self@.len(),
        ensures
            r@ == self@[i as int],
    {
        &self.items[i]
    }

    /// Whether the record `item` is reported by a walk with the given
    /// bounds.
    fn admits(item: &T, prefix: &Option<u64>, after: &Option<Cursor>, descending: bool) -> (b:
        bool)
        ensures
            b == (Walk {
                prefix: *prefix,
                after: cursor_key(*after),
                descending,
                limit: 0,
            }).admits(T::key_of(item@)),
    {
        let in_prefix = match prefix {
            Some(n) => item.key_num() == *n,
            None => true,
        };
        let beyond = match after {
            Some(c) => {
                let o = compare_keys(item.key_num(), item.key_text(), c.num, c.text.as_str());
                if descending {
                    o == KeyOrder::Less
                } else {
                    o == KeyOrder::Greater
                }
            },
            None => true,
        };
        in_prefix && beyond
    }

    /// Where the key `(num, text)` is filed, and whether a record is there.
    fn search(&self, num: u64, text: &str) -> (r: (usize, bool))
        requires
            self.wf(),
        ensures
            r.0 == rank::<T>(self@, StoreKey { num, text: text@ }),
            r.1 == has_key::<T>(self@, StoreKey { num, text: text@ }),
            r.0 <= self@.len(),
    {
        let ghost k = StoreKey { num, text: text@ };
        let mut i: usize = 0;
        while i < self.items.len()
            invariant
                self.wf(),
                i <= self.items.len(),
                k == (StoreKey { num, text: text@ }),
                forall|j: int| 0 <= j < i ==> key_lt(T::key_of(#[trigger] self@[j]), k),
            decreases self.items.len() - i,
        {
            let item = &self.items[i];
            assert(item@ == self@[i as int]);
            let o = compare_keys(item.key_num(), item.key_text(), num, text);
            match o {
                KeyOrder::Less => {
                    i += 1;
                },
                KeyOrder::Equal => {
                    proof {
                        assert(T::key_of(self@[i as int]) == k);
                        lemma_key_irreflexive(k);
                        lemma_rank_is::<T>(self@, k, i as int);
                    }
                    return (i, true);
                },
                KeyOrder::Greater => {
                    proof {
                        let ki = T::key_of(self@[i as int]);
                        lemma_key_irreflexive(k);
                        if key_lt(ki, k) {
                            lemma_key_transitive(k, ki, k);
                        }
                        lemma_rank_is::<T>(self@, k, i as int);
                    }
                    return (i, false);
                },
            }
        }
        proof {
            lemma_rank_is::<T>(self@, k, i as int);
        }
        (i, false)
    }

    /// The record filed under `(num, text)`, if there is one.
    pub fn get(&self, num: u64, text: &str) -> (r: Option<&T>)
        requires
            self.wf(),
        ensures
            match lookup::<T>(self@, StoreKey { num, text: text@ }) {
                Some(m) => r matches Some(t) && t@ == m,
                None => r is None,
            },
    {
        let (p, found) = self.search(num, text);
        if found {
            Some(&self.items[p])
        } else {
            None
        }
    }

    /// Whether a record is filed under `(num, text)`.
    pub fn contains_key(&self, num: u64, text: &str) -> (b: bool)
        requires
            self.wf(),
        ensures
            b == has_key::<T>(self@, StoreKey { num, text: text@ }),
    {
        let (_p, found) = self.search(num, text);
        found
    }

    /// Files `item` under its key, in place of the record that was there.
    pub fn put(&mut self, item: T)
        requires
            old(self).wf(),
            T::valid(item@),
        ensures
            final(self).wf(),
            final(self)@ == put::<T>(old(self)@, item@),
    {
        let (p, found) = self.search(item.key_num(), item.key_text());
        proof {
            lemma_put::<T>(self@, item@);
        }
        let ghost before = self.items@;
        if found {
            self.items[p] = item;
            assert(models(self.items@) =~= models(before).update(p as int, item@));
        } else {
            self.items.insert(p, item);
            assert(models(self.items@) =~= models(before).insert(p as int, item@));
        }
    }

    /// Removes the record filed under `(num, text)`, if there is one.
    pub fn delete(&mut self, num: u64, text: &str)
        requires
            old(self).wf(),
        ensures
            final(self).wf(),
            final(self)@ == delete::<T>(old(self)@, StoreKey { num, text: text@ }),
    {
        let (p, found) = self.search(num, text);
        proof {
            lemma_delete::<T>(self@, StoreKey { num, text: text@ });
        }
        let ghost before = self.items@;
        if found {
            self.items.remove(p);
            assert(models(self.items@) =~= models(before).remove(p as int));
        }
    }

    /// Walks the table in ascending or descending key order and reports
    /// copies of the first `limit` records that have the number `prefix`
    /// in their key (if one is given) and lie strictly beyond `after`.
    pub fn walk(
        &self,
        prefix: Option<u64>,
        after: Option<Cursor>,
        descending: bool,
        limit: usize,
    ) -> (r: Vec<T>)
        ensures
            models(r@) == walk::<T>(
                self@,
                Walk { prefix, after: cursor_key(after), descending, limit: limit as nat },
            ),
    {
        let ghost w = Walk { prefix, after: cursor_key(after), descending, limit: limit as nat };
        let ghost pred = |m: T::V| w.admits(T::key_of(m));
        let ghost ordered = if descending {
            self@.reverse()
        } else {
            self@
        };
        let n = self.items.len();
        let mut out: Vec<T> = Vec::new();
        let mut i: usize = 0;
        proof {
            reveal(Seq::filter);
            assert(ordered.take(0).filter(pred) =~= Seq::<T::V>::empty());
            assert(models(out@) =~= Seq::<T::V>::empty());
        }
        while i < n
            invariant
                n == self.items.len(),
                n == ordered.len(),
                i <= n,
                w == (Walk { prefix, after: cursor_key(after), descending, limit: limit as nat }),
                pred == (|m: T::V| w.admits(T::key_of(m))),
                ordered == (if descending {
                    self@.reverse()
                } else {
                    self@
                }),
                models(out@) == capped(ordered.take(i as int).filter(pred), limit as nat),
            decreases n - i,
        {
            let idx = if descending {
                n - 1 - i
            } else {
                i
            };
            let item = &self.items[idx];
            let ghost f = ordered.take(i as int).filter(pred);
            proof {
                assert(item@ == ordered[i as int]);
                lemma_filter_step(ordered, pred, i as int);
            }
            let ok = Self::admits(item, &prefix, &after, descending);
            assert(ok == pred(ordered[i as int]));
            if ok && out.len() < limit {
                let ghost before = out@;
                out.push(item.duplicate());
                assert(models(out@) =~= models(before).push(item@));
            } else if ok {
                assert(capped(f.push(ordered[i as int]), limit as nat) =~= capped(
                    f,
                    limit as nat,
                ));
            }
            i += 1;
        }
        assert(ordered.take(n as int) =~= ordered);
        out
    }
}

} // verus!
