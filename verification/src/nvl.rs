//! The attribute-list ("named-value list") model and its typed accessors.
//!
//! An attribute list is an ordered mapping from string keys to typed
//! values: strings, unsigned 64-bit integers, arrays of those, nested
//! lists and arrays of nested lists.  Each typed accessor fails with
//! `NotFound` when the key is absent or the stored type disagrees with
//! the requested one.

use vstd::prelude::*;

use crate::error::LibZfsError;

verus! {

broadcast use vstd::std_specs::vec::group_vec_axioms;

/// One typed value held by an attribute list.
#[derive(Debug, PartialEq)]
pub enum NvValue {
    Str(String),
    Uint64(u64),
    Uint64Array(Vec<u64>),
    List(NvList),
    ListArray(Vec<NvList>),
}

/// One key/value pair of an attribute list.
#[derive(Debug, PartialEq)]
pub struct NvPair {
    pub key: String,
    pub value: NvValue,
}

/// An ordered list of key/value pairs.
#[derive(Debug, PartialEq)]
pub struct NvList {
    pub pairs: Vec<NvPair>,
}

/// Mathematical model of one attribute-list value.
pub enum NvVal {
    Str(Seq<char>),
    U64(u64),
    U64Arr(Seq<u64>),
    List(Seq<NvEntry>),
    ListArr(Seq<Seq<NvEntry>>),
}

/// Mathematical model of one key/value pair.
pub struct NvEntry {
    pub key: Seq<char>,
    pub val: NvVal,
}

pub open spec fn value_model(v: NvValue) -> NvVal
    decreases v,
{
    match v {
        NvValue::Str(s) => NvVal::Str(s@),
        NvValue::Uint64(x) => NvVal::U64(x),
        NvValue::Uint64Array(a) => NvVal::U64Arr(a@),
        NvValue::List(l) => NvVal::List(list_model(l)),
        NvValue::ListArray(ls) => NvVal::ListArr(lists_model(ls@)),
    }
}

pub open spec fn pair_model(p: NvPair) -> NvEntry
    decreases p,
{
    NvEntry { key: p.key@, val: value_model(p.value) }
}

pub open spec fn pairs_model(s: Seq<NvPair>) -> Seq<NvEntry>
    decreases s,
{
    if s.len() == 0 {
        Seq::empty()
    } else {
        seq![pair_model(s[0])] + pairs_model(s.drop_first())
    }
}

pub open spec fn list_model(l: NvList) -> Seq<NvEntry>
    decreases l,
{
    pairs_model(l.pairs@)
}

pub open spec fn lists_model(s: Seq<NvList>) -> Seq<Seq<NvEntry>>
    decreases s,
{
    if s.len() == 0 {
        Seq::empty()
    } else {
        seq![list_model(s[0])] + lists_model(s.drop_first())
    }
}

impl View for NvValue {
    type V = NvVal;

    open spec fn view(&self) -> NvVal {
        value_model(*self)
    }
}

impl View for NvPair {
    type V = NvEntry;

    open spec fn view(&self) -> NvEntry {
        pair_model(*self)
    }
}

impl View for NvList {
    type V = Seq<NvEntry>;

    open spec fn view(&self) -> Seq<NvEntry> {
        list_model(*self)
    }
}

/// `pairs_model` maps the pairs elementwise.
pub proof fn lemma_pairs_model(s: Seq<NvPair>)
    ensures
        pairs_model(s).len() == s.len(),
        forall|i: int| 0 <= i < s.len() ==> pairs_model(s)[i] == pair_model(s[i]),
    decreases s.len(),
{
    if s.len() > 0 {
        lemma_pairs_model(s.drop_first());
        assert forall|i: int| 0 <= i < s.len() implies pairs_model(s)[i] == pair_model(s[i]) by {
            if i > 0 {
                assert(s.drop_first()[i - 1] == s[i]);
            }
        }
    }
}

/// The value stored under `key`: the first pair whose key matches, in
/// storage order, regardless of the stored type.
pub open spec fn model_lookup(m: Seq<NvEntry>, key: Seq<char>) -> Option<NvVal>
    decreases m.len(),
{
    if m.len() == 0 {
        None
    } else if m[0].key == key {
        Some(m[0].val)
    } else {
        model_lookup(m.drop_first(), key)
    }
}

/// The string stored under `key`, or `None` on absence or type mismatch.
pub open spec fn model_lookup_str(m: Seq<NvEntry>, key: Seq<char>) -> Option<Seq<char>> {
    match model_lookup(m, key) {
        Some(NvVal::Str(s)) => Some(s),
        _ => None,
    }
}

/// The unsigned 64-bit integer stored under `key`.
pub open spec fn model_lookup_u64(m: Seq<NvEntry>, key: Seq<char>) -> Option<u64> {
    match model_lookup(m, key) {
        Some(NvVal::U64(x)) => Some(x),
        _ => None,
    }
}

/// The unsigned-64 array stored under `key`.
pub open spec fn model_lookup_u64_arr(m: Seq<NvEntry>, key: Seq<char>) -> Option<Seq<u64>> {
    match model_lookup(m, key) {
        Some(NvVal::U64Arr(a)) => Some(a),
        _ => None,
    }
}

/// The nested list stored under `key`.
pub open spec fn model_lookup_list(m: Seq<NvEntry>, key: Seq<char>) -> Option<Seq<NvEntry>> {
    match model_lookup(m, key) {
        Some(NvVal::List(l)) => Some(l),
        _ => None,
    }
}

/// The nested-list array stored under `key`.
pub open spec fn model_lookup_list_arr(m: Seq<NvEntry>, key: Seq<char>) -> Option<
    Seq<Seq<NvEntry>>,
> {
    match model_lookup(m, key) {
        Some(NvVal::ListArr(ls)) => Some(ls),
        _ => None,
    }
}

/// `lists_model` maps the lists elementwise.
pub proof fn lemma_lists_model(s: Seq<NvList>)
    ensures
        lists_model(s).len() == s.len(),
        forall|i: int| 0 <= i < s.len() ==> lists_model(s)[i] == list_model(s[i]),
    decreases s.len(),
{
    if s.len() > 0 {
        lemma_lists_model(s.drop_first());
        assert forall|i: int| 0 <= i < s.len() implies lists_model(s)[i] == list_model(s[i]) by {
            if i > 0 {
                assert(s.drop_first()[i - 1] == s[i]);
            }
        }
    }
}

/// Skipping pairs whose keys do not match leaves the lookup unchanged.
proof fn lemma_model_lookup_skip(m: Seq<NvEntry>, key: Seq<char>, i: int)
    requires
        0 <= i <= m.len(),
        forall|j: int| 0 <= j < i ==> m[j].key != key,
    ensures
        model_lookup(m, key) == model_lookup(m.skip(i), key),
    decreases i,
{
    if i > 0 {
        assert(m[0].key != key);
        lemma_model_lookup_skip(m.drop_first(), key, i - 1);
        assert(m.drop_first().skip(i - 1) =~= m.skip(i));
    } else {
        assert(m.skip(0) =~= m);
    }
}

/// The lookup returns the value of the first pair whose key matches.
pub proof fn lemma_model_lookup_at(m: Seq<NvEntry>, key: Seq<char>, i: int)
    requires
        0 <= i < m.len(),
        forall|j: int| 0 <= j < i ==> m[j].key != key,
        m[i].key == key,
    ensures
        model_lookup(m, key) == Some(m[i].val),
{
    lemma_model_lookup_skip(m, key, i);
    assert(m.skip(i)[0] == m[i]);
}

/// When no key matches, the lookup finds nothing.
pub proof fn lemma_model_lookup_none(m: Seq<NvEntry>, key: Seq<char>)
    requires
        forall|j: int| 0 <= j < m.len() ==> m[j].key != key,
    ensures
        model_lookup(m, key) is None,
{
    lemma_model_lookup_skip(m, key, m.len() as int);
}

/// A value found by the lookup is a strict sub-value of the list model.
pub proof fn lemma_model_lookup_decreases(m: Seq<NvEntry>, key: Seq<char>)
    requires
        model_lookup(m, key) is Some,
    ensures
        decreases_to!(m => model_lookup(m, key)->Some_0),
    decreases m.len(),
{
    if m[0].key == key {
        assert(decreases_to!(m => m[0]));
        assert(decreases_to!(m[0] => m[0].val));
    } else {
        lemma_model_lookup_decreases(m.drop_first(), key);
        assert(decreases_to!(m => m.drop_first()));
    }
}

/// A nested-list array found by the lookup is a strict sub-value of the
/// list model.
pub proof fn lemma_lookup_list_arr_decreases(m: Seq<NvEntry>, key: Seq<char>)
    requires
        model_lookup_list_arr(m, key) is Some,
    ensures
        decreases_to!(m => model_lookup_list_arr(m, key)->Some_0),
{
    lemma_model_lookup_decreases(m, key);
    let v = model_lookup(m, key)->Some_0;
    assert(decreases_to!(v => v->ListArr_0));
}

impl NvList {
    /// An empty attribute list.
    pub fn new() -> (r: NvList)
        ensures
            r@ =~= Seq::<NvEntry>::empty(),
    {
        NvList { pairs: Vec::new() }
    }

    /// Appends one pair at the end, in storage order.
    pub fn push(&mut self, key: String, value: NvValue)
        ensures
            final(self)@ =~= old(self)@ + seq![NvEntry { key: key@, val: value@ }],
    {
        let ghost olds = self.pairs@;
        self.pairs.push(NvPair { key, value });
        proof {
            lemma_pairs_model(self.pairs@);
            lemma_pairs_model(olds);
            assert forall|i: int| 0 <= i < olds.len() implies pairs_model(self.pairs@)[i]
                == pairs_model(olds)[i] by {
                assert(self.pairs@[i] == olds[i]);
            }
        }
    }

    /// The number of pairs held.
    pub fn len(&self) -> (n: usize)
        ensures
            n == self@.len(),
    {
        proof {
            lemma_pairs_model(self.pairs@);
        }
        self.pairs.len()
    }

    /// The pair at storage position `i`; positions enumerate the pairs
    /// in native storage order.
    pub fn pair_at(&self, i: usize) -> (r: &NvPair)
        requires
            i < self@.len(),
        ensures
            r@ == self@[i as int],
    {
        proof {
            lemma_pairs_model(self.pairs@);
        }
        &self.pairs[i]
    }

    /// The index of the first pair whose key matches, if any.
    fn find(&self, key: &String) -> (r: Option<usize>)
        ensures
            match r {
                Some(i) => {
                    &&& i < self.pairs@.len()
                    &&& model_lookup(self@, key@) == Some(self.pairs@[i as int].value@)
                },
                None => model_lookup(self@, key@) is None,
            },
    {
        let n = self.pairs.len();
        for i in 0..n
            invariant
                n == self.pairs@.len(),
                forall|j: int| 0 <= j < i ==> self.pairs@[j].key@ != key@,
        {
            if self.pairs[i].key == *key {
                proof {
                    lemma_pairs_model(self.pairs@);
                    lemma_model_lookup_at(self@, key@, i as int);
                }
                return Some(i);
            }
        }
        proof {
            lemma_pairs_model(self.pairs@);
            lemma_model_lookup_none(self@, key@);
        }
        None
    }

    /// The string stored under `key`; `NotFound` on absence or mismatch.
    pub fn lookup_string(&self, key: &str) -> (r: Result<String, LibZfsError>)
        ensures
            match r {
                Ok(s) => model_lookup_str(self@, key@) == Some(s@),
                Err(e) => e == LibZfsError::NotFound && model_lookup_str(self@, key@) is None,
            },
    {
        let k = String::from_str(key);
        match self.find(&k) {
            Some(i) => match &self.pairs[i].value {
                NvValue::Str(s) => Ok(s.clone()),
                _ => Err(LibZfsError::NotFound),
            },
            None => Err(LibZfsError::NotFound),
        }
    }

    /// The unsigned 64-bit integer stored under `key`.
    pub fn lookup_uint64(&self, key: &str) -> (r: Result<u64, LibZfsError>)
        ensures
            match r {
                Ok(x) => model_lookup_u64(self@, key@) == Some(x),
                Err(e) => e == LibZfsError::NotFound && model_lookup_u64(self@, key@) is None,
            },
    {
        let k = String::from_str(key);
        match self.find(&k) {
            Some(i) => match &self.pairs[i].value {
                NvValue::Uint64(x) => Ok(*x),
                _ => Err(LibZfsError::NotFound),
            },
            None => Err(LibZfsError::NotFound),
        }
    }

    /// The unsigned-64 array stored under `key`, as a borrowed view.
    pub fn lookup_uint64_array<'a>(&'a self, key: &str) -> (r: Result<&'a Vec<u64>, LibZfsError>)
        ensures
            match r {
                Ok(a) => model_lookup_u64_arr(self@, key@) == Some(a@),
                Err(e) => e == LibZfsError::NotFound && model_lookup_u64_arr(self@, key@) is None,
            },
    {
        let k = String::from_str(key);
        match self.find(&k) {
            Some(i) => match &self.pairs[i].value {
                NvValue::Uint64Array(a) => Ok(a),
                _ => Err(LibZfsError::NotFound),
            },
            None => Err(LibZfsError::NotFound),
        }
    }

    /// The nested list stored under `key`, as a borrowed view.
    pub fn lookup_nv_list<'a>(&'a self, key: &str) -> (r: Result<&'a NvList, LibZfsError>)
        ensures
            match r {
                Ok(l) => model_lookup_list(self@, key@) == Some(l@),
                Err(e) => e == LibZfsError::NotFound && model_lookup_list(self@, key@) is None,
            },
    {
        let k = String::from_str(key);
        match self.find(&k) {
            Some(i) => match &self.pairs[i].value {
                NvValue::List(l) => Ok(l),
                _ => Err(LibZfsError::NotFound),
            },
            None => Err(LibZfsError::NotFound),
        }
    }

    /// The nested-list array stored under `key`, as a borrowed view.
    pub fn lookup_nv_list_array<'a>(&'a self, key: &str) -> (r: Result<
        &'a Vec<NvList>,
        LibZfsError,
    >)
        ensures
            match r {
                Ok(ls) => model_lookup_list_arr(self@, key@) == Some(lists_model(ls@)),
                Err(e) => e == LibZfsError::NotFound && model_lookup_list_arr(self@, key@) is None,
            },
    {
        let k = String::from_str(key);
        match self.find(&k) {
            Some(i) => match &self.pairs[i].value {
                NvValue::ListArray(ls) => Ok(ls),
                _ => Err(LibZfsError::NotFound),
            },
            None => Err(LibZfsError::NotFound),
        }
    }
}

} // verus!
