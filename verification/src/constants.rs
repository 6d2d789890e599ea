//! Constant pooling for the bytecode translator.
//!
//! Integer, float and string literals are interned into three dedup tables.
//! Each distinct value gets a stable numeric id at first sight; interning the
//! same value again returns the same id.

use vstd::prelude::*;

verus! {

/// Index of the first occurrence of `v` in `s`, as a predicate: `r` is the
/// id assigned to value `v` by table `s`.
pub open spec fn is_first_index_int(s: Seq<i64>, v: i64, r: int) -> bool {
    &&& 0 <= r < s.len()
    &&& s[r] == v
    &&& forall|k: int| 0 <= k < r ==> s[k] != v
}

pub open spec fn is_first_index_str(s: Seq<Seq<char>>, v: Seq<char>, r: int) -> bool {
    &&& 0 <= r < s.len()
    &&& s[r] == v
    &&& forall|k: int| 0 <= k < r ==> s[k] != v
}

/// The id the pool assigns to an integer constant it holds.
pub open spec fn int_id(s: Seq<i64>, v: i64) -> int {
    choose|r: int| is_first_index_int(s, v, r)
}

/// The id the pool assigns to a string (or float-text) constant it holds.
pub open spec fn str_id(s: Seq<Seq<char>>, v: Seq<char>) -> int {
    choose|r: int| is_first_index_str(s, v, r)
}

pub proof fn lemma_first_index_int_is_id(s: Seq<i64>, v: i64, r: int)
    requires
        is_first_index_int(s, v, r),
    ensures
        r == int_id(s, v),
{
    let c = choose|x: int| is_first_index_int(s, v, x);
    lemma_const_id_unique_int(s, v, r, c);
}

pub proof fn lemma_first_index_str_is_id(s: Seq<Seq<char>>, v: Seq<char>, r: int)
    requires
        is_first_index_str(s, v, r),
    ensures
        r == str_id(s, v),
{
    let c = choose|x: int| is_first_index_str(s, v, x);
    lemma_const_id_unique_str(s, v, r, c);
}

/// A dedup table of integer constants.
#[derive(Debug)]
pub struct IntTable {
    items: Vec<i64>,
}

/// A dedup table of string constants (also used for float literals, which the
/// translator carries as their source text).
#[derive(Debug)]
pub struct StrTable {
    items: Vec<String>,
}

impl IntTable {
    pub closed spec fn view(&self) -> Seq<i64> {
        self.items@
    }

    pub fn new() -> (r: Self)
        ensures
            r@ == Seq::<i64>::empty(),
    {
        IntTable { items: Vec::new() }
    }

    pub fn len(&self) -> (r: usize)
        ensures
            r == self@.len(),
    {
        self.items.len()
    }

    pub open spec fn spec_get(&self, id: int) -> i64 {
        self@[id]
    }

    pub fn get(&self, id: u32) -> (r: i64)
        requires
            id < self@.len(),
        ensures
            r == self.spec_get(id as int),
    {
        self.items[id as usize]
    }

    /// Id of `v` if it is already pooled.
    pub fn try_get_id(&self, v: i64) -> (r: Option<u32>)
        requires
            self@.len() <= u32::MAX,
        ensures
            match r {
                Some(id) => is_first_index_int(self@, v, id as int),
                None => !self@.contains(v),
            },
    {
        let mut i: usize = 0;
        while i < self.items.len()
            invariant
                i <= self@.len() <= u32::MAX,
                forall|k: int| 0 <= k < i ==> self@[k] != v,
            decreases self@.len() - i,
        {
            if self.items[i] == v {
                return Some(i as u32);
            }
            i += 1;
        }
        assert(forall|k: int| 0 <= k < self@.len() ==> self@[k] != v);
        None
    }

    /// Pools `v`, assigning a fresh id at first sight and the already assigned
    /// id on every later sight.
    pub fn intern(&mut self, v: i64) -> (r: u32)
        requires
            old(self)@.len() < u32::MAX,
        ensures
            is_first_index_int(final(self)@, v, r as int),
            final(self)@ == if old(self)@.contains(v) {
                old(self)@
            } else {
                old(self)@.push(v)
            },
    {
        match self.try_get_id(v) {
            Some(id) => {
                assert(self@.contains(v));
                id
            },
            None => {
                let id = self.items.len();
                self.items.push(v);
                id as u32
            },
        }
    }
}

impl StrTable {
    pub closed spec fn view(&self) -> Seq<Seq<char>> {
        Seq::new(self.items@.len(), |i: int| self.items@[i]@)
    }

    pub fn new() -> (r: Self)
        ensures
            r@ == Seq::<Seq<char>>::empty(),
    {
        let t = StrTable { items: Vec::new() };
        assert(t@ =~= Seq::<Seq<char>>::empty());
        t
    }

    pub fn len(&self) -> (r: usize)
        ensures
            r == self@.len(),
    {
        self.items.len()
    }

    pub open spec fn spec_get(&self, id: int) -> Seq<char> {
        self@[id]
    }

    pub fn get(&self, id: u32) -> (r: &String)
        requires
            id < self@.len(),
        ensures
            r@ == self.spec_get(id as int),
    {
        &self.items[id as usize]
    }

    /// Id of `v` if it is already pooled.
    pub fn try_get_id(&self, v: &str) -> (r: Option<u32>)
        requires
            self@.len() <= u32::MAX,
        ensures
            match r {
                Some(id) => is_first_index_str(self@, v@, id as int),
                None => !self@.contains(v@),
            },
    {
        let owned = v.to_owned();
        let mut i: usize = 0;
        while i < self.items.len()
            invariant
                i <= self@.len() <= u32::MAX,
                owned@ == v@,
                forall|k: int| 0 <= k < i ==> self@[k] != v@,
            decreases self@.len() - i,
        {
            if self.items[i] == owned {
                return Some(i as u32);
            }
            i += 1;
        }
        assert(forall|k: int| 0 <= k < self@.len() ==> self@[k] != v@);
        None
    }

    /// Pools `v`, assigning a fresh id at first sight and the already assigned
    /// id on every later sight.
    pub fn intern(&mut self, v: &str) -> (r: u32)
        requires
            old(self)@.len() < u32::MAX,
        ensures
            is_first_index_str(final(self)@, v@, r as int),
            final(self)@ == if old(self)@.contains(v@) {
                old(self)@
            } else {
                old(self)@.push(v@)
            },
    {
        match self.try_get_id(v) {
            Some(id) => {
                assert(self@.contains(v@));
                id
            },
            None => {
                let id = self.items.len();
                let ghost pre = self@;
                self.items.push(String::from_str(v));
                assert(self@ =~= pre.push(v@));
                id as u32
            },
        }
    }
}

/// The three constant pools of a program under translation.
#[derive(Debug)]
pub struct ConstantsHolder {
    pub int_constants: IntTable,
    pub float_constants: StrTable,
    pub string_constants: StrTable,
}

impl ConstantsHolder {
    pub fn new() -> (r: Self)
        ensures
            r.int_constants@ == Seq::<i64>::empty(),
            r.float_constants@ == Seq::<Seq<char>>::empty(),
            r.string_constants@ == Seq::<Seq<char>>::empty(),
    {
        ConstantsHolder {
            int_constants: IntTable::new(),
            float_constants: StrTable::new(),
            string_constants: StrTable::new(),
        }
    }
}

/// The id a table assigns to a value is a function of the value alone: two
/// occurrences of the same constant always receive equal ids.
pub proof fn lemma_const_id_unique_int(s: Seq<i64>, v: i64, r1: int, r2: int)
    requires
        is_first_index_int(s, v, r1),
        is_first_index_int(s, v, r2),
    ensures
        r1 == r2,
{
    if r1 < r2 {
        assert(s[r1] == v);
    } else if r2 < r1 {
        assert(s[r2] == v);
    }
}

/// As `lemma_const_id_unique_int`, for the float and string pools.
pub proof fn lemma_const_id_unique_str(s: Seq<Seq<char>>, v: Seq<char>, r1: int, r2: int)
    requires
        is_first_index_str(s, v, r1),
        is_first_index_str(s, v, r2),
    ensures
        r1 == r2,
{
    if r1 < r2 {
        assert(s[r1] == v);
    } else if r2 < r1 {
        assert(s[r2] == v);
    }
}

} // verus!
