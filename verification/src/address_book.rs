//! The address book: a directory of registered nodes keyed by their unique
//! names. Registration under a name that is already taken is refused and
//! leaves the book unchanged (the strict variant: the first registration's
//! data is retained, never merged or overwritten).

use crate::city_info::{CityMetaData, CityMetaDataV};
use vstd::prelude::*;

verus! {

/// The error of [`AddressBook::register`]: the name is already taken.
#[derive(Clone, Copy, Debug, PartialEq, Eq, Structural)]
pub enum RegisterError {
    NameConflict,
}

/// True when some entry of `s` bears the name `n`.
pub open spec fn book_contains(s: Seq<CityMetaDataV>, n: Seq<char>) -> bool {
    exists|i: int| 0 <= i < s.len() && s[i].name == n
}

/// The entry of `s` named `n`, scanning from the most recently added end.
pub open spec fn book_get(s: Seq<CityMetaDataV>, n: Seq<char>) -> Option<CityMetaDataV>
    decreases s.len(),
{
    if s.len() == 0 {
        None
    } else if s.last().name == n {
        Some(s.last())
    } else {
        book_get(s.drop_last(), n)
    }
}

/// Well-formedness of a book's contents: no two entries share a name.
pub open spec fn book_wf(s: Seq<CityMetaDataV>) -> bool {
    forall|i: int, j: int| 0 <= i < j < s.len() ==> s[i].name != s[j].name
}

/// `book_get` finds an entry exactly when `book_contains` holds, and the
/// entry it finds bears the requested name.
pub proof fn lemma_book_get_contains(s: Seq<CityMetaDataV>, n: Seq<char>)
    ensures
        book_get(s, n) is Some <==> book_contains(s, n),
        book_get(s, n) matches Some(m) ==> m.name == n,
    decreases s.len(),
{
    if s.len() == 0 {
    } else if s.last().name == n {
        assert(book_contains(s, n)) by {
            assert(s[s.len() - 1].name == n);
        }
    } else {
        lemma_book_get_contains(s.drop_last(), n);
        if book_contains(s.drop_last(), n) {
            let i = choose|i: int| 0 <= i < s.drop_last().len() && s.drop_last()[i].name == n;
            assert(s[i].name == n);
        }
        if book_contains(s, n) {
            let i = choose|i: int| 0 <= i < s.len() && s[i].name == n;
            assert(i < s.len() - 1);
            assert(s.drop_last()[i].name == n);
        }
    }
}

/// Law: in a well-formed book a name picks out at most one entry — two
/// entries with equal names are the same entry.
pub proof fn lemma_names_unique(s: Seq<CityMetaDataV>)
    requires
        book_wf(s),
    ensures
        forall|i: int, j: int|
            0 <= i < s.len() && 0 <= j < s.len() && s[i].name == s[j].name ==> i == j,
{
    assert forall|i: int, j: int|
        0 <= i < s.len() && 0 <= j < s.len() && s[i].name == s[j].name implies i == j by {
        if i < j {
            assert(s[i].name != s[j].name);
        } else if j < i {
            assert(s[j].name != s[i].name);
        }
    }
}

/// Law: in a well-formed book every entry is exactly what its own name
/// resolves to. With `lemma_names_unique` this pins down `list`'s result:
/// one entry per distinct name, holding the metadata registered for it.
pub proof fn lemma_listed_entry_resolves(s: Seq<CityMetaDataV>, i: int)
    requires
        book_wf(s),
        0 <= i < s.len(),
    ensures
        book_get(s, s[i].name) == Some(s[i]),
    decreases s.len(),
{
    if i < s.len() - 1 {
        assert(s[i].name != s[s.len() - 1].name);
        assert(book_wf(s.drop_last())) by {
            assert(forall|p: int, q: int|
                0 <= p < q < s.len() - 1 ==> s.drop_last()[p].name != s.drop_last()[q].name);
        }
        assert(s.drop_last()[i] == s[i]);
        lemma_listed_entry_resolves(s.drop_last(), i);
    }
}

/// Law: registering a fresh name keeps the book well-formed, makes the new
/// name resolve to exactly the registered metadata, and changes no other
/// name's lookup. (With `AddressBook::register`'s contract this gives both
/// "each distinct name lists its most recently registered metadata" and
/// "a registration never disturbs other names".)
pub proof fn lemma_register_new_name(s: Seq<CityMetaDataV>, m: CityMetaDataV)
    requires
        book_wf(s),
        !book_contains(s, m.name),
    ensures
        book_wf(s.push(m)),
        book_get(s.push(m), m.name) == Some(m),
        forall|n: Seq<char>| n != m.name ==> book_get(s.push(m), n) == book_get(s, n),
{
    let t = s.push(m);
    assert(t.last() == m);
    assert forall|i: int, j: int| 0 <= i < j < t.len() implies t[i].name != t[j].name by {
        if j < s.len() {
            assert(s[i].name != s[j].name);
        } else {
            assert(t[j] == m);
            assert(!(exists|k: int| 0 <= k < s.len() && s[k].name == m.name));
            assert(t[i] == s[i]);
        }
    }
    assert forall|n: Seq<char>| n != m.name implies book_get(t, n) == book_get(s, n) by {
        assert(t.drop_last() =~= s);
    }
}

/// Law: after a successful registration of `m1`, a second registration
/// under the same name meets the conflict case: the name is present, and
/// what it resolves to is still `m1`. (By `AddressBook::register`'s
/// contract the second call then returns `NameConflict` and leaves the
/// book — and so `m1`'s data — unchanged.)
pub proof fn lemma_second_register_conflicts(
    s: Seq<CityMetaDataV>,
    m1: CityMetaDataV,
    m2: CityMetaDataV,
)
    requires
        book_wf(s),
        !book_contains(s, m1.name),
        m2.name == m1.name,
    ensures
        book_contains(s.push(m1), m2.name),
        book_get(s.push(m1), m2.name) == Some(m1),
{
    lemma_register_new_name(s, m1);
    lemma_book_get_contains(s.push(m1), m2.name);
}

/// A directory of registered nodes, keyed by their unique names.
pub struct AddressBook {
    entries: Vec<CityMetaData>,
}

impl View for AddressBook {
    type V = Seq<CityMetaDataV>;

    closed spec fn view(&self) -> Seq<CityMetaDataV> {
        self.entries@.map_values(|m: CityMetaData| m@)
    }
}

impl AddressBook {
    /// Well-formedness: the entries' names are pairwise distinct.
    pub open spec fn wf(&self) -> bool {
        book_wf(self@)
    }

    /// An empty book.
    pub fn new() -> (r: AddressBook)
        ensures
            r.wf(),
            r@ == Seq::<CityMetaDataV>::empty(),
    {
        let r = AddressBook { entries: Vec::new() };
        proof {
            assert(r@ =~= Seq::<CityMetaDataV>::empty());
        }
        r
    }

    /// Whether some entry bears `name`.
    pub fn contains_name(&self, name: &String) -> (b: bool)
        ensures
            b == book_contains(self@, name@),
    {
        let n = self.entries.len();
        let mut i: usize = 0;
        while i < n
            invariant
                i <= n,
                n == self.entries.len(),
                forall|j: int| 0 <= j < i ==> self@[j].name != name@,
            decreases n - i,
        {
            if self.entries[i].name == *name {
                assert(self@[i as int].name == name@);
                return true;
            }
            i = i + 1;
        }
        false
    }

    /// Registers `meta` under `meta.name`. Fails with `NameConflict`, and
    /// changes nothing, exactly when the name is already taken; otherwise
    /// appends the entry.
    pub fn register(&mut self, meta: CityMetaData) -> (r: Result<(), RegisterError>)
        requires
            old(self).wf(),
        ensures
            final(self).wf(),
            book_contains(old(self)@, meta@.name) ==> r == Err::<(), RegisterError>(
                RegisterError::NameConflict,
            ) && final(self)@ == old(self)@,
            !book_contains(old(self)@, meta@.name) ==> r == Ok::<(), RegisterError>(())
                && final(self)@ == old(self)@.push(meta@),
    {
        if self.contains_name(&meta.name) {
            return Err(RegisterError::NameConflict);
        }
        proof {
            lemma_register_new_name(self@, meta@);
        }
        let ghost s_old = self@;
        let ghost mv = meta@;
        self.entries.push(meta);
        proof {
            assert(self@ =~= s_old.push(mv));
        }
        Ok(())
    }

    /// Resolves `name` to its entry, or `None` when no entry bears it.
    pub fn resolve(&self, name: &String) -> (r: Option<CityMetaData>)
        ensures
            match r {
                Some(m) => book_get(self@, name@) == Some(m@),
                None => book_get(self@, name@) is None,
            },
    {
        let mut i: usize = self.entries.len();
        proof {
            assert(self@.take(i as int) =~= self@);
        }
        while i > 0
            invariant
                i <= self.entries.len(),
                book_get(self@, name@) == book_get(self@.take(i as int), name@),
            decreases i,
        {
            i = i - 1;
            let ghost t = self@.take(i + 1);
            proof {
                assert(t.last() == self@[i as int]);
                assert(t.drop_last() =~= self@.take(i as int));
            }
            if self.entries[i].name == *name {
                assert(book_get(self@, name@) == Some(self@[i as int]));
                return Some(self.entries[i].clone());
            }
        }
        proof {
            assert(self@.take(0) =~= Seq::<CityMetaDataV>::empty());
        }
        None
    }

    /// A point-in-time copy of every entry, in registration order.
    pub fn list(&self) -> (r: Vec<CityMetaData>)
        ensures
            r@.len() == self@.len(),
            forall|i: int| 0 <= i < r@.len() ==> r@[i]@ == self@[i],
    {
        let n = self.entries.len();
        let mut r: Vec<CityMetaData> = Vec::new();
        let mut i: usize = 0;
        while i < n
            invariant
                i <= n,
                n == self.entries.len(),
                r@.len() == i,
                forall|j: int| 0 <= j < i ==> r@[j]@ == self@[j],
            decreases n - i,
        {
            r.push(self.entries[i].clone());
            i = i + 1;
        }
        r
    }
}

} // verus!
