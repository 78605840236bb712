//! A string uniquing table: only one copy of a string is stored, and all
//! attempts to add the same string again return the same atom.

use vstd::prelude::*;

verus! {

/// A unique handle for an interned string: a dense index into the table.
#[derive(Debug, Copy, Clone, PartialEq, Eq, Hash, Structural)]
pub struct Atom {
    id: u32,
}

impl View for Atom {
    type V = nat;

    closed spec fn view(&self) -> nat {
        self.id as nat
    }
}

/// The id reserved for the invalid atom: all ones, never assigned by a table.
pub const INVALID_ATOM_ID: u32 = 0xFFFF_FFFF;

impl Atom {
    /// The reserved invalid atom. No table ever assigns it.
    pub fn invalid() -> (a: Atom)
        ensures
            a@ == INVALID_ATOM_ID as nat,
    {
        Atom { id: INVALID_ATOM_ID }
    }
}

/// The index at which `intern` finds or places `s` in a table whose texts
/// are `m`: the first index holding `s`, or `m.len()` if `s` is absent.
pub open spec fn intern_id(m: Seq<Seq<char>>, s: Seq<char>) -> nat
    decreases m.len(),
{
    if m.len() == 0 {
        0
    } else if m[0] == s {
        0
    } else {
        1 + intern_id(m.drop_first(), s)
    }
}

/// The table texts after interning `s`: unchanged if present, else extended.
pub open spec fn intern_tab(m: Seq<Seq<char>>, s: Seq<char>) -> Seq<Seq<char>> {
    if m.contains(s) {
        m
    } else {
        m.push(s)
    }
}

/// A string uniquing table. Strings are added and never removed or mutated,
/// so an atom stays valid, and resolves to the same text, for the table's
/// whole lifetime.
pub struct AtomTable {
    strings: Vec<String>,
}

impl View for AtomTable {
    type V = Seq<Seq<char>>;

    closed spec fn view(&self) -> Seq<Seq<char>> {
        self.strings@.map_values(|s: String| s@)
    }
}

pub proof fn lemma_intern_id_le_len(m: Seq<Seq<char>>, s: Seq<char>)
    ensures
        intern_id(m, s) <= m.len(),
    decreases m.len(),
{
    if m.len() != 0 && m[0] != s {
        lemma_intern_id_le_len(m.drop_first(), s);
    }
}

pub proof fn lemma_intern_id_present(m: Seq<Seq<char>>, s: Seq<char>)
    requires
        m.contains(s),
    ensures
        intern_id(m, s) < m.len(),
        m[intern_id(m, s) as int] == s,
    decreases m.len(),
{
    if m.len() != 0 && m[0] != s {
        let i = choose|i: int| 0 <= i < m.len() && m[i] == s;
        assert(m.drop_first()[i - 1] == s);
        lemma_intern_id_present(m.drop_first(), s);
    }
}

pub proof fn lemma_intern_id_absent(m: Seq<Seq<char>>, s: Seq<char>)
    requires
        !m.contains(s),
    ensures
        intern_id(m, s) == m.len(),
    decreases m.len(),
{
    if m.len() != 0 {
        assert(m[0] != s);
        assert(forall|i: int| 0 <= i < m.len() - 1 ==> m.drop_first()[i] == m[i + 1]);
        lemma_intern_id_absent(m.drop_first(), s);
    }
}

/// The first `i` entries of `m` differ from `s` and `m[i] == s`: then the
/// intern id of `s` is exactly `i`.
proof fn lemma_intern_id_first(m: Seq<Seq<char>>, s: Seq<char>, i: int)
    requires
        0 <= i < m.len(),
        m[i] == s,
        forall|j: int| 0 <= j < i ==> m[j] != s,
    ensures
        intern_id(m, s) == i,
    decreases m.len(),
{
    if i > 0 {
        assert(m.drop_first()[i - 1] == s);
        assert(forall|j: int| 0 <= j < i - 1 ==> m.drop_first()[j] != s);
        lemma_intern_id_first(m.drop_first(), s, i - 1);
    }
}

impl AtomTable {
    /// Every entry is distinct from every other, and ids fit in 32 bits with
    /// the all-ones value left over for the invalid atom.
    pub open spec fn wf(&self) -> bool {
        &&& forall|i: int, j: int|
            0 <= i < self@.len() && 0 <= j < self@.len() && i != j ==> self@[i] != self@[j]
        &&& self@.len() <= INVALID_ATOM_ID as nat
    }

    /// Create a new empty atom table.
    pub fn new() -> (t: AtomTable)
        ensures
            t@ =~= Seq::<Seq<char>>::empty(),
            t.wf(),
    {
        AtomTable { strings: Vec::new() }
    }

    /// Add a string to the table and return its atom index. The same
    /// string always returns the same index.
    pub fn atom(&mut self, value: &str) -> (a: Atom)
        requires
            old(self).wf(),
            old(self)@.len() < INVALID_ATOM_ID as nat,
        ensures
            final(self).wf(),
            a@ == intern_id(old(self)@, value@),
            final(self)@ == intern_tab(old(self)@, value@),
            a@ < final(self)@.len(),
            final(self)@[a@ as int] == value@,
    {
        let ghost m = self@;
        let owned: String = value.to_owned();
        let n = self.strings.len();
        for i in 0..n
            invariant
                n == self.strings.len(),
                m == self@,
                m == old(self)@,
                old(self).wf(),
                m.len() < INVALID_ATOM_ID as nat,
                owned@ == value@,
                forall|j: int| 0 <= j < i ==> m[j] != value@,
        {
            if self.strings[i] == owned {
                proof {
                    assert(m[i as int] == value@);
                    assert(m.contains(value@));
                    assert(m.len() <= INVALID_ATOM_ID as nat);
                    lemma_intern_id_first(m, value@, i as int);
                }
                return Atom { id: i as u32 };
            }
        }
        proof {
            lemma_intern_id_absent(m, value@);
        }
        let id = n as u32;
        self.strings.push(owned);
        proof {
            assert(self@ =~= m.push(value@));
        }
        Atom { id }
    }

    /// The number of interned strings.
    pub fn len(&self) -> (n: usize)
        ensures
            n == self@.len(),
    {
        proof {
            assert(self@.len() == self.strings@.len());
        }
        self.strings.len()
    }

    /// Return the contents of the specified atom, which must be in range.
    pub fn str(&self, ident: Atom) -> (r: &str)
        requires
            ident@ < self@.len(),
        ensures
            r@ == self@[ident@ as int],
    {
        self.strings[ident.id as usize].as_str()
    }

    /// Return the contents of the specified atom, or `None` when the atom is
    /// out of range (the reserved invalid atom always is).
    pub fn try_str(&self, ident: Atom) -> (r: Option<&str>)
        ensures
            ident@ < self@.len() ==> (r matches Some(t) && t@ == self@[ident@ as int]),
            ident@ >= self@.len() ==> r is None,
    {
        if (ident.id as usize) < self.strings.len() {
            Some(self.strings[ident.id as usize].as_str())
        } else {
            None
        }
    }
}

/// Interning idempotence: interning the same text a second time returns the
/// same id and leaves the table unchanged.
pub proof fn lemma_intern_idempotent(m: Seq<Seq<char>>, s: Seq<char>)
    ensures
        intern_tab(intern_tab(m, s), s) == intern_tab(m, s),
        intern_id(intern_tab(m, s), s) == intern_id(m, s),
{
    if m.contains(s) {
    } else {
        assert(m.push(s)[m.len() as int] == s);
        assert(intern_tab(m, s).contains(s));
        lemma_intern_id_absent(m, s);
        assert(forall|j: int| 0 <= j < m.len() ==> m.push(s)[j] == m[j]);
        lemma_intern_id_first(m.push(s), s, m.len() as int);
    }
}

/// Resolving an interned atom returns the interned text.
pub proof fn lemma_resolve_intern(m: Seq<Seq<char>>, s: Seq<char>)
    ensures
        intern_id(m, s) < intern_tab(m, s).len(),
        intern_tab(m, s)[intern_id(m, s) as int] == s,
{
    if m.contains(s) {
        lemma_intern_id_present(m, s);
    } else {
        lemma_intern_id_absent(m, s);
        assert(m.push(s)[m.len() as int] == s);
    }
}

/// Distinctness: after interning `a`, interning any different text `b`
/// returns a different id.
pub proof fn lemma_intern_distinct(m: Seq<Seq<char>>, a: Seq<char>, b: Seq<char>)
    requires
        a != b,
    ensures
        intern_id(intern_tab(m, a), b) != intern_id(intern_tab(m, a), a),
{
    let m1 = intern_tab(m, a);
    lemma_resolve_intern(m, a);
    let ia = intern_id(m1, a);
    lemma_intern_idempotent(m, a);
    assert(m1[ia as int] == a) by {
        lemma_resolve_intern(m, a);
        if m.contains(a) {
        } else {
            lemma_intern_id_absent(m, a);
            lemma_intern_id_first(m.push(a), a, m.len() as int);
            assert(m.push(a)[m.len() as int] == a);
        }
    }
    if m1.contains(b) {
        lemma_intern_id_present(m1, b);
    } else {
        lemma_intern_id_absent(m1, b);
        assert(ia < m1.len()) by {
            lemma_intern_id_present(m1, a);
        }
    }
}

} // verus!
