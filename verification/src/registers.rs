//! The table of string registers: names and the strings defined for them.
use crate::chars::same_chars;
use vstd::prelude::*;

verus! {

/// One definition: a name and the string it stands for.
pub struct Register {
    pub name: Vec<char>,
    pub value: Vec<char>,
}

/// The map that the first `n` definitions of `entries` make, a later
/// definition of a name taking the place of an earlier one.
pub open spec fn defined_upto(entries: Seq<Register>, n: nat) -> Map<Seq<char>, Seq<char>>
    decreases n,
{
    if n == 0 {
        Map::empty()
    } else {
        defined_upto(entries, (n - 1) as nat).insert(entries[n - 1].name@, entries[n - 1].value@)
    }
}

/// A name whose last definition among the first `n` stands at `i` has the
/// value given there.
proof fn lemma_defined_hit(entries: Seq<Register>, n: nat, i: int)
    requires
        n <= entries.len(),
        0 <= i < n,
        forall|j: int| i < j < n ==> entries[j].name@ != entries[i].name@,
    ensures
        defined_upto(entries, n).contains_key(entries[i].name@),
        defined_upto(entries, n)[entries[i].name@] == entries[i].value@,
    decreases n,
{
    if i < n - 1 {
        lemma_defined_hit(entries, (n - 1) as nat, i);
    }
}

/// A name that none of the first `n` definitions gives is not defined.
proof fn lemma_defined_miss(entries: Seq<Register>, n: nat, name: Seq<char>)
    requires
        n <= entries.len(),
        forall|j: int| 0 <= j < n ==> entries[j].name@ != name,
    ensures
        !defined_upto(entries, n).contains_key(name),
    decreases n,
{
    if n > 0 {
        lemma_defined_miss(entries, (n - 1) as nat, name);
    }
}

/// The string registers. A name is defined once a value has been stored for
/// it; a later value replaces an earlier one; nothing is ever removed.
pub struct RegisterTable {
    entries: Vec<Register>,
}

impl View for RegisterTable {
    type V = Map<Seq<char>, Seq<char>>;

    closed spec fn view(&self) -> Map<Seq<char>, Seq<char>> {
        defined_upto(self.entries@, self.entries@.len())
    }
}

impl RegisterTable {
    /// The table without any register.
    pub fn new() -> (r: Self)
        ensures
            r@ == Map::<Seq<char>, Seq<char>>::empty(),
    {
        RegisterTable { entries: Vec::new() }
    }

    /// Defines `name` as `value`, in place of what it was before.
    pub fn insert(&mut self, name: Vec<char>, value: Vec<char>)
        ensures
            final(self)@ == old(self)@.insert(name@, value@),
    {
        let ghost before = self.entries@;
        self.entries.push(Register { name, value });
        proof {
            lemma_defined_prefix(self.entries@, before, before.len());
        }
    }

    /// The value of `name`, if it is defined.
    pub fn get(&self, name: &Vec<char>) -> (r: Option<&Vec<char>>)
        ensures
            match r {
                Some(value) => self@.contains_key(name@) && self@[name@] == value@,
                None => !self@.contains_key(name@),
            },
    {
        let mut i: usize = self.entries.len();
        while i > 0
            invariant
                i <= self.entries.len(),
                forall|j: int| i <= j < self.entries.len() ==> self.entries[j].name@ != name@,
            decreases i,
        {
            i = i - 1;
            if same_chars(&self.entries[i].name, name) {
                proof {
                    lemma_defined_hit(self.entries@, self.entries@.len(), i as int);
                }
                return Some(&self.entries[i].value);
            }
        }
        proof {
            lemma_defined_miss(self.entries@, self.entries@.len(), name@);
        }
        None
    }
}

/// The first `n` definitions make the same map in any sequence that starts
/// with them.
proof fn lemma_defined_prefix(longer: Seq<Register>, shorter: Seq<Register>, n: nat)
    requires
        n <= shorter.len(),
        shorter.len() <= longer.len(),
        forall|j: int| 0 <= j < shorter.len() ==> longer[j] == shorter[j],
    ensures
        defined_upto(longer, n) == defined_upto(shorter, n),
    decreases n,
{
    if n > 0 {
        lemma_defined_prefix(longer, shorter, (n - 1) as nat);
    }
}

} // verus!
