//! The symbol table: each label's name and the number of instructions that
//! come before its definition.
use vstd::prelude::*;
use crate::classify::{LineClass, Span, classify_chars, line_class, span_matches};
use crate::text::{chars_of, same_chars};

verus! {

/// The address at which the program is loaded: the first instruction's.
pub const LOAD_ADDRESS: u64 = 0x200;

/// The address of the instruction that has `count` instructions before it.
pub open spec fn address_of(count: nat) -> nat {
    0x200 + 2 * count
}

/// The instruction count recorded for `name`: that of its last definition.
pub open spec fn lookup(defs: Seq<(Seq<char>, nat)>, name: Seq<char>) -> Option<nat>
    decreases defs.len(),
{
    if defs.len() == 0 {
        None
    } else if defs.last().0 == name {
        Some(defs.last().1)
    } else {
        lookup(defs.drop_last(), name)
    }
}

/// How many of `lines` are instructions.
pub open spec fn instruction_count(lines: Seq<Seq<char>>) -> nat
    decreases lines.len(),
{
    if lines.len() == 0 {
        0
    } else {
        instruction_count(lines.drop_last()) + if line_class(lines.last())
            == LineClass::Instruction {
            1nat
        } else {
            0nat
        }
    }
}

/// The label definitions among `lines`, in order, each with the number of
/// instructions before it.
pub open spec fn definitions(lines: Seq<Seq<char>>) -> Seq<(Seq<char>, nat)>
    decreases lines.len(),
{
    if lines.len() == 0 {
        seq![]
    } else {
        let prev = definitions(lines.drop_last());
        match line_class(lines.last()) {
            LineClass::Label(name) => prev.push((name, instruction_count(lines.drop_last()))),
            _ => prev,
        }
    }
}

/// One label definition: the name, and how many instructions come before it.
struct Definition {
    name: Vec<char>,
    count: usize,
}

/// Label definitions in source order; a later definition of a name hides
/// an earlier one.
pub struct SymbolTable {
    defs: Vec<Definition>,
}

impl View for SymbolTable {
    type V = Seq<(Seq<char>, nat)>;

    closed spec fn view(&self) -> Seq<(Seq<char>, nat)> {
        self.defs@.map_values(|d: Definition| (d.name@, d.count as nat))
    }
}

impl SymbolTable {
    pub fn new() -> (r: SymbolTable)
        ensures
            r@ == Seq::<(Seq<char>, nat)>::empty(),
    {
        let r = SymbolTable { defs: Vec::new() };
        assert(r@ =~= Seq::<(Seq<char>, nat)>::empty());
        r
    }

    /// Records that `name` is defined after `count` instructions.
    pub fn define(&mut self, name: Vec<char>, count: usize)
        ensures
            final(self)@ == old(self)@.push((name@, count as nat)),
    {
        let ghost prev = self@;
        let ghost n = name@;
        self.defs.push(Definition { name, count });
        assert(self@ =~= prev.push((n, count as nat)));
    }

    /// The instruction count recorded for `name`.
    pub fn lookup_count(&self, name: &Vec<char>) -> (r: Option<usize>)
        ensures
            match r {
                Some(c) => lookup(self@, name@) == Some(c as nat),
                None => lookup(self@, name@) is None,
            },
    {
        let mut i = self.defs.len();
        assert(self@.take(i as int) =~= self@);
        while i > 0
            invariant
                i <= self.defs.len(),
                lookup(self@, name@) == lookup(self@.take(i as int), name@),
            decreases i,
        {
            assert(self@.take(i as int).drop_last() =~= self@.take(i - 1));
            if same_chars(&self.defs[i - 1].name, name) {
                return Some(self.defs[i - 1].count);
            }
            i -= 1;
        }
        None
    }

    /// The address of label `name`, if it is defined.
    pub fn address(&self, name: &str) -> (r: Option<u64>)
        ensures
            r == match lookup(self@, name@) {
                Some(c) => if address_of(c) <= u64::MAX {
                    Some(address_of(c) as u64)
                } else {
                    None
                },
                None => None,
            },
    {
        let n = chars_of(name);
        match self.lookup_count(&n) {
            Some(c) => {
                if c as u64 > (u64::MAX - LOAD_ADDRESS) / 2 {
                    None
                } else {
                    Some(LOAD_ADDRESS + 2 * c as u64)
                }
            },
            None => None,
        }
    }
}

/// A label resolves to the address right after the instructions that come
/// before its last definition, wherever the label is used: before its
/// definition or after it.
pub proof fn lemma_label_address(lines: Seq<Seq<char>>, j: int, name: Seq<char>)
    requires
        0 <= j < lines.len(),
        line_class(lines[j]) == LineClass::Label(name),
        forall|k: int| j < k < lines.len() ==> line_class(#[trigger] lines[k]) != LineClass::Label(
            name,
        ),
    ensures
        lookup(definitions(lines), name) == Some(instruction_count(lines.take(j))),
        address_of(lookup(definitions(lines), name)->0) == 0x200 + 2 * instruction_count(
            lines.take(j),
        ),
    decreases lines.len(),
{
    if j == lines.len() - 1 {
        assert(lines.drop_last() =~= lines.take(j));
    } else {
        let prefix = lines.drop_last();
        assert forall|k: int| j < k < prefix.len() implies line_class(#[trigger] prefix[k])
            != LineClass::Label(name) by {
            assert(prefix[k] == lines[k]);
        }
        lemma_label_address(prefix, j, name);
        assert(prefix.take(j) =~= lines.take(j));
        assert(line_class(lines.last()) != LineClass::Label(name)) by {
            assert(lines.last() == lines[lines.len() - 1]);
        }
        if let LineClass::Label(other) = line_class(lines.last()) {
            assert(definitions(lines).drop_last() =~= definitions(prefix));
        }
    }
}

/// The first pass: the label definitions among `lines`, each with the
/// number of instruction lines before it.
pub fn build_symbol_table(lines: &Vec<Vec<char>>) -> (r: SymbolTable)
    ensures
        r@ == definitions(lines@.map_values(|l: Vec<char>| l@)),
{
    let ghost ls = lines@.map_values(|l: Vec<char>| l@);
    let mut table = SymbolTable::new();
    let mut count: usize = 0;
    let mut i: usize = 0;
    while i < lines.len()
        invariant
            i <= lines.len(),
            ls == lines@.map_values(|l: Vec<char>| l@),
            table@ == definitions(ls.take(i as int)),
            count == instruction_count(ls.take(i as int)),
            count <= i,
        decreases lines.len() - i,
    {
        assert(ls.take(i + 1).drop_last() =~= ls.take(i as int));
        assert(ls.take(i + 1).last() == lines[i as int]@);
        match classify_chars(&lines[i]) {
            Span::Label(a, b) => {
                let name = crate::text::slice_of(&lines[i], a, b);
                table.define(name, count);
            },
            Span::Instruction => {
                count += 1;
            },
            _ => {},
        }
        i += 1;
    }
    assert(ls.take(lines.len() as int) =~= ls);
    table
}

} // verus!
