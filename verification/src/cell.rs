//! The value that one record contributes to one column of one row, and the
//! rules that pick it out of a field holding several values.

use vstd::prelude::*;

use crate::header::{Number, Type};

verus! {

/// One value of a column: a scalar, a list, or null.
#[derive(Debug, Clone, PartialEq, Eq)]
pub enum Cell {
    Null,
    Bool(bool),
    Int(i32),
    Float(u32),
    String(String),
    ListBool(Vec<Option<bool>>),
    ListInt(Vec<Option<i32>>),
    ListFloat(Vec<Option<u32>>),
    ListString(Vec<Option<String>>),
}

/// The mathematical value of a [`Cell`].
pub enum CellView {
    Null,
    Bool(bool),
    Int(i32),
    Float(u32),
    String(Seq<char>),
    ListBool(Seq<Option<bool>>),
    ListInt(Seq<Option<i32>>),
    ListFloat(Seq<Option<u32>>),
    ListString(Seq<Option<Seq<char>>>),
}

impl DeepView for Cell {
    type V = CellView;

    open spec fn deep_view(&self) -> CellView {
        match self {
            Cell::Null => CellView::Null,
            Cell::Bool(v) => CellView::Bool(*v),
            Cell::Int(v) => CellView::Int(*v),
            Cell::Float(v) => CellView::Float(*v),
            Cell::String(v) => CellView::String(v@),
            Cell::ListBool(v) => CellView::ListBool(v@),
            Cell::ListInt(v) => CellView::ListInt(v@),
            Cell::ListFloat(v) => CellView::ListFloat(v@),
            Cell::ListString(v) => CellView::ListString(v.deep_view()),
        }
    }
}

/// The scalar type of a column's values.
#[derive(Debug, Clone, Copy, PartialEq, Eq, Structural)]
pub enum ValueKind {
    Bool,
    Int32,
    Float32,
    String,
}

/// The column type a declared field type is stored as.
pub open spec fn value_kind_of(ty: Type) -> ValueKind {
    match ty {
        Type::Integer => ValueKind::Int32,
        Type::Float => ValueKind::Float32,
        Type::Flag => ValueKind::Bool,
        Type::Character => ValueKind::String,
        Type::String => ValueKind::String,
    }
}

/// Whether a field with this number code is stored as a list column: every
/// code but 0, 1 and `A`.
pub open spec fn is_list_number(number: Number) -> bool {
    match number {
        Number::Count(n) => n > 1,
        Number::A => false,
        Number::R => true,
        Number::G => true,
        Number::Unknown => true,
    }
}

/// Whether a cell may stand in a column of this kind and shape. Null may
/// stand in any.
pub open spec fn cell_fits(cell: CellView, kind: ValueKind, list: bool) -> bool {
    match cell {
        CellView::Null => true,
        CellView::Bool(_) => kind == ValueKind::Bool && !list,
        CellView::Int(_) => kind == ValueKind::Int32 && !list,
        CellView::Float(_) => kind == ValueKind::Float32 && !list,
        CellView::String(_) => kind == ValueKind::String && !list,
        CellView::ListBool(_) => kind == ValueKind::Bool && list,
        CellView::ListInt(_) => kind == ValueKind::Int32 && list,
        CellView::ListFloat(_) => kind == ValueKind::Float32 && list,
        CellView::ListString(_) => kind == ValueKind::String && list,
    }
}

/// Offset of the unordered genotype of alleles `a <= b` in an array indexed
/// by genotype.
pub open spec fn genotype_index(a: nat, b: nat) -> nat {
    b * (b + 1) / 2 + a
}

/// Number of unordered diploid genotypes over this many alleles.
pub open spec fn genotype_count(alleles: nat) -> nat {
    alleles * (alleles + 1) / 2
}

/// Which entries of a field's array go into the row of one alternate allele.
#[derive(Debug, Clone, Copy, PartialEq, Eq, Structural)]
pub enum Selection {
    /// The field is declared with a single value and cannot hold an array,
    /// or the array has no entry for the allele.
    Reject,
    /// The whole array.
    Whole,
    /// One entry, as a scalar.
    Single(usize),
    /// Two entries.
    Pair(usize, usize),
    /// Three entries.
    Triple(usize, usize, usize),
    /// Two entries with the type's zero between them.
    Padded(usize, usize),
    /// A list of this many nulls.
    Nulls(usize),
}

/// The selection for the row of alternate allele `alt_id`, out of `alt_count`,
/// from an array of `len` entries declared with `number`.
///
/// `A` picks the allele's entry. `R` picks the reference entry and the
/// allele's, shifted by one for the reference. `G` picks the three genotypes
/// of reference and allele from an array indexed by genotype, or from one
/// with an entry per allele the two homozygous ones around a zero; an array
/// of another length gives nulls.
pub open spec fn selection(
    number: Number,
    len: usize,
    alt_id: usize,
    alt_count: usize,
) -> Selection {
    match number {
        Number::Count(n) => if n <= 1 {
            Selection::Reject
        } else {
            Selection::Whole
        },
        Number::Unknown => Selection::Whole,
        Number::A => if alt_id < len {
            Selection::Single(alt_id)
        } else {
            Selection::Reject
        },
        Number::R => if len == alt_count + 1 {
            Selection::Pair(0, (alt_id + 1) as usize)
        } else {
            Selection::Nulls(2)
        },
        Number::G => if len == genotype_count((alt_count + 1) as nat) {
            Selection::Triple(
                0,
                genotype_index(0, (alt_id + 1) as nat) as usize,
                genotype_index((alt_id + 1) as nat, (alt_id + 1) as nat) as usize,
            )
        } else if len == alt_count + 1 {
            Selection::Padded(0, (alt_id + 1) as usize)
        } else {
            Selection::Nulls(3)
        },
    }
}

/// Whether every index of a selection lies in an array of `len` entries.
pub open spec fn selection_in_range(sel: Selection, len: usize) -> bool {
    match sel {
        Selection::Single(i) => i < len,
        Selection::Pair(i, j) => i < len && j < len,
        Selection::Triple(i, j, k) => i < len && j < len && k < len,
        Selection::Padded(i, j) => i < len && j < len,
        _ => true,
    }
}

/// The genotype of an allele with itself is the last one over the alleles up
/// to it, and the genotypes over fewer alleles come before those over more.
pub proof fn lemma_genotype_index_bound(b: nat, alleles: nat)
    requires
        b < alleles,
    ensures
        genotype_index(0, b) <= genotype_index(b, b),
        genotype_index(b, b) + 1 == genotype_count(b + 1),
        genotype_count(b + 1) <= genotype_count(alleles),
{
    assert(b * (b + 1) / 2 + b + 1 == (b + 1) * (b + 2) / 2) by (nonlinear_arith);
    assert((b + 1) * (b + 2) / 2 <= alleles * (alleles + 1) / 2) by (nonlinear_arith)
        requires
            b + 1 <= alleles,
    ;
}

/// Every index that `selection` names lies in the array.
pub proof fn lemma_selection_in_range(number: Number, len: usize, alt_id: usize, alt_count: usize)
    requires
        alt_id < alt_count,
    ensures
        selection_in_range(selection(number, len, alt_id, alt_count), len),
{
    if number == Number::G && len == genotype_count((alt_count + 1) as nat) {
        lemma_genotype_index_bound((alt_id + 1) as nat, (alt_count + 1) as nat);
    }
}

/// Computes `selection`.
pub fn select(number: Number, len: usize, alt_id: usize, alt_count: usize) -> (sel: Selection)
    requires
        alt_id < alt_count,
    ensures
        sel == selection(number, len, alt_id, alt_count),
        selection_in_range(sel, len),
{
    proof {
        lemma_selection_in_range(number, len, alt_id, alt_count);
    }
    match number {
        Number::Count(n) => if n <= 1 {
            Selection::Reject
        } else {
            Selection::Whole
        },
        Number::Unknown => Selection::Whole,
        Number::A => if alt_id < len {
            Selection::Single(alt_id)
        } else {
            Selection::Reject
        },
        Number::R => if len as u128 == alt_count as u128 + 1 {
            Selection::Pair(0, alt_id + 1)
        } else {
            Selection::Nulls(2)
        },
        Number::G => {
            if is_genotype_count(len, alt_count) {
                proof {
                    lemma_genotype_index_bound((alt_id + 1) as nat, (alt_count + 1) as nat);
                }
                let b: usize = alt_id + 1;
                Selection::Triple(0, genotype_offset(0, b), genotype_offset(b, b))
            } else if len as u128 == alt_count as u128 + 1 {
                Selection::Padded(0, alt_id + 1)
            } else {
                Selection::Nulls(3)
            }
        },
    }
}

/// Computes `genotype_index` where it fits.
pub fn genotype_offset(a: usize, b: usize) -> (offset: usize)
    requires
        a <= b,
        genotype_index(b as nat, b as nat) <= usize::MAX,
    ensures
        offset == genotype_index(a as nat, b as nat),
{
    let wide: u128 = b as u128;
    assert(wide * (wide + 1) / 2 + wide <= usize::MAX) by (nonlinear_arith)
        requires
            genotype_index(b as nat, b as nat) <= usize::MAX,
            wide == b,
    ;
    assert(wide * (wide + 1) <= 2 * usize::MAX + 1) by (nonlinear_arith)
        requires
            wide * (wide + 1) / 2 + wide <= usize::MAX,
            wide >= 0,
    ;
    ((wide * (wide + 1) / 2) as usize) + a
}

/// Whether `len` is the number of genotypes over the reference and
/// `alt_count` alternate alleles.
pub fn is_genotype_count(len: usize, alt_count: usize) -> (yes: bool)
    ensures
        yes == (len == genotype_count((alt_count + 1) as nat)),
{
    let a: u128 = alt_count as u128 + 1;
    if a > 0x1_FFFF_FFFF {
        // More genotypes than any array has entries.
        assert(a * (a + 1) / 2 > 0xFFFF_FFFF_FFFF_FFFF) by (nonlinear_arith)
            requires
                a > 0x1_FFFF_FFFF,
        ;
        false
    } else {
        assert(a * (a + 1) <= 0x1_FFFF_FFFF * 0x2_0000_0000) by (nonlinear_arith)
            requires
                a <= 0x1_FFFF_FFFF,
        ;
        let count: u128 = a * (a + 1) / 2;
        len as u128 == count
    }
}

} // verus!
