//! What a variant file's header declares: the INFO and FORMAT fields and the samples.

use vstd::prelude::*;

verus! {

/// How many values a field holds per record.
#[derive(Debug, Clone, Copy, PartialEq, Eq, Structural)]
pub enum Number {
    /// A fixed count.
    Count(usize),
    /// One value per alternate allele.
    A,
    /// One value per allele, the reference included.
    R,
    /// One value per unordered genotype.
    G,
    /// A count that varies or is not known.
    Unknown,
}

/// The scalar type a field is declared with.
#[derive(Debug, Clone, Copy, PartialEq, Eq, Structural)]
pub enum Type {
    Integer,
    Float,
    Flag,
    Character,
    String,
}

/// One INFO or FORMAT definition of a header.
#[derive(Debug, Clone, PartialEq, Eq)]
pub struct Definition {
    pub key: String,
    pub ty: Type,
    pub number: Number,
}

/// The mathematical value of a [`Definition`].
pub struct DefinitionView {
    pub key: Seq<char>,
    pub ty: Type,
    pub number: Number,
}

impl DeepView for Definition {
    type V = DefinitionView;

    open spec fn deep_view(&self) -> DefinitionView {
        DefinitionView { key: self.key@, ty: self.ty, number: self.number }
    }
}

/// The parts of a header that decide the columns: definitions in header order
/// and sample names in column order.
#[derive(Debug, Clone, PartialEq, Eq)]
pub struct Header {
    pub infos: Vec<Definition>,
    pub formats: Vec<Definition>,
    pub sample_names: Vec<String>,
}

/// The mathematical value of a [`Header`].
pub struct HeaderView {
    pub infos: Seq<DefinitionView>,
    pub formats: Seq<DefinitionView>,
    pub sample_names: Seq<Seq<char>>,
}

impl DeepView for Header {
    type V = HeaderView;

    open spec fn deep_view(&self) -> HeaderView {
        HeaderView {
            infos: self.infos.deep_view(),
            formats: self.formats.deep_view(),
            sample_names: self.sample_names.deep_view(),
        }
    }
}

impl Definition {
    pub fn new(key: String, ty: Type, number: Number) -> (def: Definition)
        ensures
            def.deep_view() == (DefinitionView { key: key@, ty, number }),
    {
        Definition { key, ty, number }
    }
}

impl Header {
    pub fn new(
        infos: Vec<Definition>,
        formats: Vec<Definition>,
        sample_names: Vec<String>,
    ) -> (header: Header)
        ensures
            header.infos == infos,
            header.formats == formats,
            header.sample_names == sample_names,
    {
        Header { infos, formats, sample_names }
    }
}

} // verus!
