//! The columns that a header gives rise to.

use vstd::prelude::*;
use vstd::string::StringExecFns;

use crate::cell::{is_list_number, value_kind_of, ValueKind};
use crate::error::Error;
use crate::field::supported;
use crate::header::{Definition, DefinitionView, Header, HeaderView, Number, Type};

verus! {

/// How many values a column's field holds per record.
#[derive(Debug, Clone, Copy, PartialEq, Eq, Structural)]
pub enum Cardinality {
    /// One value.
    Scalar,
    /// A fixed count, above one.
    FixedArity(usize),
    /// One value per alternate allele; a row holds the one of its allele.
    PerAltAllele,
    /// One value per allele; a row holds the reference's and its allele's.
    PerAllelePair,
    /// One value per genotype; a row holds those of reference and its allele.
    PerGenotype,
    /// A count that varies or is not known.
    Unbounded,
}

/// The cardinality that a number code stands for.
pub open spec fn cardinality_of(number: Number) -> Cardinality {
    match number {
        Number::Count(n) => if n <= 1 {
            Cardinality::Scalar
        } else {
            Cardinality::FixedArity(n)
        },
        Number::A => Cardinality::PerAltAllele,
        Number::R => Cardinality::PerAllelePair,
        Number::G => Cardinality::PerGenotype,
        Number::Unknown => Cardinality::Unbounded,
    }
}

impl Cardinality {
    /// Whether a column of this cardinality holds lists: all but `Scalar`
    /// and `PerAltAllele`.
    pub open spec fn holds_lists(self) -> bool {
        !(self == Cardinality::Scalar || self == Cardinality::PerAltAllele)
    }

    /// Computes `holds_lists`.
    pub fn is_list(&self) -> (yes: bool)
        ensures
            yes == self.holds_lists(),
    {
        match self {
            Cardinality::Scalar => false,
            Cardinality::PerAltAllele => false,
            _ => true,
        }
    }
}

/// One column: its name, the type of its values, whether it holds lists of
/// them and how long, and what it is declared with as to nulls.
///
/// `nullable` is held against the values of the column: the items of a list
/// column, which cannot be frozen while one of them is null and `nullable`
/// is not set, and the values of a scalar column, which the writer of a
/// batch holds it against. It is not held against the rows of a list
/// column: a null may stand for a whole list whatever `nullable` says, and
/// does so in the required columns (see `takes_null_rows`).
#[derive(Debug, Clone, PartialEq, Eq)]
pub struct FieldSpec {
    pub name: String,
    pub value_kind: ValueKind,
    pub cardinality: Cardinality,
    pub nullable: bool,
}

/// The mathematical value of a [`FieldSpec`].
pub struct FieldSpecView {
    pub name: Seq<char>,
    pub value_kind: ValueKind,
    pub cardinality: Cardinality,
    pub nullable: bool,
}

impl DeepView for FieldSpec {
    type V = FieldSpecView;

    open spec fn deep_view(&self) -> FieldSpecView {
        FieldSpecView {
            name: self.name@,
            value_kind: self.value_kind,
            cardinality: self.cardinality,
            nullable: self.nullable,
        }
    }
}

impl FieldSpec {
    pub fn new(
        name: &str,
        value_kind: ValueKind,
        cardinality: Cardinality,
        nullable: bool,
    ) -> (field: FieldSpec)
        ensures
            field.deep_view() == (FieldSpecView { name: name@, value_kind, cardinality, nullable }),
    {
        FieldSpec { name: String::from_str(name), value_kind, cardinality, nullable }
    }
}

/// The columns of a batch, in the order in which a writer gets them.
#[derive(Debug, Clone, PartialEq, Eq)]
pub struct Schema {
    pub fields: Vec<FieldSpec>,
}

impl DeepView for Schema {
    type V = Seq<FieldSpecView>;

    open spec fn deep_view(&self) -> Seq<FieldSpecView> {
        self.fields.deep_view()
    }
}

/// Number of columns that every schema starts with.
pub const REQUIRED_COLUMNS: usize = 7;

/// Whether the writer of a batch is to take null rows in column `index` of a
/// schema: where the column is declared nullable, and in the list columns
/// among the required ones in any case, since a record without identifiers
/// or without filters has a null there in place of a list.
pub open spec fn takes_null_rows(field: FieldSpecView, index: int) -> bool {
    field.nullable || (index < REQUIRED_COLUMNS && field.cardinality.holds_lists())
}

/// Computes `takes_null_rows`.
pub fn null_rows(field: &FieldSpec, index: usize) -> (yes: bool)
    ensures
        yes == takes_null_rows(field.deep_view(), index as int),
{
    field.nullable || (index < REQUIRED_COLUMNS && field.cardinality.is_list())
}

/// The seven columns that every schema starts with.
pub open spec fn required_fields() -> Seq<FieldSpecView> {
    seq![
        FieldSpecView {
            name: "chromosome"@,
            value_kind: ValueKind::String,
            cardinality: Cardinality::Scalar,
            nullable: false,
        },
        FieldSpecView {
            name: "position"@,
            value_kind: ValueKind::Int32,
            cardinality: Cardinality::Scalar,
            nullable: false,
        },
        FieldSpecView {
            name: "identifier"@,
            value_kind: ValueKind::String,
            cardinality: Cardinality::Unbounded,
            nullable: false,
        },
        FieldSpecView {
            name: "reference"@,
            value_kind: ValueKind::String,
            cardinality: Cardinality::Scalar,
            nullable: false,
        },
        FieldSpecView {
            name: "alternate"@,
            value_kind: ValueKind::String,
            cardinality: Cardinality::Scalar,
            nullable: false,
        },
        FieldSpecView {
            name: "quality"@,
            value_kind: ValueKind::Float32,
            cardinality: Cardinality::Scalar,
            nullable: true,
        },
        FieldSpecView {
            name: "filter"@,
            value_kind: ValueKind::String,
            cardinality: Cardinality::Unbounded,
            nullable: false,
        },
    ]
}

/// The column of an INFO definition: `info_` and the key.
pub open spec fn info_field(def: DefinitionView, info_optional: bool) -> FieldSpecView {
    FieldSpecView {
        name: "info_"@ + def.key,
        value_kind: value_kind_of(def.ty),
        cardinality: cardinality_of(def.number),
        nullable: info_optional,
    }
}

/// The columns of the INFO definitions, in header order.
pub open spec fn info_fields(
    infos: Seq<DefinitionView>,
    info_optional: bool,
) -> Seq<FieldSpecView> {
    Seq::new(infos.len(), |i: int| info_field(infos[i], info_optional))
}

/// The column of a FORMAT definition for one sample: `format_`, the sample's
/// name, `_` and the key. It may hold nulls.
pub open spec fn format_field(sample: Seq<char>, def: DefinitionView) -> FieldSpecView {
    FieldSpecView {
        name: "format_"@ + sample + "_"@ + def.key,
        value_kind: value_kind_of(def.ty),
        cardinality: cardinality_of(def.number),
        nullable: true,
    }
}

/// The columns of the FORMAT definitions: sample after sample, and for each
/// sample the definitions in header order.
pub open spec fn format_fields(
    samples: Seq<Seq<char>>,
    formats: Seq<DefinitionView>,
) -> Seq<FieldSpecView> {
    Seq::new(
        samples.len() * formats.len(),
        |i: int| format_field(samples[i / formats.len() as int], formats[i % formats.len() as int]),
    )
}

/// Whether every definition of a header has a column.
pub open spec fn header_supported(header: HeaderView) -> bool {
    &&& forall|i: int|
        0 <= i < header.infos.len() ==> supported(
            (#[trigger] header.infos[i]).ty,
            header.infos[i].number,
        )
    &&& forall|i: int|
        0 <= i < header.formats.len() ==> supported(
            (#[trigger] header.formats[i]).ty,
            header.formats[i].number,
        )
}

/// The columns of a header: the required ones, then those of the INFO
/// definitions, then those of the FORMAT definitions.
pub open spec fn schema_fields(header: HeaderView, info_optional: bool) -> Seq<FieldSpecView> {
    required_fields() + info_fields(header.infos, info_optional) + format_fields(
        header.sample_names,
        header.formats,
    )
}

/// Computes `value_kind_of`.
pub fn value_kind(ty: Type) -> (kind: ValueKind)
    ensures
        kind == value_kind_of(ty),
{
    match ty {
        Type::Integer => ValueKind::Int32,
        Type::Float => ValueKind::Float32,
        Type::Flag => ValueKind::Bool,
        Type::Character => ValueKind::String,
        Type::String => ValueKind::String,
    }
}

/// Computes `cardinality_of`.
pub fn cardinality(number: Number) -> (card: Cardinality)
    ensures
        card == cardinality_of(number),
        card.holds_lists() == is_list_number(number),
{
    match number {
        Number::Count(n) => if n <= 1 {
            Cardinality::Scalar
        } else {
            Cardinality::FixedArity(n)
        },
        Number::A => Cardinality::PerAltAllele,
        Number::R => Cardinality::PerAllelePair,
        Number::G => Cardinality::PerGenotype,
        Number::Unknown => Cardinality::Unbounded,
    }
}

/// The seven columns that every schema starts with.
pub fn required_column() -> (fields: Vec<FieldSpec>)
    ensures
        fields.deep_view() == required_fields(),
{
    let mut fields: Vec<FieldSpec> = Vec::new();
    fields.push(FieldSpec::new("chromosome", ValueKind::String, Cardinality::Scalar, false));
    fields.push(FieldSpec::new("position", ValueKind::Int32, Cardinality::Scalar, false));
    fields.push(FieldSpec::new("identifier", ValueKind::String, Cardinality::Unbounded, false));
    fields.push(FieldSpec::new("reference", ValueKind::String, Cardinality::Scalar, false));
    fields.push(FieldSpec::new("alternate", ValueKind::String, Cardinality::Scalar, false));
    fields.push(FieldSpec::new("quality", ValueKind::Float32, Cardinality::Scalar, true));
    fields.push(FieldSpec::new("filter", ValueKind::String, Cardinality::Unbounded, false));
    assert(fields.deep_view() =~= required_fields());
    fields
}

/// The columns of the INFO definitions of a header.
pub fn info(header: &Header, info_optional: bool) -> (fields: Vec<FieldSpec>)
    ensures
        fields.deep_view() == info_fields(header.deep_view().infos, info_optional),
{
    let ghost infos = header.deep_view().infos;
    let mut fields: Vec<FieldSpec> = Vec::new();
    let mut i: usize = 0;
    while i < header.infos.len()
        invariant
            i <= header.infos.len(),
            infos == header.infos.deep_view(),
            fields.deep_view() =~= Seq::new(i as nat, |k: int| info_field(infos[k], info_optional)),
        decreases header.infos.len() - i,
    {
        let def = &header.infos[i];
        assert(infos[i as int] == def.deep_view());
        let mut name = String::from_str("info_");
        name.append(def.key.as_str());
        let ghost before = fields.deep_view();
        fields.push(
            FieldSpec {
                name,
                value_kind: value_kind(def.ty),
                cardinality: cardinality(def.number),
                nullable: info_optional,
            },
        );
        assert(fields.deep_view() =~= before.push(info_field(infos[i as int], info_optional)));
        i += 1;
    }
    fields
}

/// The columns of the FORMAT definitions of a header, for each of its samples.
pub fn genotype(header: &Header) -> (fields: Vec<FieldSpec>)
    ensures
        fields.deep_view() == format_fields(
            header.deep_view().sample_names,
            header.deep_view().formats,
        ),
{
    let ghost samples = header.deep_view().sample_names;
    let ghost formats = header.deep_view().formats;
    let width: usize = header.formats.len();
    let mut fields: Vec<FieldSpec> = Vec::new();
    let mut s: usize = 0;
    while s < header.sample_names.len()
        invariant
            s <= header.sample_names.len(),
            width == header.formats.len(),
            samples == header.sample_names.deep_view(),
            formats == header.formats.deep_view(),
            fields.deep_view() =~= Seq::new(
                (s * width) as nat,
                |k: int| format_field(samples[k / width as int], formats[k % width as int]),
            ),
        decreases header.sample_names.len() - s,
    {
        let sample = &header.sample_names[s];
        assert(samples[s as int] == sample@);
        let mut f: usize = 0;
        while f < width
            invariant
                s < header.sample_names.len(),
                f <= width,
                width == header.formats.len(),
                samples == header.sample_names.deep_view(),
                formats == header.formats.deep_view(),
                samples[s as int] == sample@,
                fields.deep_view() =~= Seq::new(
                    (s * width + f) as nat,
                    |k: int| format_field(samples[k / width as int], formats[k % width as int]),
                ),
            decreases width - f,
        {
            let def = &header.formats[f];
            assert(formats[f as int] == def.deep_view());
            let mut name = String::from_str("format_");
            name.append(sample.as_str());
            name.append("_");
            name.append(def.key.as_str());
            let ghost before = fields.deep_view();
            fields.push(
                FieldSpec {
                    name,
                    value_kind: value_kind(def.ty),
                    cardinality: cardinality(def.number),
                    nullable: true,
                },
            );
            proof {
                let k = s * width + f;
                vstd::arithmetic::div_mod::lemma_fundamental_div_mod_converse(
                    k as int,
                    width as int,
                    s as int,
                    f as int,
                );
                assert(fields.deep_view() =~= before.push(
                    format_field(samples[s as int], formats[f as int]),
                ));
            }
            f += 1;
        }
        assert(s * width + width == (s + 1) * width) by (nonlinear_arith);
        s += 1;
    }
    fields
}

/// Whether a definition has a column.
pub fn is_supported(def: &Definition) -> (yes: bool)
    ensures
        yes == supported(def.ty, def.number),
{
    match def.ty {
        Type::Flag => !crate::field::is_list(def.number),
        _ => true,
    }
}

/// Whether all of these definitions have a column.
pub fn all_supported(defs: &Vec<Definition>) -> (yes: bool)
    ensures
        yes == forall|i: int|
            0 <= i < defs.len() ==> supported(
                (#[trigger] defs.deep_view()[i]).ty,
                defs.deep_view()[i].number,
            ),
{
    let ghost views = defs.deep_view();
    let mut i: usize = 0;
    while i < defs.len()
        invariant
            i <= defs.len(),
            views == defs.deep_view(),
            forall|k: int| 0 <= k < i ==> supported((#[trigger] views[k]).ty, views[k].number),
        decreases defs.len() - i,
    {
        assert(views[i as int] == defs@[i as int].deep_view());
        if !is_supported(&defs[i]) {
            return false;
        }
        i += 1;
    }
    true
}

/// Whether `result` is what deriving the schema of a header gives: its
/// columns where every definition has one, else `NoConversion`.
pub open spec fn derives(
    header: HeaderView,
    info_optional: bool,
    result: Result<Seq<FieldSpecView>, Error>,
) -> bool {
    match result {
        Ok(schema) => header_supported(header) && schema == schema_fields(header, info_optional),
        Err(e) => !header_supported(header) && e == Error::NoConversion,
    }
}

/// Derives the schema of a header. INFO columns may hold nulls where
/// `info_optional` is set.
///
/// Fails with `NoConversion`, and only so, where a definition has no column.
pub fn from_header(header: &Header, info_optional: bool) -> (result: Result<Schema, Error>)
    ensures
        derives(
            header.deep_view(),
            info_optional,
            match result {
                Ok(schema) => Ok(schema.deep_view()),
                Err(e) => Err(e),
            },
        ),
{
    if !all_supported(&header.infos) || !all_supported(&header.formats) {
        return Err(Error::NoConversion);
    }
    let mut columns = required_column();
    let mut infos = info(header, info_optional);
    let mut formats = genotype(header);
    let ghost first = columns.deep_view();
    let ghost second = infos.deep_view();
    let ghost third = formats.deep_view();
    columns.append(&mut infos);
    assert(columns.deep_view() =~= first + second);
    columns.append(&mut formats);
    assert(columns.deep_view() =~= first + second + third);
    Ok(Schema { fields: columns })
}

} // verus!
