//! One parsed variant record, as plain values.
//!
//! Floating-point values are held as their IEEE-754 bit patterns.

use vstd::prelude::*;

verus! {

/// The values of a field that holds several.
#[derive(Debug, Clone, PartialEq, Eq)]
pub enum Array {
    Integer(Vec<Option<i32>>),
    Float(Vec<Option<u32>>),
    String(Vec<Option<String>>),
}

/// The mathematical value of an [`Array`].
pub enum ArrayView {
    Integer(Seq<Option<i32>>),
    Float(Seq<Option<u32>>),
    String(Seq<Option<Seq<char>>>),
}

impl DeepView for Array {
    type V = ArrayView;

    open spec fn deep_view(&self) -> ArrayView {
        match self {
            Array::Integer(a) => ArrayView::Integer(a@),
            Array::Float(a) => ArrayView::Float(a@),
            Array::String(a) => ArrayView::String(a.deep_view()),
        }
    }
}

/// The value of an INFO field, or of a FORMAT field for one sample.
/// A character is held as a string of one character.
#[derive(Debug, Clone, PartialEq, Eq)]
pub enum Value {
    Integer(i32),
    Float(u32),
    Flag,
    String(String),
    Array(Array),
}

/// The mathematical value of a [`Value`].
pub enum ValueView {
    Integer(i32),
    Float(u32),
    Flag,
    String(Seq<char>),
    Array(ArrayView),
}

impl DeepView for Value {
    type V = ValueView;

    open spec fn deep_view(&self) -> ValueView {
        match self {
            Value::Integer(v) => ValueView::Integer(*v),
            Value::Float(v) => ValueView::Float(*v),
            Value::Flag => ValueView::Flag,
            Value::String(v) => ValueView::String(v@),
            Value::Array(v) => ValueView::Array(v.deep_view()),
        }
    }
}

/// One INFO entry of a record: its key, and its value unless that is missing.
#[derive(Debug, Clone, PartialEq, Eq)]
pub struct Field {
    pub key: String,
    pub value: Option<Value>,
}

/// The mathematical value of a [`Field`].
pub struct FieldView {
    pub key: Seq<char>,
    pub value: Option<ValueView>,
}

impl DeepView for Field {
    type V = FieldView;

    open spec fn deep_view(&self) -> FieldView {
        FieldView { key: self.key@, value: self.value.deep_view() }
    }
}

/// The FORMAT values of one sample, in the order of the record's FORMAT keys.
#[derive(Debug, Clone, PartialEq, Eq)]
pub struct Sample {
    pub values: Vec<Option<Value>>,
}

impl DeepView for Sample {
    type V = Seq<Option<ValueView>>;

    open spec fn deep_view(&self) -> Seq<Option<ValueView>> {
        self.values.deep_view()
    }
}

/// The FILTER column of a record that has one.
#[derive(Debug, Clone, PartialEq, Eq)]
pub enum Filters {
    Pass,
    Fail(Vec<String>),
}

/// The mathematical value of a [`Filters`].
pub enum FiltersView {
    Pass,
    Fail(Seq<Seq<char>>),
}

impl DeepView for Filters {
    type V = FiltersView;

    open spec fn deep_view(&self) -> FiltersView {
        match self {
            Filters::Pass => FiltersView::Pass,
            Filters::Fail(names) => FiltersView::Fail(names.deep_view()),
        }
    }
}

/// One variant record.
#[derive(Debug, Clone, PartialEq, Eq)]
pub struct Record {
    pub chromosome: String,
    /// 1-based position.
    pub position: usize,
    pub ids: Vec<String>,
    pub reference_bases: String,
    pub alternate_bases: Vec<String>,
    pub quality_score: Option<u32>,
    pub filters: Option<Filters>,
    pub info: Vec<Field>,
    /// The FORMAT keys of this record.
    pub format: Vec<String>,
    pub samples: Vec<Sample>,
}

/// The mathematical value of a [`Record`].
pub struct RecordView {
    pub chromosome: Seq<char>,
    pub position: nat,
    pub ids: Seq<Seq<char>>,
    pub reference_bases: Seq<char>,
    pub alternate_bases: Seq<Seq<char>>,
    pub quality_score: Option<u32>,
    pub filters: Option<FiltersView>,
    pub info: Seq<FieldView>,
    pub format: Seq<Seq<char>>,
    pub samples: Seq<Seq<Option<ValueView>>>,
}

impl DeepView for Record {
    type V = RecordView;

    open spec fn deep_view(&self) -> RecordView {
        RecordView {
            chromosome: self.chromosome@,
            position: self.position as nat,
            ids: self.ids.deep_view(),
            reference_bases: self.reference_bases@,
            alternate_bases: self.alternate_bases.deep_view(),
            quality_score: self.quality_score,
            filters: self.filters.deep_view(),
            info: self.info.deep_view(),
            format: self.format.deep_view(),
            samples: self.samples.deep_view(),
        }
    }
}

/// Index of the first key equal to `key`, if there is one.
pub open spec fn position_of(keys: Seq<Seq<char>>, key: Seq<char>) -> Option<int>
    decreases keys.len(),
{
    if keys.len() == 0 {
        None
    } else if keys[0] == key {
        Some(0)
    } else {
        match position_of(keys.drop_first(), key) {
            Some(i) => Some(i + 1),
            None => None,
        }
    }
}

/// The value of the first INFO entry with this key; `None` where there is no
/// such entry or its value is missing.
pub open spec fn info_value(info: Seq<FieldView>, key: Seq<char>) -> Option<ValueView> {
    match position_of(info.map_values(|f: FieldView| f.key), key) {
        Some(i) => info[i].value,
        None => None,
    }
}

/// The value a sample holds for this FORMAT key; `None` where the record has
/// no such key, the sample stops before it, or the value is missing.
pub open spec fn sample_value(
    format: Seq<Seq<char>>,
    sample: Seq<Option<ValueView>>,
    key: Seq<char>,
) -> Option<ValueView> {
    match position_of(format, key) {
        Some(i) => if i < sample.len() {
            sample[i]
        } else {
            None
        },
        None => None,
    }
}

/// `position_of` finds the least index that holds the key.
pub proof fn lemma_position_of(keys: Seq<Seq<char>>, key: Seq<char>)
    ensures
        match position_of(keys, key) {
            Some(i) => 0 <= i < keys.len() && keys[i] == key && forall|j: int|
                0 <= j < i ==> keys[j] != key,
            None => forall|j: int| 0 <= j < keys.len() ==> keys[j] != key,
        },
    decreases keys.len(),
{
    if keys.len() > 0 && keys[0] != key {
        let rest = keys.drop_first();
        lemma_position_of(rest, key);
        match position_of(rest, key) {
            Some(i) => {
                assert forall|j: int| 0 <= j < i + 1 implies keys[j] != key by {
                    if j > 0 {
                        assert(keys[j] == rest[j - 1]);
                    }
                }
            },
            None => {
                assert forall|j: int| 0 <= j < keys.len() implies keys[j] != key by {
                    if j > 0 {
                        assert(keys[j] == rest[j - 1]);
                    }
                }
            },
        }
    }
}

/// Any index that holds the key and has none before it is what `position_of` finds.
pub proof fn lemma_position_of_is(keys: Seq<Seq<char>>, key: Seq<char>, i: int)
    requires
        0 <= i < keys.len(),
        keys[i] == key,
        forall|j: int| 0 <= j < i ==> keys[j] != key,
    ensures
        position_of(keys, key) == Some(i),
{
    lemma_position_of(keys, key);
}

/// Looks a key up among strings: the least index that holds it.
pub fn find_key(keys: &Vec<String>, key: &String) -> (found: Option<usize>)
    ensures
        match position_of(keys.deep_view(), key@) {
            Some(i) => 0 <= i < keys.len() && found == Some(i as usize),
            None => found is None,
        },
{
    let mut i: usize = 0;
    while i < keys.len()
        invariant
            i <= keys.len(),
            forall|j: int| 0 <= j < i ==> keys.deep_view()[j] != key@,
        decreases keys.len() - i,
    {
        if keys[i] == *key {
            proof {
                lemma_position_of_is(keys.deep_view(), key@, i as int);
            }
            return Some(i);
        }
        i += 1;
    }
    proof {
        lemma_position_of(keys.deep_view(), key@);
    }
    None
}

impl Record {
    /// The value of the INFO field `key`, unless it is absent or missing.
    pub fn info_value(&self, key: &String) -> (value: Option<&Value>)
        ensures
            value.deep_view() == info_value(self.deep_view().info, key@),
    {
        let ghost keys = self.deep_view().info.map_values(|f: FieldView| f.key);
        let mut i: usize = 0;
        while i < self.info.len()
            invariant
                i <= self.info.len(),
                keys == self.deep_view().info.map_values(|f: FieldView| f.key),
                forall|j: int| 0 <= j < i ==> keys[j] != key@,
            decreases self.info.len() - i,
        {
            if self.info[i].key == *key {
                proof {
                    lemma_position_of_is(keys, key@, i as int);
                }
                return self.info[i].value.as_ref();
            }
            i += 1;
        }
        proof {
            lemma_position_of(keys, key@);
        }
        None
    }

    /// The value that sample `index` holds for the FORMAT field `key`, unless
    /// it is absent or missing.
    pub fn sample_value(&self, index: usize, key: &String) -> (value: Option<&Value>)
        requires
            index < self.samples.len(),
        ensures
            value.deep_view() == sample_value(
                self.deep_view().format,
                self.deep_view().samples[index as int],
                key@,
            ),
    {
        let sample = &self.samples[index];
        assert(self.deep_view().samples[index as int] == sample.values.deep_view());
        match find_key(&self.format, key) {
            Some(i) => {
                if i < sample.values.len() {
                    assert(sample.values.deep_view()[i as int] == sample.values@[i as int].deep_view());
                    sample.values[i].as_ref()
                } else {
                    None
                }
            },
            None => None,
        }
    }
}

} // verus!
