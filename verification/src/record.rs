//! Structured data: records of named fields, as handed to the JSON writer.

use vstd::prelude::*;

verus! {

/// The value of one field: a whole number or a text.
#[derive(Debug, PartialEq, Eq)]
pub enum Scalar {
    Int(i32),
    Text(String),
}

/// What a [`Scalar`] is in contracts.
pub enum ScalarView {
    Int(int),
    Text(Seq<char>),
}

impl View for Scalar {
    type V = ScalarView;

    open spec fn view(&self) -> ScalarView {
        match self {
            Scalar::Int(n) => ScalarView::Int(*n as int),
            Scalar::Text(s) => ScalarView::Text(s@),
        }
    }
}

/// A field: a name and the value that stands under it.
#[derive(Debug, PartialEq, Eq)]
pub struct Field {
    pub name: String,
    pub value: Scalar,
}

/// What a [`Field`] is in contracts.
pub struct FieldView {
    pub name: Seq<char>,
    pub value: ScalarView,
}

impl View for Field {
    type V = FieldView;

    open spec fn view(&self) -> FieldView {
        FieldView { name: self.name@, value: self.value@ }
    }
}

/// No two of the fields have the same name, so that the fields map each
/// name to one value.
pub open spec fn names_distinct(fields: Seq<FieldView>) -> bool {
    forall|i: int, j: int|
        0 <= i < j < fields.len() ==> (#[trigger] fields[i]).name != (#[trigger] fields[j]).name
}

/// A record: fields in the order in which they are written out.
#[derive(Debug, PartialEq, Eq)]
pub struct Record {
    pub fields: Vec<Field>,
}

impl View for Record {
    type V = Seq<FieldView>;

    open spec fn view(&self) -> Seq<FieldView> {
        self.fields@.map_values(|field: Field| field@)
    }
}

/// What is written out at once: one record, or a list of records.
#[derive(Debug, PartialEq, Eq)]
pub enum Document {
    Record(Record),
    List(Vec<Record>),
}

/// What a [`Document`] is in contracts.
pub enum DocumentView {
    Record(Seq<FieldView>),
    List(Seq<Seq<FieldView>>),
}

impl View for Document {
    type V = DocumentView;

    open spec fn view(&self) -> DocumentView {
        match self {
            Document::Record(record) => DocumentView::Record(record@),
            Document::List(records) => DocumentView::List(
                records@.map_values(|record: Record| record@),
            ),
        }
    }
}

} // verus!
