//! The person record and its two renderings.

use crate::decimal::{decimal_text, format_i32};
use crate::json::{pretty_json, render, RenderError};
use crate::record::{
    names_distinct, Document, DocumentView, Field, FieldView, Record, Scalar, ScalarView,
};
use vstd::prelude::*;
use vstd::string::*;

verus! {

/// One record of the directory.
#[derive(Debug, PartialEq, Eq)]
pub struct Person {
    pub id: i32,
    pub name: String,
    pub age: i32,
}

/// What a [`Person`] is in contracts: its two numbers and the characters of
/// its name.
pub struct PersonView {
    pub id: int,
    pub name: Seq<char>,
    pub age: int,
}

impl View for Person {
    type V = PersonView;

    open spec fn view(&self) -> PersonView {
        PersonView { id: self.id as int, name: self.name@, age: self.age as int }
    }
}

/// The structured form of a person: the fields `id`, `name` and `age`, in
/// that order.
pub open spec fn structured_form(p: PersonView) -> Seq<FieldView> {
    seq![
        FieldView { name: "id"@, value: ScalarView::Int(p.id) },
        FieldView { name: "name"@, value: ScalarView::Text(p.name) },
        FieldView { name: "age"@, value: ScalarView::Int(p.age) },
    ]
}

/// The plain line that stands for a person where the structured form cannot
/// be rendered.
pub open spec fn fallback_text(p: PersonView) -> Seq<char> {
    "id: "@ + decimal_text(p.id) + ", name: "@ + p.name + ", age: "@ + decimal_text(p.age)
}

/// The display form of a person: its structured form as indented JSON text,
/// or the plain line where the JSON writer reports an error.
pub open spec fn display_text(p: PersonView) -> Seq<char> {
    match pretty_json(DocumentView::Record(structured_form(p))) {
        Some(text) => text,
        None => fallback_text(p),
    }
}

/// The structured form names each of its fields once.
pub proof fn lemma_structured_form_names(p: PersonView)
    ensures
        names_distinct(structured_form(p)),
{
    reveal_strlit("id");
    reveal_strlit("name");
    reveal_strlit("age");
    let fields = structured_form(p);
    assert(fields[0].name.len() == 2 && fields[1].name.len() == 4 && fields[2].name.len() == 3);
}

impl DeepView for Person {
    type V = PersonView;

    open spec fn deep_view(&self) -> PersonView {
        self@
    }
}

impl Person {
    /// The structured form: one field for each of `id`, `name` and `age`,
    /// in that order.
    pub fn structured(&self) -> (record: Record)
        ensures
            record@ == structured_form(self@),
            names_distinct(record@),
    {
        proof {
            lemma_structured_form_names(self@);
        }
        let mut fields: Vec<Field> = Vec::new();
        fields.push(Field { name: "id".to_owned(), value: Scalar::Int(self.id) });
        fields.push(Field { name: "name".to_owned(), value: Scalar::Text(self.name.clone()) });
        fields.push(Field { name: "age".to_owned(), value: Scalar::Int(self.age) });
        let record = Record { fields };
        assert(record@ =~= structured_form(self@));
        record
    }

    /// The plain line `id: <id>, name: <name>, age: <age>`, the numbers
    /// written in decimal.
    pub fn fallback(&self) -> (text: String)
        ensures
            text@ == fallback_text(self@),
    {
        let mut text = "id: ".to_owned();
        text.append(format_i32(self.id).as_str());
        text.append(", name: ");
        text.append(self.name.as_str());
        text.append(", age: ");
        text.append(format_i32(self.age).as_str());
        text
    }

    /// Picks the display form once the structured form has been handed to
    /// the JSON writer: the text that came back, or the plain line where
    /// `rendering` is an error.
    pub fn display_from(&self, rendering: Result<String, RenderError>) -> (text: String)
        ensures
            rendering matches Ok(rendered) ==> text@ == rendered@,
            rendering is Err ==> text@ == fallback_text(self@),
    {
        match rendering {
            Ok(rendered) => rendered,
            Err(_) => self.fallback(),
        }
    }

    /// The display form: the structured form as indented JSON text. Where
    /// the JSON writer reports an error, the plain line of
    /// [`Person::fallback`] stands in, so that there is always a text.
    pub fn to_string(&self) -> (text: String)
        ensures
            text@ == display_text(self@),
    {
        let doc = Document::Record(self.structured());
        let rendering = render(&doc);
        self.display_from(rendering)
    }
}

/// The structured forms of the people in `list`, in the same order.
pub open spec fn structured_forms(list: Seq<PersonView>) -> Seq<Seq<FieldView>> {
    list.map_values(|p: PersonView| structured_form(p))
}

/// The document that lists the structured form of each person of `list`, in
/// the order of `list`.
pub fn structured_list(list: &Vec<Person>) -> (doc: Document)
    ensures
        doc@ == DocumentView::List(structured_forms(list.deep_view())),
{
    let mut records: Vec<Record> = Vec::new();
    let n: usize = list.len();
    let mut i: usize = 0;
    while i < n
        invariant
            i <= n,
            n == list.len(),
            records.len() == i,
            forall|j: int| 0 <= j < i ==> (#[trigger] records[j])@ == structured_form(list[j]@),
        decreases n - i,
    {
        records.push(list[i].structured());
        i = i + 1;
    }
    let doc = Document::List(records);
    assert(doc@->List_0 =~= structured_forms(list.deep_view()));
    doc
}

} // verus!
