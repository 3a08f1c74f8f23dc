//! A payload off the wire, as far as telling the messages apart needs it:
//! named fields that hold a text, a list, or something else.

use vstd::prelude::*;

verus! {

/// One item of a list in a payload.
#[derive(Clone, Debug, PartialEq, Eq)]
pub enum Element {
    Text(String),
    /// Anything that is not a text.
    Other,
}

/// What a field of a payload holds.
#[derive(Clone, Debug, PartialEq, Eq)]
pub enum Value {
    Text(String),
    List(Vec<Element>),
    /// Anything that is neither a text nor a list.
    Other,
}

/// A named field of a payload.
#[derive(Clone, Debug, PartialEq, Eq)]
pub struct Field {
    pub name: String,
    pub value: Value,
}

/// A payload off the wire: its fields in the order they came. Where two
/// fields share a name the first one counts.
#[derive(Clone, Debug, PartialEq, Eq)]
pub struct Payload {
    pub fields: Vec<Field>,
}

/// An `Element` as mathematical values.
pub ghost enum ElementView {
    Text(Seq<char>),
    Other,
}

/// A `Value` as mathematical values.
pub ghost enum ValueView {
    Text(Seq<char>),
    List(Seq<ElementView>),
    Other,
}

/// A `Field` as mathematical values.
pub ghost struct FieldView {
    pub name: Seq<char>,
    pub value: ValueView,
}

impl View for Element {
    type V = ElementView;

    open spec fn view(&self) -> ElementView {
        match self {
            Element::Text(text) => ElementView::Text(text@),
            Element::Other => ElementView::Other,
        }
    }
}

impl View for Value {
    type V = ValueView;

    open spec fn view(&self) -> ValueView {
        match self {
            Value::Text(text) => ValueView::Text(text@),
            Value::List(items) => ValueView::List(items@.map_values(|item: Element| item@)),
            Value::Other => ValueView::Other,
        }
    }
}

impl View for Field {
    type V = FieldView;

    open spec fn view(&self) -> FieldView {
        FieldView { name: self.name@, value: self.value@ }
    }
}

impl View for Payload {
    type V = Seq<FieldView>;

    open spec fn view(&self) -> Seq<FieldView> {
        self.fields@.map_values(|field: Field| field@)
    }
}

/// What the first field called `name` holds, if there is such a field.
pub open spec fn field_value(fields: Seq<FieldView>, name: Seq<char>) -> Option<ValueView>
    decreases fields.len(),
{
    if fields.len() == 0 {
        None
    } else if fields[0].name == name {
        Some(fields[0].value)
    } else {
        field_value(fields.skip(1), name)
    }
}

/// The texts of a list, in order, if every item of it is a text.
pub open spec fn all_texts(items: Seq<ElementView>) -> Option<Seq<Seq<char>>> {
    if forall|i: int| 0 <= i < items.len() ==> items[i] is Text {
        Some(Seq::new(items.len(), |i: int| items[i]->Text_0))
    } else {
        None
    }
}

/// The text that the first field called `name` holds, if it holds one.
pub open spec fn text_field(fields: Seq<FieldView>, name: Seq<char>) -> Option<Seq<char>> {
    match field_value(fields, name) {
        Some(ValueView::Text(text)) => Some(text),
        _ => None,
    }
}

/// The texts that the first field called `name` holds, if it holds a list
/// of texts.
pub open spec fn text_list_field(fields: Seq<FieldView>, name: Seq<char>) -> Option<
    Seq<Seq<char>>,
> {
    match field_value(fields, name) {
        Some(ValueView::List(items)) => all_texts(items),
        _ => None,
    }
}

/// The texts of `items` in order, or `None` where an item is no text.
fn texts_of(items: &Vec<Element>) -> (texts: Option<Vec<String>>)
    ensures
        texts.deep_view() == all_texts(items@.map_values(|item: Element| item@)),
{
    let ghost views = items@.map_values(|item: Element| item@);
    let mut texts: Vec<String> = Vec::new();
    let mut i: usize = 0;
    while i < items.len()
        invariant
            i <= items.len(),
            texts.len() == i,
            views == items@.map_values(|item: Element| item@),
            forall|j: int| 0 <= j < i ==> views[j] == ElementView::Text(#[trigger] texts@[j]@),
        decreases items.len() - i,
    {
        match &items[i] {
            Element::Text(text) => {
                texts.push(text.clone());
            },
            Element::Other => {
                assert(!(views[i as int] is Text));
                return None;
            },
        }
        i += 1;
    }
    assert forall|j: int| 0 <= j < views.len() implies views[j] is Text by {
        assert(views[j] == ElementView::Text(texts@[j]@));
    }
    assert(texts.deep_view() =~= all_texts(views)->Some_0) by {
        assert forall|j: int| 0 <= j < views.len() implies texts.deep_view()[j] == views[j]->Text_0 by {
            assert(views[j] == ElementView::Text(texts@[j]@));
        }
    }
    Some(texts)
}

impl Payload {
    /// What the first field called `name` holds.
    pub fn get(&self, name: &str) -> (value: Option<&Value>)
        ensures
            match value {
                Some(v) => field_value(self@, name@) == Some(v@),
                None => field_value(self@, name@) is None,
            },
    {
        let key = name.to_owned();
        let mut i: usize = 0;
        assert(self@.skip(0) == self@);
        while i < self.fields.len()
            invariant
                i <= self.fields.len(),
                key@ == name@,
                field_value(self@, name@) == field_value(self@.skip(i as int), name@),
            decreases self.fields.len() - i,
        {
            assert(self@.skip(i as int)[0] == self.fields[i as int]@);
            if self.fields[i].name == key {
                return Some(&self.fields[i].value);
            }
            assert(self@.skip(i as int).skip(1) == self@.skip(i + 1));
            i += 1;
        }
        None
    }

    /// The text that the first field called `name` holds.
    pub fn text(&self, name: &str) -> (text: Option<&String>)
        ensures
            match text {
                Some(t) => text_field(self@, name@) == Some(t@),
                None => text_field(self@, name@) is None,
            },
    {
        match self.get(name) {
            Some(Value::Text(text)) => Some(text),
            _ => None,
        }
    }

    /// The texts that the first field called `name` holds, where it holds a
    /// list of nothing but texts.
    pub fn text_list(&self, name: &str) -> (texts: Option<Vec<String>>)
        ensures
            texts.deep_view() == text_list_field(self@, name@),
    {
        match self.get(name) {
            Some(Value::List(items)) => texts_of(items),
            _ => None,
        }
    }
}

} // verus!
