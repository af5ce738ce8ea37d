//! JSON documents as values.
//!
//! A reply body reaches the decoders as a [`Json`] tree. Its mathematical
//! model, [`JsonView`], reads an object as a map from member names to values:
//! the order of members carries no meaning, and of two members with the same
//! name the later one counts.

use crate::text::same_text;
use vstd::prelude::*;

verus! {

/// A JSON number: an integer, or a real kept as the bits of its IEEE 754
/// double.
#[derive(Clone, Copy, Debug, PartialEq, Eq)]
pub enum Number {
    Integer(i128),
    Real(u64),
}

/// The model of a [`Number`].
pub enum NumberView {
    Integer(int),
    Real(u64),
}

impl View for Number {
    type V = NumberView;

    open spec fn view(&self) -> NumberView {
        match self {
            Number::Integer(i) => NumberView::Integer(*i as int),
            Number::Real(bits) => NumberView::Real(*bits),
        }
    }
}

impl DeepView for Number {
    type V = NumberView;

    open spec fn deep_view(&self) -> NumberView {
        self.view()
    }
}

/// A JSON document.
///
/// `==` compares two documents as they are written: objects that hold the
/// same members in another order are different values with the same view.
#[derive(Debug, PartialEq, Eq)]
pub enum Json {
    Null,
    Bool(bool),
    Number(Number),
    Text(String),
    Array(Vec<Json>),
    Object(Vec<Member>),
}

/// One `name: value` member of a JSON object.
#[derive(Debug, PartialEq, Eq)]
pub struct Member {
    pub name: String,
    pub value: Json,
}

/// The model of a [`Json`] document.
pub enum JsonView {
    Null,
    Bool(bool),
    Number(NumberView),
    Text(Seq<char>),
    Array(Seq<JsonView>),
    Object(Map<Seq<char>, JsonView>),
}

/// The models of a sequence of documents, item by item.
pub open spec fn items_view(items: Seq<Json>) -> Seq<JsonView>
    decreases items,
{
    if items.len() == 0 {
        Seq::empty()
    } else {
        items_view(items.drop_last()).push(items.last().view())
    }
}

/// The map that a sequence of members stands for: a later member replaces an
/// earlier one of the same name.
pub open spec fn members_view(members: Seq<Member>) -> Map<Seq<char>, JsonView>
    decreases members,
{
    if members.len() == 0 {
        Map::empty()
    } else {
        members_view(members.drop_last()).insert(
            members.last().name@,
            members.last().value.view(),
        )
    }
}

impl View for Json {
    type V = JsonView;

    open spec fn view(&self) -> JsonView
        decreases self,
    {
        match self {
            Json::Null => JsonView::Null,
            Json::Bool(b) => JsonView::Bool(*b),
            Json::Number(n) => JsonView::Number(n@),
            Json::Text(s) => JsonView::Text(s@),
            Json::Array(items) => JsonView::Array(items_view(items@)),
            Json::Object(members) => JsonView::Object(members_view(members@)),
        }
    }
}

/// `items_view` keeps the length and maps each item to its model.
pub proof fn lemma_items_view(items: Seq<Json>)
    ensures
        items_view(items).len() == items.len(),
        forall|i: int| 0 <= i < items.len() ==> #[trigger] items_view(items)[i] == items[i]@,
    decreases items.len(),
{
    if items.len() > 0 {
        lemma_items_view(items.drop_last());
        assert(items_view(items) == items_view(items.drop_last()).push(items.last()@));
    }
}

/// Looking a name up in `members_view`: the last member of that name decides.
pub proof fn lemma_members_view_last(members: Seq<Member>, name: Seq<char>, at: int)
    requires
        0 <= at < members.len(),
        members[at].name@ == name,
        forall|j: int| at < j < members.len() ==> members[j].name@ != name,
    ensures
        members_view(members).contains_key(name),
        members_view(members)[name] == members[at].value@,
    decreases members.len(),
{
    assert(members_view(members) == members_view(members.drop_last()).insert(
        members.last().name@,
        members.last().value@,
    ));
    if at < members.len() - 1 {
        lemma_members_view_last(members.drop_last(), name, at);
    }
}

/// A name that no member carries is not in `members_view`.
pub proof fn lemma_members_view_absent(members: Seq<Member>, name: Seq<char>)
    requires
        forall|j: int| 0 <= j < members.len() ==> members[j].name@ != name,
    ensures
        !members_view(members).contains_key(name),
    decreases members.len(),
{
    if members.len() > 0 {
        lemma_members_view_absent(members.drop_last(), name);
        assert(members_view(members) == members_view(members.drop_last()).insert(
            members.last().name@,
            members.last().value@,
        ));
    }
}

impl Json {
    /// The value of member `name`, if this document is an object that has one.
    pub fn get(&self, name: &str) -> (found: Option<&Json>)
        ensures
            match found {
                Some(value) => self@ is Object && self@->Object_0.contains_key(name@)
                    && self@->Object_0[name@] == value@,
                None => !(self@ is Object && self@->Object_0.contains_key(name@)),
            },
    {
        match self {
            Json::Object(members) => {
                let mut i: usize = members.len();
                while i > 0
                    invariant
                        i <= members.len(),
                        self@ == JsonView::Object(members_view(members@)),
                        forall|j: int| i <= j < members.len() ==> members@[j].name@ != name@,
                    decreases i,
                {
                    i = i - 1;
                    if same_text(members[i].name.as_str(), name) {
                        proof {
                            lemma_members_view_last(members@, name@, i as int);
                        }
                        return Some(&members[i].value);
                    }
                }
                proof {
                    lemma_members_view_absent(members@, name@);
                }
                None
            },
            _ => None,
        }
    }

    /// An object without members.
    pub fn object() -> (doc: Json)
        ensures
            doc@ == JsonView::Object(Map::empty()),
    {
        Json::Object(Vec::new())
    }

    /// This object with member `name` set to `value`. A document that is not
    /// an object is returned as it is.
    pub fn with(self, name: &str, value: Json) -> (doc: Json)
        ensures
            doc@ == match self@ {
                JsonView::Object(members) => JsonView::Object(members.insert(name@, value@)),
                other => other,
            },
    {
        match self {
            Json::Object(mut members) => {
                let ghost before = members@;
                members.push(Member { name: name.to_owned(), value });
                assert(members@.drop_last() == before);
                Json::Object(members)
            },
            other => other,
        }
    }
}

} // verus!
