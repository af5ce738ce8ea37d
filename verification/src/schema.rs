//! Decoding documents into typed records, and encoding them back.
//!
//! Every record type implements [`Schema`]: a total function from documents
//! to either a value or a [`DecodeError`] that names the place of the first
//! fault. A field is required unless its record reads it with [`read_optional`];
//! names that differ between a record and the wire are listed once, in
//! [`wire_name`].

use crate::json::{Json, JsonView};
use crate::text::{append_decimal, decimal, same_text};
use vstd::prelude::*;
use vstd::string::StringExecFns;

verus! {

/// The name that a record's attribute has in a document. Attributes that are
/// not listed keep their name.
pub open spec fn wire_name(attribute: Seq<char>) -> Seq<char> {
    if attribute == "kind"@ {
        "type"@
    } else if attribute == "reference"@ {
        "self"@
    } else if attribute == "index"@ {
        "_index"@
    } else if attribute == "score"@ {
        "_score"@
    } else {
        attribute
    }
}

/// Computes [`wire_name`].
pub fn wire<'a>(attribute: &'a str) -> (name: &'a str)
    ensures
        name@ == wire_name(attribute@),
{
    if same_text(attribute, "kind") {
        "type"
    } else if same_text(attribute, "reference") {
        "self"
    } else if same_text(attribute, "index") {
        "_index"
    } else if same_text(attribute, "score") {
        "_score"
    } else {
        attribute
    }
}

/// What is wrong with a document at the place an error names.
#[derive(Clone, Copy, Debug, PartialEq, Eq, Structural)]
pub enum Fault {
    /// A required member is not there.
    Missing,
    /// The value has another JSON type than the record asks for.
    Mismatch,
    /// An integer does not fit the width of its field.
    OutOfRange,
    /// A text that should be a date and time is none.
    Timestamp,
}

/// One step on the way from the root of a document to a value in it.
#[derive(Debug, PartialEq, Eq)]
pub enum Step {
    /// Into the member of this name.
    Member(String),
    /// Into the array item at this index.
    Item(usize),
}

/// The model of a [`Step`].
pub enum StepView {
    Member(Seq<char>),
    Item(int),
}

impl DeepView for Step {
    type V = StepView;

    open spec fn deep_view(&self) -> StepView {
        match self {
            Step::Member(name) => StepView::Member(name@),
            Step::Item(index) => StepView::Item(*index as int),
        }
    }
}

/// Why a document did not decode: the path to the offending value, from the
/// root, and what is wrong there.
#[derive(Debug, PartialEq, Eq)]
pub struct DecodeError {
    pub path: Vec<Step>,
    pub fault: Fault,
}

/// The model of a [`DecodeError`].
pub struct DecodeErrorView {
    pub path: Seq<StepView>,
    pub fault: Fault,
}

impl DeepView for DecodeError {
    type V = DecodeErrorView;

    open spec fn deep_view(&self) -> DecodeErrorView {
        DecodeErrorView { path: self.path.deep_view(), fault: self.fault }
    }
}

impl DecodeErrorView {
    /// A fault of the value at hand.
    pub open spec fn here(fault: Fault) -> DecodeErrorView {
        DecodeErrorView { path: Seq::empty(), fault }
    }

    /// This error, seen from one step further out.
    pub open spec fn under(self, step: StepView) -> DecodeErrorView {
        DecodeErrorView { path: seq![step] + self.path, fault: self.fault }
    }

    /// The message for this error: the path, then the fault.
    pub open spec fn described(self) -> Seq<char> {
        path_text(self.path) + " "@ + fault_text(self.fault)
    }
}

/// How a fault reads in a message.
pub open spec fn fault_text(fault: Fault) -> Seq<char> {
    match fault {
        Fault::Missing => "is missing"@,
        Fault::Mismatch => "has the wrong type"@,
        Fault::OutOfRange => "is out of range"@,
        Fault::Timestamp => "is no date and time"@,
    }
}

/// How a step reads in a message: `.name` into a member, `[index]` into an
/// item.
pub open spec fn step_text(step: StepView) -> Seq<char> {
    match step {
        StepView::Member(name) => "."@ + name,
        StepView::Item(index) => "["@ + decimal(index as nat) + "]"@,
    }
}

/// How a path reads in a message: `$` for the root, then its steps.
pub open spec fn path_text(path: Seq<StepView>) -> Seq<char>
    decreases path.len(),
{
    if path.len() == 0 {
        "$"@
    } else {
        path_text(path.drop_last()) + step_text(path.last())
    }
}

impl DecodeError {
    /// The message for this error, such as `$.data[3].attributes.title is
    /// missing`.
    pub fn describe(&self) -> (message: String)
        ensures
            message@ == self.deep_view().described(),
    {
        let mut message = String::from_str("$");
        let ghost path = self.path.deep_view();
        let mut i: usize = 0;
        while i < self.path.len()
            invariant
                i <= self.path.len(),
                path == self.path.deep_view(),
                message@ == path_text(path.take(i as int)),
            decreases self.path.len() - i,
        {
            assert(path.take(i + 1).drop_last() =~= path.take(i as int));
            match &self.path[i] {
                Step::Member(name) => {
                    message.append(".");
                    message.append(name.as_str());
                },
                Step::Item(index) => {
                    message.append("[");
                    append_decimal(&mut message, *index as u64);
                    message.append("]");
                },
            }
            i = i + 1;
        }
        assert(path.take(i as int) =~= path);
        message.append(" ");
        match self.fault {
            Fault::Missing => message.append("is missing"),
            Fault::Mismatch => message.append("has the wrong type"),
            Fault::OutOfRange => message.append("is out of range"),
            Fault::Timestamp => message.append("is no date and time"),
        }
        message
    }

    /// A fault of the value at hand.
    pub fn here(fault: Fault) -> (error: DecodeError)
        ensures
            error.deep_view() == DecodeErrorView::here(fault),
    {
        let error = DecodeError { path: Vec::new(), fault };
        assert(error.path.deep_view() =~= Seq::empty());
        error
    }

    /// This error, seen from one step further out.
    pub fn under(self, step: Step) -> (error: DecodeError)
        ensures
            error.deep_view() == self.deep_view().under(step.deep_view()),
    {
        let mut path = self.path;
        path.insert(0, step);
        assert(path.deep_view() =~= seq![step.deep_view()] + self.path.deep_view());
        DecodeError { path, fault: self.fault }
    }
}

/// The model of what a decoder returned.
pub open spec fn outcome<T: DeepView>(result: Result<T, DecodeError>) -> Result<
    T::V,
    DecodeErrorView,
> {
    match result {
        Ok(value) => Ok(value.deep_view()),
        Err(error) => Err(error.deep_view()),
    }
}

/// A type that documents decode to.
pub trait Schema: DeepView + Sized {
    /// What holds of every value that a document decoded to.
    spec fn valid(value: Self::V) -> bool;

    /// The value that `doc` stands for, or the first fault in it.
    spec fn decoded(doc: JsonView) -> Result<Self::V, DecodeErrorView>;

    /// The document that stands for `value`.
    spec fn encoded(value: Self::V) -> JsonView;

    /// Decodes `doc`.
    fn decode(doc: &Json) -> (result: Result<Self, DecodeError>)
        ensures
            outcome(result) == Self::decoded(doc@),
    ;

    /// Encodes `self`.
    fn encode(&self) -> (doc: Json)
        ensures
            doc@ == Self::encoded(self.deep_view()),
    ;

    /// Decoding yields valid values only.
    proof fn decoded_is_valid(doc: JsonView)
        ensures
            Self::decoded(doc) matches Ok(value) ==> Self::valid(value),
    ;

    /// A valid value is encoded as a document other than `null` that decodes
    /// to the same value.
    proof fn encoded_decodes(value: Self::V)
        requires
            Self::valid(value),
        ensures
            Self::decoded(Self::encoded(value)) == Ok::<Self::V, DecodeErrorView>(value),
            Self::encoded(value) != JsonView::Null,
    ;
}

/// Encoding a decoded value and decoding it again yields the same value.
pub proof fn redecode<T: Schema>(doc: JsonView)
    ensures
        T::decoded(doc) matches Ok(value) ==> T::decoded(T::encoded(value)) == Ok::<
            T::V,
            DecodeErrorView,
        >(value),
{
    if let Ok(value) = T::decoded(doc) {
        T::decoded_is_valid(doc);
        T::encoded_decodes(value);
    }
}

/// What reading the required attribute `attribute` of `doc` yields.
#[verifier::opaque]
pub open spec fn required<T: Schema>(doc: JsonView, attribute: Seq<char>) -> Result<
    T::V,
    DecodeErrorView,
> {
    let name = wire_name(attribute);
    match doc {
        JsonView::Object(members) => if members.contains_key(name) {
            match T::decoded(members[name]) {
                Ok(value) => Ok(value),
                Err(error) => Err(error.under(StepView::Member(name))),
            }
        } else {
            Err(DecodeErrorView::here(Fault::Missing).under(StepView::Member(name)))
        },
        _ => Err(DecodeErrorView::here(Fault::Mismatch)),
    }
}

/// What reading the optional attribute `attribute` of `doc` yields: nothing
/// where the member is absent or `null`.
#[verifier::opaque]
pub open spec fn optional<T: Schema>(doc: JsonView, attribute: Seq<char>) -> Result<
    Option<T::V>,
    DecodeErrorView,
> {
    let name = wire_name(attribute);
    match doc {
        JsonView::Object(members) => if members.contains_key(name) && members[name]
            != JsonView::Null {
            match T::decoded(members[name]) {
                Ok(value) => Ok(Some(value)),
                Err(error) => Err(error.under(StepView::Member(name))),
            }
        } else {
            Ok(None)
        },
        _ => Err(DecodeErrorView::here(Fault::Mismatch)),
    }
}

/// Reads a required attribute.
pub fn read_required<T: Schema>(doc: &Json, attribute: &str) -> (result: Result<T, DecodeError>)
    ensures
        outcome(result) == required::<T>(doc@, attribute@),
{
    proof {
        reveal(required);
    }
    let name = wire(attribute);
    match doc {
        Json::Object(_) => match doc.get(name) {
            Some(value) => match T::decode(value) {
                Ok(value) => Ok(value),
                Err(error) => Err(error.under(Step::Member(name.to_owned()))),
            },
            None => Err(DecodeError::here(Fault::Missing).under(Step::Member(name.to_owned()))),
        },
        _ => Err(DecodeError::here(Fault::Mismatch)),
    }
}

/// Reads an optional attribute.
pub fn read_optional<T: Schema>(doc: &Json, attribute: &str) -> (result: Result<
    Option<T>,
    DecodeError,
>)
    ensures
        outcome(result) == optional::<T>(doc@, attribute@),
{
    proof {
        reveal(optional);
    }
    let name = wire(attribute);
    match doc {
        Json::Object(_) => match doc.get(name) {
            Some(Json::Null) => Ok(None),
            Some(value) => match T::decode(value) {
                Ok(value) => Ok(Some(value)),
                Err(error) => Err(error.under(Step::Member(name.to_owned()))),
            },
            None => Ok(None),
        },
        _ => Err(DecodeError::here(Fault::Mismatch)),
    }
}

/// The members `members` with attribute `attribute` set to `value`.
pub open spec fn with_required<T: Schema>(
    members: Map<Seq<char>, JsonView>,
    attribute: Seq<char>,
    value: T::V,
) -> Map<Seq<char>, JsonView> {
    members.insert(wire_name(attribute), T::encoded(value))
}

/// The members `members` with attribute `attribute` set to `value`, or left
/// out where there is none.
pub open spec fn with_optional<T: Schema>(
    members: Map<Seq<char>, JsonView>,
    attribute: Seq<char>,
    value: Option<T::V>,
) -> Map<Seq<char>, JsonView> {
    match value {
        Some(value) => with_required::<T>(members, attribute, value),
        None => members,
    }
}

/// A required attribute that was read is valid.
pub proof fn lemma_required_valid<T: Schema>(doc: JsonView, attribute: Seq<char>)
    ensures
        required::<T>(doc, attribute) matches Ok(value) ==> T::valid(value),
{
    reveal(required);
    if let JsonView::Object(members) = doc {
        T::decoded_is_valid(members[wire_name(attribute)]);
    }
}

/// An attribute that was written reads back as the value it was written from.
pub proof fn lemma_reads_required<T: Schema>(
    members: Map<Seq<char>, JsonView>,
    attribute: Seq<char>,
    value: T::V,
)
    requires
        T::valid(value),
        members.contains_key(wire_name(attribute)),
        members[wire_name(attribute)] == T::encoded(value),
    ensures
        required::<T>(JsonView::Object(members), attribute) == Ok::<T::V, DecodeErrorView>(value),
{
    reveal(required);
    T::encoded_decodes(value);
}

/// An optional attribute reads back as the value it was written from, and as
/// nothing where it was left out.
pub proof fn lemma_reads_optional<T: Schema>(
    members: Map<Seq<char>, JsonView>,
    attribute: Seq<char>,
    value: Option<T::V>,
)
    requires
        match value {
            Some(value) => T::valid(value) && members.contains_key(wire_name(attribute))
                && members[wire_name(attribute)] == T::encoded(value),
            None => !members.contains_key(wire_name(attribute)),
        },
    ensures
        optional::<T>(JsonView::Object(members), attribute) == Ok::<Option<T::V>, DecodeErrorView>(
            value,
        ),
{
    reveal(optional);
    if let Some(value) = value {
        T::encoded_decodes(value);
    }
}

/// Writes a required attribute into the object `doc`. A document that is
/// not an object is returned as it is.
pub fn write_required<T: Schema>(doc: Json, attribute: &str, value: &T) -> (out: Json)
    ensures
        out@ == match doc@ {
            JsonView::Object(members) => JsonView::Object(
                with_required::<T>(members, attribute@, value.deep_view()),
            ),
            other => other,
        },
{
    doc.with(wire(attribute), value.encode())
}

/// Writes an optional attribute into the object `doc`, or leaves it out
/// where there is no value. A document that is not an object is returned as
/// it is.
pub fn write_optional<T: Schema>(doc: Json, attribute: &str, value: &Option<T>) -> (out: Json)
    ensures
        out@ == match doc@ {
            JsonView::Object(members) => JsonView::Object(
                with_optional::<T>(members, attribute@, value.deep_view()),
            ),
            other => other,
        },
{
    match value {
        Some(value) => write_required(doc, attribute, value),
        None => doc,
    }
}

} // verus!
