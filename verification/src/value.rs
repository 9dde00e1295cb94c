//! The generic value tree exchanged with the transport layer, and the
//! error taxonomy of the codec.
//!
//! The transport (the byte-level framing codec, out of scope here) hands
//! over and accepts nested trees of [`Value`] nodes: scalar slots of a
//! fixed primitive width, positional tuples, tag-carrying records, named
//! records and integer-keyed mappings.  Every node kind a KRDS file can
//! contain is represented; the codec never looks at bytes.

use vstd::prelude::*;

verus! {

/// The kind of a [`Value`] node, used to report type mismatches.
#[derive(Clone, Copy, Debug, PartialEq, Eq)]
pub enum ValueKind {
    Str,
    Byte,
    Short,
    Int,
    Long,
    Double,
    Bool,
    Tuple,
    Tagged,
    Named,
    Mapping,
}

/// One node of the value tree handed over by (or to) the transport.
///
/// Scalar variants carry exactly one primitive width each; widths are
/// never coerced, so round trips stay byte-exact.  A `Double` holds the
/// raw IEEE-754 bit pattern of the on-disk double: the codec preserves
/// it verbatim and never interprets it as a number.
#[derive(Debug, PartialEq)]
pub enum Value {
    /// A string slot.
    Str(String),
    /// An 8-bit signed integer slot.
    Byte(i8),
    /// A 16-bit signed integer slot.
    Short(i16),
    /// A 32-bit signed integer slot.
    Int(i32),
    /// A 64-bit signed integer slot.
    Long(i64),
    /// A 64-bit float slot, held as its raw bit pattern.
    Double(u64),
    /// A boolean slot.
    Bool(bool),
    /// A fixed-arity positional record; fields are addressed by order.
    Tuple(Vec<Value>),
    /// A positional record wrapped under a string type tag, as required
    /// for heterogeneous containers and for annotation variant dispatch.
    Tagged(String, Vec<Value>),
    /// A record of named fields; order is as written by the source.
    Named(Vec<(String, Value)>),
    /// A mapping held as a sequence of key/value pairs in source order.
    Mapping(Vec<(Value, Value)>),
}

/// The mathematical shape of a [`Value`] tree: strings become
/// `Seq<char>`, vectors become `Seq`.  Contracts and proofs speak of
/// this type only.
pub enum ValueView {
    Str(Seq<char>),
    Byte(i8),
    Short(i16),
    Int(i32),
    Long(i64),
    Double(u64),
    Bool(bool),
    Tuple(Seq<ValueView>),
    Tagged(Seq<char>, Seq<ValueView>),
    Named(Seq<(Seq<char>, ValueView)>),
    Mapping(Seq<(ValueView, ValueView)>),
}

/// The kind of an abstract value node.
pub open spec fn kind_of(v: ValueView) -> ValueKind {
    match v {
        ValueView::Str(_) => ValueKind::Str,
        ValueView::Byte(_) => ValueKind::Byte,
        ValueView::Short(_) => ValueKind::Short,
        ValueView::Int(_) => ValueKind::Int,
        ValueView::Long(_) => ValueKind::Long,
        ValueView::Double(_) => ValueKind::Double,
        ValueView::Bool(_) => ValueKind::Bool,
        ValueView::Tuple(_) => ValueKind::Tuple,
        ValueView::Tagged(_, _) => ValueKind::Tagged,
        ValueView::Named(_) => ValueKind::Named,
        ValueView::Mapping(_) => ValueKind::Mapping,
    }
}

impl Value {
    /// The abstract shape of this node.
    pub open spec fn view_rec(self) -> ValueView
        decreases self,
    {
        match self {
            Value::Str(s) => ValueView::Str(s@),
            Value::Byte(n) => ValueView::Byte(n),
            Value::Short(n) => ValueView::Short(n),
            Value::Int(n) => ValueView::Int(n),
            Value::Long(n) => ValueView::Long(n),
            Value::Double(bits) => ValueView::Double(bits),
            Value::Bool(b) => ValueView::Bool(b),
            Value::Tuple(items) => ValueView::Tuple(values_view(items@)),
            Value::Tagged(tag, items) => ValueView::Tagged(tag@, values_view(items@)),
            Value::Named(fields) => ValueView::Named(named_view(fields@)),
            Value::Mapping(entries) => ValueView::Mapping(entries_view(entries@)),
        }
    }

    /// The kind of this node, for error reports.
    pub fn kind(&self) -> (k: ValueKind)
        ensures
            k == kind_of(self.deep_view()),
    {
        match self {
            Value::Str(_) => ValueKind::Str,
            Value::Byte(_) => ValueKind::Byte,
            Value::Short(_) => ValueKind::Short,
            Value::Int(_) => ValueKind::Int,
            Value::Long(_) => ValueKind::Long,
            Value::Double(_) => ValueKind::Double,
            Value::Bool(_) => ValueKind::Bool,
            Value::Tuple(_) => ValueKind::Tuple,
            Value::Tagged(_, _) => ValueKind::Tagged,
            Value::Named(_) => ValueKind::Named,
            Value::Mapping(_) => ValueKind::Mapping,
        }
    }
}

/// Elementwise abstraction of a sequence of values.
pub open spec fn values_view(s: Seq<Value>) -> Seq<ValueView>
    decreases s,
{
    if s.len() == 0 {
        Seq::empty()
    } else {
        values_view(s.drop_last()).push(s[s.len() - 1].view_rec())
    }
}

/// Elementwise abstraction of a sequence of named fields.
pub open spec fn named_view(s: Seq<(String, Value)>) -> Seq<(Seq<char>, ValueView)>
    decreases s,
{
    if s.len() == 0 {
        Seq::empty()
    } else {
        named_view(s.drop_last()).push((s[s.len() - 1].0@, s[s.len() - 1].1.view_rec()))
    }
}

/// Elementwise abstraction of a sequence of mapping entries.
pub open spec fn entries_view(s: Seq<(Value, Value)>) -> Seq<(ValueView, ValueView)>
    decreases s,
{
    if s.len() == 0 {
        Seq::empty()
    } else {
        entries_view(s.drop_last()).push(
            (s[s.len() - 1].0.view_rec(), s[s.len() - 1].1.view_rec()),
        )
    }
}

/// How [`values_view`] relates to the sequence it abstracts: same
/// length, elementwise abstraction.
pub broadcast proof fn lemma_values_view(s: Seq<Value>)
    ensures
        (#[trigger] values_view(s)).len() == s.len(),
        forall|i: int| 0 <= i < s.len() ==> values_view(s)[i] == s[i].view_rec(),
    decreases s.len(),
{
    if s.len() > 0 {
        lemma_values_view(s.drop_last());
    }
}

/// How [`named_view`] relates to the sequence it abstracts.
pub broadcast proof fn lemma_named_view(s: Seq<(String, Value)>)
    ensures
        (#[trigger] named_view(s)).len() == s.len(),
        forall|i: int|
            0 <= i < s.len() ==> named_view(s)[i] == (s[i].0@, s[i].1.view_rec()),
    decreases s.len(),
{
    if s.len() > 0 {
        lemma_named_view(s.drop_last());
    }
}

/// How [`entries_view`] relates to the sequence it abstracts.
pub broadcast proof fn lemma_entries_view(s: Seq<(Value, Value)>)
    ensures
        (#[trigger] entries_view(s)).len() == s.len(),
        forall|i: int|
            0 <= i < s.len() ==> entries_view(s)[i] == (
                s[i].0.view_rec(),
                s[i].1.view_rec(),
            ),
    decreases s.len(),
{
    if s.len() > 0 {
        lemma_entries_view(s.drop_last());
    }
}

/// Appending a value commutes with abstraction.
pub broadcast proof fn lemma_values_view_push(s: Seq<Value>, x: Value)
    ensures
        #[trigger] values_view(s.push(x)) == values_view(s).push(x.view_rec()),
{
    assert(s.push(x).drop_last() =~= s);
}

/// Appending a named field commutes with abstraction.
pub broadcast proof fn lemma_named_view_push(s: Seq<(String, Value)>, x: (String, Value))
    ensures
        #[trigger] named_view(s.push(x)) == named_view(s).push((x.0@, x.1.view_rec())),
{
    assert(s.push(x).drop_last() =~= s);
}

/// Appending a mapping entry commutes with abstraction.
pub broadcast proof fn lemma_entries_view_push(s: Seq<(Value, Value)>, x: (Value, Value))
    ensures
        #[trigger] entries_view(s.push(x)) == entries_view(s).push(
            (x.0.view_rec(), x.1.view_rec()),
        ),
{
    assert(s.push(x).drop_last() =~= s);
}

impl DeepView for Value {
    type V = ValueView;

    open spec fn deep_view(&self) -> ValueView {
        self.view_rec()
    }
}

/// Why a decode was refused.  A failure is local to the smallest entity
/// that triggered it and aborts the whole enclosing decode: a file either
/// decodes completely or not at all.
#[derive(Clone, Debug, PartialEq)]
pub enum KrdsError {
    /// A positional record held a different number of fields than the
    /// schema fixes for it.  `expected` is the schema's required field
    /// count, `actual` what the source held.
    ArityMismatch { expected: usize, actual: usize },
    /// A slot held a different kind of value than the schema expects.
    TypeMismatch { expected: ValueKind, actual: ValueKind },
    /// A note-type integer outside the closed set accepted by
    /// [`crate::model::NoteType`].
    UnknownEnumValue(i32),
    /// A record tag outside the closed set known to the schema; the
    /// offending tag is carried verbatim.
    UnknownVariantTag(String),
    /// Reserved for a schema field marked required that the source
    /// omits; no current top-level field is required.
    MissingRequiredField,
}

/// The mathematical shape of a [`KrdsError`].
pub enum ErrorView {
    ArityMismatch { expected: usize, actual: usize },
    TypeMismatch { expected: ValueKind, actual: ValueKind },
    UnknownEnumValue(i32),
    UnknownVariantTag(Seq<char>),
    MissingRequiredField,
}

impl DeepView for KrdsError {
    type V = ErrorView;

    open spec fn deep_view(&self) -> ErrorView {
        match self {
            KrdsError::ArityMismatch { expected, actual } => ErrorView::ArityMismatch {
                expected: *expected,
                actual: *actual,
            },
            KrdsError::TypeMismatch { expected, actual } => ErrorView::TypeMismatch {
                expected: *expected,
                actual: *actual,
            },
            KrdsError::UnknownEnumValue(n) => ErrorView::UnknownEnumValue(*n),
            KrdsError::UnknownVariantTag(tag) => ErrorView::UnknownVariantTag(tag@),
            KrdsError::MissingRequiredField => ErrorView::MissingRequiredField,
        }
    }
}

/// Abstraction of a codec result: both the value and the error are
/// taken to their mathematical shapes.
pub open spec fn res_view<T: DeepView, E: DeepView>(r: Result<T, E>) -> Result<T::V, E::V> {
    match r {
        Ok(t) => Ok(t.deep_view()),
        Err(e) => Err(e.deep_view()),
    }
}

/// Shorthand for an abstract type-mismatch error.
pub open spec fn type_err(expected: ValueKind, actual: ValueView) -> ErrorView {
    ErrorView::TypeMismatch { expected, actual: kind_of(actual) }
}

/// Shorthand for an abstract arity error.
pub open spec fn arity_err(expected: usize, actual: nat) -> ErrorView {
    ErrorView::ArityMismatch { expected, actual: actual as usize }
}

} // verus!
