//! Header fields: names, values, and the list of fields of a message.
use crate::compare::same_bytes;
use crate::syntax::{
    accepts_header_value, forms_header_name, header_name_form, header_value_accepted,
};
use vstd::prelude::*;
use vstd::slice::slice_to_vec;

pub mod user_agent;

verus! {

/// The name of a header field, in the form the `http` crate gives it.
#[derive(Debug, PartialEq, Eq)]
pub struct HeaderName {
    text: Vec<u8>,
}

/// The value of a header field.
#[derive(Debug, PartialEq, Eq)]
pub struct HeaderValue {
    bytes: Vec<u8>,
}

impl View for HeaderName {
    type V = Seq<u8>;

    closed spec fn view(&self) -> Seq<u8> {
        self.text@
    }
}

impl View for HeaderValue {
    type V = Seq<u8>;

    closed spec fn view(&self) -> Seq<u8> {
        self.bytes@
    }
}

impl Clone for HeaderName {
    fn clone(&self) -> (copy: Self)
        ensures
            copy@ == self@,
    {
        proof {
            use_type_invariant(self);
        }
        let text = self.text.clone();
        assert(text@ =~= self.text@);
        HeaderName { text }
    }
}

impl Clone for HeaderValue {
    fn clone(&self) -> (copy: Self)
        ensures
            copy@ == self@,
    {
        proof {
            use_type_invariant(self);
        }
        let bytes = self.bytes.clone();
        assert(bytes@ =~= self.bytes@);
        HeaderValue { bytes }
    }
}

/// Whether `text` is the form that the `http` crate gives to some header
/// name.
pub open spec fn is_header_name(text: Seq<u8>) -> bool {
    exists|src: Seq<u8>| header_name_form(src) == Some(text)
}

impl HeaderName {
    #[verifier::type_invariant]
    spec fn formed(&self) -> bool {
        is_header_name(self.text@)
    }

    /// The header name that `src` spells, where the `http` crate takes it
    /// for one. The name is kept in the form that crate gives it.
    pub fn from_bytes(src: &[u8]) -> (out: Option<HeaderName>)
        ensures
            match out {
                Some(name) => header_name_form(src@) == Some(name@),
                None => header_name_form(src@) is None,
            },
    {
        match forms_header_name(src) {
            Some(text) => Some(HeaderName::from_form(text)),
            None => None,
        }
    }

    /// The header name whose form is `text`.
    pub(crate) fn from_form(text: Vec<u8>) -> (name: HeaderName)
        requires
            is_header_name(text@),
        ensures
            name@ == text@,
    {
        HeaderName { text }
    }

    /// The bytes of the name: the form of a name that the `http` crate
    /// accepts.
    pub fn as_bytes(&self) -> (bytes: &[u8])
        ensures
            bytes@ == self@,
            is_header_name(bytes@),
    {
        proof {
            use_type_invariant(self);
        }
        self.text.as_slice()
    }

    /// Whether this is the same name as `other`.
    pub fn same_as(&self, other: &HeaderName) -> (same: bool)
        ensures
            same == (self@ == other@),
    {
        same_bytes(self.text.as_slice(), other.text.as_slice())
    }
}

impl HeaderValue {
    #[verifier::type_invariant]
    spec fn accepted(&self) -> bool {
        header_value_accepted(self.bytes@)
    }

    /// The header value made of the bytes `src`, where the `http` crate
    /// takes them for one.
    pub fn from_bytes(src: &[u8]) -> (out: Option<HeaderValue>)
        ensures
            out is Some <==> header_value_accepted(src@),
            out is Some ==> out->Some_0@ == src@,
    {
        if accepts_header_value(src) {
            Some(HeaderValue::from_accepted(slice_to_vec(src)))
        } else {
            None
        }
    }

    /// The header value made of `bytes`.
    pub(crate) fn from_accepted(bytes: Vec<u8>) -> (value: HeaderValue)
        requires
            header_value_accepted(bytes@),
        ensures
            value@ == bytes@,
    {
        HeaderValue { bytes }
    }

    /// The bytes of the value: bytes that the `http` crate accepts as a
    /// header value.
    pub fn as_bytes(&self) -> (bytes: &[u8])
        ensures
            bytes@ == self@,
            header_value_accepted(bytes@),
    {
        proof {
            use_type_invariant(self);
        }
        self.bytes.as_slice()
    }
}

/// A value that stands for one header: it knows the name of its field, how
/// it is written as values of that field, and how it is read from them.
///
/// Each method is paired with a predicate that says which outcomes it may
/// have. Where an implementation states none, nothing is promised.
pub trait Header: Sized {
    /// Whether `name` may be what `name()` returns.
    open spec fn names(name: Seq<u8>) -> bool {
        true
    }

    /// The name of the field of this header.
    fn name() -> (name: HeaderName)
        ensures
            Self::names(name@),
    ;

    /// Whether `values` may be what `encode` returns for this header.
    open spec fn encodes(&self, values: Seq<Seq<u8>>) -> bool {
        true
    }

    /// The values that this header is written as.
    fn encode(&self) -> (values: Vec<HeaderValue>)
        ensures
            self.encodes(value_octets(values@)),
    ;

    /// Whether `out` may be what `decode` makes of `values`.
    open spec fn decodes(values: Seq<Seq<u8>>, out: Option<Self>) -> bool {
        true
    }

    /// The header that `values` stand for, if they stand for one.
    fn decode(values: &Vec<HeaderValue>) -> (out: Option<Self>)
        ensures
            Self::decodes(value_octets(values@), out),
    ;
}

/// The fields of a message as plain data: each a name and a value, in order.
pub type Fields = Seq<(Seq<u8>, Seq<u8>)>;

/// The test that a field goes by `name`.
pub open spec fn goes_by(name: Seq<u8>) -> spec_fn((Seq<u8>, Seq<u8>)) -> bool {
    |field: (Seq<u8>, Seq<u8>)| field.0 == name
}

/// The test that a field goes by another name than `name`.
pub open spec fn goes_by_another(name: Seq<u8>) -> spec_fn((Seq<u8>, Seq<u8>)) -> bool {
    |field: (Seq<u8>, Seq<u8>)| field.0 != name
}

/// The values of the fields that go by `name`, in order.
pub open spec fn values_of(fields: Fields, name: Seq<u8>) -> Seq<Seq<u8>> {
    fields.filter(goes_by(name)).map_values(|field: (Seq<u8>, Seq<u8>)| field.1)
}

/// The fields that do not go by `name`, in order.
pub open spec fn without(fields: Fields, name: Seq<u8>) -> Fields {
    fields.filter(goes_by_another(name))
}

/// One field of the given name for each of the values, in order.
pub open spec fn fields_of(name: Seq<u8>, values: Seq<Seq<u8>>) -> Fields {
    values.map_values(|value: Seq<u8>| (name, value))
}

/// The fields after `values` have taken the place of whatever went by
/// `name`. Without any value to put there, nothing changes.
pub open spec fn replaced(fields: Fields, name: Seq<u8>, values: Seq<Seq<u8>>) -> Fields {
    if values.len() == 0 {
        fields
    } else {
        without(fields, name) + fields_of(name, values)
    }
}

/// The bytes of each value.
pub open spec fn value_octets(values: Seq<HeaderValue>) -> Seq<Seq<u8>> {
    values.map_values(|value: HeaderValue| value@)
}

/// The name and the value of each field as bytes.
pub open spec fn field_octets(fields: Seq<(HeaderName, HeaderValue)>) -> Fields {
    fields.map_values(|field: (HeaderName, HeaderValue)| (field.0@, field.1@))
}

/// The header fields of a message.
///
/// A name may occur in several fields. The fields of one name keep the order
/// in which they were put there.
#[derive(Debug, PartialEq, Eq)]
pub struct HeaderMap {
    fields: Vec<(HeaderName, HeaderValue)>,
}

impl View for HeaderMap {
    type V = Fields;

    closed spec fn view(&self) -> Fields {
        field_octets(self.fields@)
    }
}

impl HeaderMap {
    /// No fields at all.
    pub fn new() -> (map: HeaderMap)
        ensures
            map@ == Fields::empty(),
    {
        HeaderMap { fields: Vec::new() }
    }

    /// The number of fields.
    pub fn len(&self) -> (len: usize)
        ensures
            len == self@.len(),
    {
        self.fields.len()
    }

    /// The name of the field at `index`.
    pub fn name_at(&self, index: usize) -> (name: &HeaderName)
        requires
            index < self@.len(),
        ensures
            name@ == self@[index as int].0,
    {
        &self.fields[index].0
    }

    /// The value of the field at `index`.
    pub fn value_at(&self, index: usize) -> (value: &HeaderValue)
        requires
            index < self@.len(),
        ensures
            value@ == self@[index as int].1,
    {
        &self.fields[index].1
    }

    /// The values of the fields that go by `name`, in order.
    pub fn get_all(&self, name: &HeaderName) -> (values: Vec<HeaderValue>)
        ensures
            value_octets(values@) == values_of(self@, name@),
    {
        let mut values: Vec<HeaderValue> = Vec::new();
        let mut index: usize = 0;
        proof {
            reveal(Seq::filter);
            assert(self@.take(0) =~= Fields::empty());
            assert(value_octets(values@) =~= values_of(self@.take(0), name@));
        }
        while index < self.fields.len()
            invariant
                index <= self.fields.len(),
                self.fields.len() == self@.len(),
                value_octets(values@) == values_of(self@.take(index as int), name@),
            decreases self.fields.len() - index,
        {
            let ghost before = values@;
            let field = &self.fields[index];
            proof {
                reveal(Seq::filter);
                let next = self@.take(index + 1);
                assert(next.drop_last() =~= self@.take(index as int));
                assert(next.last() == self@[index as int]);
                assert(self@[index as int] == (field.0@, field.1@));
            }
            if field.0.same_as(name) {
                let value = field.1.clone();
                values.push(value);
                proof {
                    assert(value_octets(values@) =~= value_octets(before).push(field.1@));
                    assert(values_of(self@.take(index + 1), name@) =~= values_of(
                        self@.take(index as int),
                        name@,
                    ).push(field.1@));
                }
            }
            index += 1;
        }
        proof {
            assert(self@.take(index as int) =~= self@);
        }
        values
    }

    /// Puts `values` in the place of whatever went by `name`. Without any
    /// value to put there, the fields stay as they are.
    pub fn replace(&mut self, name: HeaderName, values: Vec<HeaderValue>)
        ensures
            final(self)@ == replaced(old(self)@, name@, value_octets(values@)),
    {
        if values.len() == 0 {
            return ;
        }
        let mut kept: Vec<(HeaderName, HeaderValue)> = Vec::new();
        let mut index: usize = 0;
        proof {
            reveal(Seq::filter);
            assert(self@.take(0) =~= Fields::empty());
            assert(field_octets(kept@) =~= without(self@.take(0), name@));
        }
        while index < self.fields.len()
            invariant
                index <= self.fields.len(),
                self.fields.len() == self@.len(),
                field_octets(kept@) == without(self@.take(index as int), name@),
            decreases self.fields.len() - index,
        {
            let ghost before = field_octets(kept@);
            let field = &self.fields[index];
            proof {
                reveal(Seq::filter);
                let next = self@.take(index + 1);
                assert(next.drop_last() =~= self@.take(index as int));
                assert(next.last() == self@[index as int]);
                assert(self@[index as int] == (field.0@, field.1@));
            }
            if !field.0.same_as(&name) {
                let copy = (field.0.clone(), field.1.clone());
                kept.push(copy);
                proof {
                    assert(field_octets(kept@) =~= before.push((field.0@, field.1@)));
                }
            }
            index += 1;
        }
        proof {
            assert(self@.take(index as int) =~= self@);
        }
        let ghost base = field_octets(kept@);
        let ghost added = value_octets(values@);
        let mut index: usize = 0;
        while index < values.len()
            invariant
                index <= values.len(),
                added == value_octets(values@),
                field_octets(kept@) == base + fields_of(name@, added.take(index as int)),
            decreases values.len() - index,
        {
            let ghost before = field_octets(kept@);
            let field = (name.clone(), values[index].clone());
            kept.push(field);
            proof {
                assert(added.take(index + 1) =~= added.take(index as int).push(values@[index as int]@));
                assert(field_octets(kept@) =~= before.push((name@, values@[index as int]@)));
                assert(fields_of(name@, added.take(index + 1)) =~= fields_of(
                    name@,
                    added.take(index as int),
                ).push((name@, values@[index as int]@)));
            }
            index += 1;
        }
        proof {
            assert(added.take(index as int) =~= added);
        }
        self.fields = kept;
    }
}

/// Once values have taken the place of the fields of a name, the fields of
/// that name hold exactly those values.
pub proof fn lemma_replaced_values(fields: Fields, name: Seq<u8>, values: Seq<Seq<u8>>)
    requires
        values.len() > 0,
    ensures
        values_of(replaced(fields, name, values), name) == values,
{
    let kept = without(fields, name);
    let added = fields_of(name, values);
    Seq::filter_distributes_over_add(kept, added, goes_by(name));
    assert(kept.filter(goes_by(name)).len() == 0) by {
        assert forall|index: int| 0 <= index < kept.len() implies !goes_by(name)(
            #[trigger] kept[index],
        ) by {
            fields.lemma_filter_pred(goes_by_another(name), index);
        }
        kept.lemma_all_neg_filter_empty(goes_by(name));
    }
    lemma_filter_keeps_all(added, goes_by(name));
    assert(kept.filter(goes_by(name)) + added.filter(goes_by(name)) =~= added);
    assert(values_of(replaced(fields, name, values), name) =~= values);
}

/// Values that take the place of the fields of one name leave the fields of
/// every other name as they were.
pub proof fn lemma_replaced_others(
    fields: Fields,
    name: Seq<u8>,
    values: Seq<Seq<u8>>,
    other: Seq<u8>,
)
    requires
        other != name,
    ensures
        values_of(replaced(fields, name, values), other) == values_of(fields, other),
{
    if values.len() > 0 {
        let kept = without(fields, name);
        let added = fields_of(name, values);
        Seq::filter_distributes_over_add(kept, added, goes_by(other));
        assert(added.filter(goes_by(other)).len() == 0) by {
            assert forall|index: int| 0 <= index < added.len() implies !goes_by(other)(
                #[trigger] added[index],
            ) by {}
            added.lemma_all_neg_filter_empty(goes_by(other));
        }
        lemma_without_keeps_others(fields, name, other);
        assert(kept.filter(goes_by(other)) + added.filter(goes_by(other)) =~= kept.filter(
            goes_by(other),
        ));
    }
}

/// A filter keeps a sequence whole where every element passes it.
proof fn lemma_filter_keeps_all(fields: Fields, pred: spec_fn((Seq<u8>, Seq<u8>)) -> bool)
    requires
        forall|index: int| 0 <= index < fields.len() ==> pred(#[trigger] fields[index]),
    ensures
        fields.filter(pred) == fields,
    decreases fields.len(),
{
    reveal(Seq::filter);
    if fields.len() > 0 {
        lemma_filter_keeps_all(fields.drop_last(), pred);
        assert(fields.drop_last().push(fields.last()) =~= fields);
    }
}

/// Taking out the fields of one name takes out no field of another.
proof fn lemma_without_keeps_others(fields: Fields, name: Seq<u8>, other: Seq<u8>)
    requires
        other != name,
    ensures
        without(fields, name).filter(goes_by(other)) == fields.filter(goes_by(other)),
    decreases fields.len(),
{
    reveal(Seq::filter);
    if fields.len() > 0 {
        let rest = fields.drop_last();
        let last = fields.last();
        lemma_without_keeps_others(rest, name, other);
        if last.0 != name {
            let kept = without(rest, name).push(last);
            assert(without(fields, name) == kept);
            assert(kept.drop_last() =~= without(rest, name));
            assert(kept.last() == last);
        }
    }
}

} // verus!
