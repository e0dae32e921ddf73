//! The decoding engine: for each shape a target type can ask for, what the
//! parameter list hands over, or the failure it ends in.

use vstd::prelude::*;
use crate::error::{parse_failure, wrong_number, ErrorModel, ParamsDeserializationError};
use crate::params::{entries_text, strs_text, values_of, Entry, Params};
use crate::text::{
    bool_text, char_text, i128_text, i16_text, i32_text, i64_text, i8_text, parse_bool, parse_char,
    parse_i128, parse_i16, parse_i32, parse_i64, parse_i8, parse_u128, parse_u16, parse_u32,
    parse_u64, parse_u8, u128_text, u16_text, u32_text, u64_text, u8_text,
};

verus! {

/// The engine over one parameter list. It holds the list and nothing else.
pub struct ParamsDeserializer<'de>(Params<'de>);

/// The sole value of `entries`, owed exactly when there is one entry.
pub open spec fn single_value_of(entries: Seq<Entry>) -> Result<Seq<char>, ErrorModel> {
    if entries.len() == 1 {
        Ok(entries[0].1)
    } else {
        Err(wrong_number(entries.len(), 1))
    }
}

/// What a request for one primitive ends in: `read` is the reading of a text
/// as that primitive, `expected_type` the primitive's name.
pub open spec fn scalar_of<T>(
    entries: Seq<Entry>,
    read: spec_fn(Seq<char>) -> Option<T>,
    expected_type: Seq<char>,
) -> Result<T, ErrorModel> {
    match single_value_of(entries) {
        Ok(value) => match read(value) {
            Some(v) => Ok(v),
            None => Err(parse_failure(value, expected_type)),
        },
        Err(e) => Err(e),
    }
}

/// What a request for exactly `len` values ends in.
pub open spec fn tuple_of(entries: Seq<Entry>, len: nat) -> Result<Seq<Seq<char>>, ErrorModel> {
    if entries.len() == len {
        Ok(values_of(entries))
    } else {
        Err(wrong_number(entries.len(), len))
    }
}

/// A result with its failure taken by its view.
pub open spec fn outcome<T>(r: Result<T, ParamsDeserializationError>) -> Result<T, ErrorModel> {
    match r {
        Ok(v) => Ok(v),
        Err(e) => Err(e@),
    }
}

/// A text result with both sides taken by their views.
pub open spec fn text_outcome(r: Result<String, ParamsDeserializationError>) -> Result<
    Seq<char>,
    ErrorModel,
> {
    match r {
        Ok(text) => Ok(text@),
        Err(e) => Err(e@),
    }
}

/// A result of values with both sides taken by their views.
pub open spec fn values_outcome(r: Result<Vec<&str>, ParamsDeserializationError>) -> Result<
    Seq<Seq<char>>,
    ErrorModel,
> {
    match r {
        Ok(values) => Ok(strs_text(values@)),
        Err(e) => Err(e@),
    }
}

/// A result of entries with both sides taken by their views.
pub open spec fn entries_outcome(
    r: Result<Vec<(&str, &str)>, ParamsDeserializationError>,
) -> Result<Seq<Entry>, ErrorModel> {
    match r {
        Ok(entries) => Ok(entries_text(entries@)),
        Err(e) => Err(e@),
    }
}

impl<'de> View for ParamsDeserializer<'de> {
    type V = Seq<Entry>;

    closed spec fn view(&self) -> Seq<Entry> {
        self.0@
    }
}

impl<'de> ParamsDeserializer<'de> {
    /// An engine over `params`.
    pub fn new(params: Params<'de>) -> (d: Self)
        ensures
            d@ == params@,
    {
        ParamsDeserializer(params)
    }

    /// The sole value of the list; a list of any other length is an arity
    /// failure that expects one entry.
    pub fn single_value(&self) -> (r: Result<&'de str, ParamsDeserializationError>)
        ensures
            match r {
                Ok(value) => single_value_of(self@) == Ok::<Seq<char>, ErrorModel>(value@),
                Err(e) => single_value_of(self@) == Err::<Seq<char>, ErrorModel>(e@),
            },
    {
        if self.0.len() != 1 {
            return Err(ParamsDeserializationError::wrong_number_of_parameters(self.0.len(), 1));
        }
        Ok(self.0.value_at(0))
    }

    /// A truth value: the sole value of the list, read as `bool`.
    pub fn deserialize_bool(&self) -> (r: Result<bool, ParamsDeserializationError>)
        ensures
            outcome(r) == scalar_of(self@, |t: Seq<char>| bool_text(t), "bool"@),
    {
        let value = self.single_value()?;
        match parse_bool(value) {
            Some(v) => Ok(v),
            None => Err(ParamsDeserializationError::parse_error(value, "bool")),
        }
    }

    /// An integer: the sole value of the list, read as `i8`.
    pub fn deserialize_i8(&self) -> (r: Result<i8, ParamsDeserializationError>)
        ensures
            outcome(r) == scalar_of(self@, |t: Seq<char>| i8_text(t), "i8"@),
    {
        let value = self.single_value()?;
        match parse_i8(value) {
            Some(v) => Ok(v),
            None => Err(ParamsDeserializationError::parse_error(value, "i8")),
        }
    }

    /// An integer: the sole value of the list, read as `i16`.
    pub fn deserialize_i16(&self) -> (r: Result<i16, ParamsDeserializationError>)
        ensures
            outcome(r) == scalar_of(self@, |t: Seq<char>| i16_text(t), "i16"@),
    {
        let value = self.single_value()?;
        match parse_i16(value) {
            Some(v) => Ok(v),
            None => Err(ParamsDeserializationError::parse_error(value, "i16")),
        }
    }

    /// An integer: the sole value of the list, read as `i32`.
    pub fn deserialize_i32(&self) -> (r: Result<i32, ParamsDeserializationError>)
        ensures
            outcome(r) == scalar_of(self@, |t: Seq<char>| i32_text(t), "i32"@),
    {
        let value = self.single_value()?;
        match parse_i32(value) {
            Some(v) => Ok(v),
            None => Err(ParamsDeserializationError::parse_error(value, "i32")),
        }
    }

    /// An integer: the sole value of the list, read as `i64`.
    pub fn deserialize_i64(&self) -> (r: Result<i64, ParamsDeserializationError>)
        ensures
            outcome(r) == scalar_of(self@, |t: Seq<char>| i64_text(t), "i64"@),
    {
        let value = self.single_value()?;
        match parse_i64(value) {
            Some(v) => Ok(v),
            None => Err(ParamsDeserializationError::parse_error(value, "i64")),
        }
    }

    /// An integer: the sole value of the list, read as `i128`.
    pub fn deserialize_i128(&self) -> (r: Result<i128, ParamsDeserializationError>)
        ensures
            outcome(r) == scalar_of(self@, |t: Seq<char>| i128_text(t), "i128"@),
    {
        let value = self.single_value()?;
        match parse_i128(value) {
            Some(v) => Ok(v),
            None => Err(ParamsDeserializationError::parse_error(value, "i128")),
        }
    }

    /// An integer: the sole value of the list, read as `u8`.
    pub fn deserialize_u8(&self) -> (r: Result<u8, ParamsDeserializationError>)
        ensures
            outcome(r) == scalar_of(self@, |t: Seq<char>| u8_text(t), "u8"@),
    {
        let value = self.single_value()?;
        match parse_u8(value) {
            Some(v) => Ok(v),
            None => Err(ParamsDeserializationError::parse_error(value, "u8")),
        }
    }

    /// An integer: the sole value of the list, read as `u16`.
    pub fn deserialize_u16(&self) -> (r: Result<u16, ParamsDeserializationError>)
        ensures
            outcome(r) == scalar_of(self@, |t: Seq<char>| u16_text(t), "u16"@),
    {
        let value = self.single_value()?;
        match parse_u16(value) {
            Some(v) => Ok(v),
            None => Err(ParamsDeserializationError::parse_error(value, "u16")),
        }
    }

    /// An integer: the sole value of the list, read as `u32`.
    pub fn deserialize_u32(&self) -> (r: Result<u32, ParamsDeserializationError>)
        ensures
            outcome(r) == scalar_of(self@, |t: Seq<char>| u32_text(t), "u32"@),
    {
        let value = self.single_value()?;
        match parse_u32(value) {
            Some(v) => Ok(v),
            None => Err(ParamsDeserializationError::parse_error(value, "u32")),
        }
    }

    /// An integer: the sole value of the list, read as `u64`.
    pub fn deserialize_u64(&self) -> (r: Result<u64, ParamsDeserializationError>)
        ensures
            outcome(r) == scalar_of(self@, |t: Seq<char>| u64_text(t), "u64"@),
    {
        let value = self.single_value()?;
        match parse_u64(value) {
            Some(v) => Ok(v),
            None => Err(ParamsDeserializationError::parse_error(value, "u64")),
        }
    }

    /// An integer: the sole value of the list, read as `u128`.
    pub fn deserialize_u128(&self) -> (r: Result<u128, ParamsDeserializationError>)
        ensures
            outcome(r) == scalar_of(self@, |t: Seq<char>| u128_text(t), "u128"@),
    {
        let value = self.single_value()?;
        match parse_u128(value) {
            Some(v) => Ok(v),
            None => Err(ParamsDeserializationError::parse_error(value, "u128")),
        }
    }

    /// A character: the sole value of the list, which must be one character long.
    pub fn deserialize_char(&self) -> (r: Result<char, ParamsDeserializationError>)
        ensures
            outcome(r) == scalar_of(self@, |t: Seq<char>| char_text(t), "char"@),
    {
        let value = self.single_value()?;
        match parse_char(value) {
            Some(v) => Ok(v),
            None => Err(ParamsDeserializationError::parse_error(value, "char")),
        }
    }

    /// A text: the sole value of the list, as it stands. Every text reads as
    /// a text, so only the arity can fail.
    pub fn deserialize_string(&self) -> (r: Result<String, ParamsDeserializationError>)
        ensures
            text_outcome(r) == single_value_of(self@),
    {
        let value = self.single_value()?;
        Ok(value.to_owned())
    }

    /// An owned byte buffer is served as a text: the sole value of the list,
    /// as it stands, with no binary decoding.
    pub fn deserialize_byte_buf(&self) -> (r: Result<String, ParamsDeserializationError>)
        ensures
            text_outcome(r) == single_value_of(self@),
    {
        self.deserialize_string()
    }

    /// The unit value: owed whatever the list holds.
    pub fn deserialize_unit(&self) -> (r: Result<(), ParamsDeserializationError>)
        ensures
            r is Ok,
    {
        Ok(())
    }

    /// A unit marker type called `name`: owed whatever the list holds.
    pub fn deserialize_unit_struct(&self, name: &'static str) -> (r: Result<
        (),
        ParamsDeserializationError,
    >)
        ensures
            r is Ok,
    {
        Ok(())
    }

    /// A transparent wrapper called `name` around one inner type: the inner
    /// type is decoded by this same engine over the same list.
    pub fn deserialize_newtype_struct(&self, name: &'static str) -> (inner: &Self)
        ensures
            inner == self,
    {
        self
    }

    /// A sequence of any length: every value, in list order, keys dropped.
    pub fn deserialize_seq(&self) -> (r: Result<Vec<&'de str>, ParamsDeserializationError>)
        ensures
            values_outcome(r) == Ok::<Seq<Seq<char>>, ErrorModel>(values_of(self@)),
    {
        Ok(self.0.values())
    }

    /// A tuple of `len` fields: every value, in list order, where the list
    /// holds exactly `len` entries.
    pub fn deserialize_tuple(&self, len: usize) -> (r: Result<
        Vec<&'de str>,
        ParamsDeserializationError,
    >)
        ensures
            values_outcome(r) == tuple_of(self@, len as nat),
    {
        if self.0.len() != len {
            return Err(ParamsDeserializationError::wrong_number_of_parameters(self.0.len(), len));
        }
        Ok(self.0.values())
    }

    /// A named tuple called `name` of `len` fields: as a tuple of `len` fields.
    pub fn deserialize_tuple_struct(&self, name: &'static str, len: usize) -> (r: Result<
        Vec<&'de str>,
        ParamsDeserializationError,
    >)
        ensures
            values_outcome(r) == tuple_of(self@, len as nat),
    {
        if self.0.len() != len {
            return Err(ParamsDeserializationError::wrong_number_of_parameters(self.0.len(), len));
        }
        Ok(self.0.values())
    }

    /// A map: every entry, key and value, in list order.
    pub fn deserialize_map(&self) -> (r: Result<
        Vec<(&'de str, &'de str)>,
        ParamsDeserializationError,
    >)
        ensures
            entries_outcome(r) == Ok::<Seq<Entry>, ErrorModel>(self@),
    {
        Ok(self.0.iter_entries())
    }

    /// A struct called `name` with the named `fields`: served as a map.
    /// Matching keys to fields is left to the receiving side.
    pub fn deserialize_struct(&self, name: &'static str, fields: &'static [&'static str]) -> (r:
        Result<Vec<(&'de str, &'de str)>, ParamsDeserializationError>)
        ensures
            entries_outcome(r) == Ok::<Seq<Entry>, ErrorModel>(self@),
    {
        self.deserialize_map()
    }

    /// An enum called `name` with the named `variants`, decoding to the type
    /// called `target`: always rejected, since a flat list cannot say which
    /// variant is meant.
    pub fn deserialize_enum<T>(
        &self,
        name: &'static str,
        variants: &'static [&'static str],
        target: &'static str,
    ) -> (r: Result<T, ParamsDeserializationError>)
        ensures
            outcome(r) == Err::<T, ErrorModel>(ErrorModel::UnsupportedType(target@)),
    {
        Err(ParamsDeserializationError::unsupported_type(target))
    }

    /// Borrowed bytes, decoding to the type called `target`: always rejected.
    pub fn deserialize_bytes<T>(&self, target: &'static str) -> (r: Result<
        T,
        ParamsDeserializationError,
    >)
        ensures
            outcome(r) == Err::<T, ErrorModel>(ErrorModel::UnsupportedType(target@)),
    {
        Err(ParamsDeserializationError::unsupported_type(target))
    }

    /// An optional value, decoding to the type called `target`: always rejected.
    pub fn deserialize_option<T>(&self, target: &'static str) -> (r: Result<
        T,
        ParamsDeserializationError,
    >)
        ensures
            outcome(r) == Err::<T, ErrorModel>(ErrorModel::UnsupportedType(target@)),
    {
        Err(ParamsDeserializationError::unsupported_type(target))
    }

    /// An identifier, decoding to the type called `target`: always rejected.
    pub fn deserialize_identifier<T>(&self, target: &'static str) -> (r: Result<
        T,
        ParamsDeserializationError,
    >)
        ensures
            outcome(r) == Err::<T, ErrorModel>(ErrorModel::UnsupportedType(target@)),
    {
        Err(ParamsDeserializationError::unsupported_type(target))
    }

    /// A value to be skipped, decoding to the type called `target`: always rejected.
    pub fn deserialize_ignored_any<T>(&self, target: &'static str) -> (r: Result<
        T,
        ParamsDeserializationError,
    >)
        ensures
            outcome(r) == Err::<T, ErrorModel>(ErrorModel::UnsupportedType(target@)),
    {
        Err(ParamsDeserializationError::unsupported_type(target))
    }

    /// A borrowed text, decoding to the type called `target`: always rejected.
    pub fn deserialize_str<T>(&self, target: &'static str) -> (r: Result<
        T,
        ParamsDeserializationError,
    >)
        ensures
            outcome(r) == Err::<T, ErrorModel>(ErrorModel::UnsupportedType(target@)),
    {
        Err(ParamsDeserializationError::unsupported_type(target))
    }

    /// A value that describes its own shape, decoding to the type called `target`: always rejected.
    pub fn deserialize_any<T>(&self, target: &'static str) -> (r: Result<
        T,
        ParamsDeserializationError,
    >)
        ensures
            outcome(r) == Err::<T, ErrorModel>(ErrorModel::UnsupportedType(target@)),
    {
        Err(ParamsDeserializationError::unsupported_type(target))
    }
}

} // verus!
