use std::time::Duration;
use vstd::prelude::*;

verus! {

broadcast use vstd::string::group_string_axioms;

/// The kind of value that a port of a graph node accepts or produces.
#[derive(Copy, Clone, PartialEq, Eq, Structural, Debug)]
pub enum DataType {
    Empty,
    AudioSource,
    Float,
    Duration,
    File,
}

/// A value flowing along an edge of the graph: a tag together with its payload.
///
/// A `Float` payload is stored as the IEEE-754 bit pattern of a 32-bit float
/// (`f32::to_bits` / `f32::from_bits`), so the value is carried bit for bit.
#[derive(Clone)]
pub enum ValueType {
    Empty,
    /// An opaque handle into a `SoundQueue`, not the audio itself.
    AudioSource { value: usize },
    Float { value: u32 },
    Duration { value: Duration },
    /// An optional file, as its name and its bytes.
    File { value: Option<(String, Vec<u8>)> },
}

/// Relies on the `Clone` of std::time::Duration, a `Copy` type: the clone is
/// the same value.
pub assume_specification[ <std::time::Duration as Clone>::clone ](
    d: &std::time::Duration,
) -> (r: std::time::Duration)
    ensures
        r == *d,
;

/// The message carried by every failed downcast of a `ValueType`.
pub open spec fn invalid_cast_message() -> Seq<char> {
    "invalid cast"@
}

impl ValueType {
    /// The tag of this value.
    pub open spec fn tag(self) -> DataType {
        match self {
            ValueType::Empty => DataType::Empty,
            ValueType::AudioSource { .. } => DataType::AudioSource,
            ValueType::Float { .. } => DataType::Float,
            ValueType::Duration { .. } => DataType::Duration,
            ValueType::File { .. } => DataType::File,
        }
    }

    /// Tries to downcast this value to an audio-source handle.
    pub fn try_to_source(self) -> (r: Result<usize, String>)
        ensures
            r is Ok <==> self.tag() == DataType::AudioSource,
            match self {
                ValueType::AudioSource { value } => r == Ok::<usize, String>(value),
                _ => r is Err && r->Err_0@ == invalid_cast_message(),
            },
    {
        match self {
            ValueType::AudioSource { value } => Ok(value),
            _ => Err("invalid cast".to_string()),
        }
    }

    /// Tries to downcast this value to a scalar, given as the bit pattern of a 32-bit float.
    pub fn try_to_float(self) -> (r: Result<u32, String>)
        ensures
            r is Ok <==> self.tag() == DataType::Float,
            match self {
                ValueType::Float { value } => r == Ok::<u32, String>(value),
                _ => r is Err && r->Err_0@ == invalid_cast_message(),
            },
    {
        match self {
            ValueType::Float { value } => Ok(value),
            _ => Err("invalid cast".to_string()),
        }
    }

    /// Tries to downcast this value to a duration.
    pub fn try_to_duration(self) -> (r: Result<Duration, String>)
        ensures
            r is Ok <==> self.tag() == DataType::Duration,
            match self {
                ValueType::Duration { value } => r == Ok::<Duration, String>(value),
                _ => r is Err && r->Err_0@ == invalid_cast_message(),
            },
    {
        match self {
            ValueType::Duration { value } => Ok(value),
            _ => Err("invalid cast".to_string()),
        }
    }

    /// Tries to downcast this value to an optional file (name and bytes).
    pub fn try_to_file(self) -> (r: Result<Option<(String, Vec<u8>)>, String>)
        ensures
            r is Ok <==> self.tag() == DataType::File,
            match self {
                ValueType::File { value } => r == Ok::<Option<(String, Vec<u8>)>, String>(value),
                _ => r is Err && r->Err_0@ == invalid_cast_message(),
            },
    {
        match self {
            ValueType::File { value } => Ok(value),
            _ => Err("invalid cast".to_string()),
        }
    }
}

impl ValueType {
    /// The name under which a value is shown in a debug representation. It
    /// never holds a payload's data: a file shows its name, or "None" when
    /// there is no file.
    pub open spec fn debug_name_spec(self) -> Seq<char> {
        match self {
            ValueType::Empty => "None"@,
            ValueType::AudioSource { .. } => "Source"@,
            ValueType::Float { .. } => "Float"@,
            ValueType::Duration { .. } => "Duration"@,
            ValueType::File { value } => match value {
                Some(file) => file.0@,
                None => "None"@,
            },
        }
    }

    /// The name under which this value is shown in a debug representation.
    pub fn debug_name(&self) -> (r: &str)
        ensures
            r@ == self.debug_name_spec(),
    {
        match self {
            ValueType::Empty => "None",
            ValueType::AudioSource { .. } => "Source",
            ValueType::Float { .. } => "Float",
            ValueType::Duration { .. } => "Duration",
            ValueType::File { value } => match value {
                Some(file) => file.0.as_str(),
                None => "None",
            },
        }
    }
}

impl Default for ValueType {
    fn default() -> (r: ValueType)
        ensures
            r == ValueType::Empty,
    {
        ValueType::Empty
    }
}

/// The editable default of an input before it is resolved to a `ValueType`.
///
/// Floats are stored as IEEE-754 bit patterns of 32-bit floats; a `Duration`
/// default is a float count of seconds, narrower than `ValueType::Duration`.
#[derive(Clone, Debug)]
pub enum InputValueConfig {
    AudioSource {},
    Float { value: u32 },
    Duration { value: u32 },
    File {},
}

/// Relies on egui_node_graph2::InputParamKind, a field-less enum that says
/// whether an input takes connections, constants or both; it is carried
/// through unread.
#[verifier::external_type_specification]
#[verifier::external_body]
pub struct ExInputParamKind(egui_node_graph2::InputParamKind);

/// Relies on the derived `Clone` of egui_node_graph2::InputParamKind, a `Copy`
/// type: the clone is the same value.
pub assume_specification[ <egui_node_graph2::InputParamKind as Clone>::clone ](
    k: &egui_node_graph2::InputParamKind,
) -> (r: egui_node_graph2::InputParamKind)
    ensures
        r == *k,
;

/// An input port of a node: its name, its type, where its value may come from,
/// and its editable default.
#[derive(Clone, Debug)]
pub struct InputParameter {
    pub name: String,
    pub data_type: DataType,
    pub kind: egui_node_graph2::InputParamKind,
    pub value: InputValueConfig,
}

/// An output port of a node: its name and its type.
#[derive(Clone, Debug)]
pub struct Output {
    pub name: String,
    pub data_type: DataType,
}

} // verus!
