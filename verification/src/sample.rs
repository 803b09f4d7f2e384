//! A provider declared inline, with parameters of types that no D script can
//! name: the provider `test`, and the values that its probes carry.

use crate::model::{
    BitWidth, DataType, Probe, ProbeView, Provider, ProviderView, TypeView,
};
use vstd::prelude::*;
use vstd::string::*;

verus! {

/// A compound probe argument. It reaches the tracer as a JSON object with the
/// fields `x` and `buffer`.
#[derive(Clone, Debug, PartialEq, Eq)]
pub struct Arg {
    pub x: u8,
    pub buffer: Vec<i32>,
}

/// A value that has no JSON rendering. A probe that carries it still fires:
/// the tracer sees the serializer's message in place of the value.
#[derive(Clone, Copy, Debug, PartialEq, Eq, Structural)]
pub enum Whoops {
    NoBueno(u8),
}

impl Arg {
    /// An argument with the counter `x` and `len` buffer entries, each `fill`.
    pub fn new(x: u8, fill: i32, len: usize) -> (arg: Arg)
        ensures
            arg.x == x,
            arg.buffer@ == Seq::new(len as nat, |i: int| fill),
    {
        let mut buffer: Vec<i32> = Vec::new();
        let mut i: usize = 0;
        while i < len
            invariant
                i <= len,
                buffer@ == Seq::new(i as nat, |j: int| fill),
            decreases len - i,
        {
            buffer.push(fill);
            i += 1;
            assert(buffer@ =~= Seq::new(i as nat, |j: int| fill));
        }
        Arg { x, buffer }
    }

    /// Moves the counter on by one, from 255 back to 0.
    pub fn advance(&mut self)
        ensures
            final(self).x as int == (old(self).x + 1) % 256,
            final(self).buffer == old(self).buffer,
    {
        self.x = self.x.wrapping_add(1);
    }
}

/// The type of an unsigned byte parameter.
pub open spec fn byte_type() -> TypeView {
    TypeView::Integer { signed: false, width: BitWidth::Bit8 }
}

/// The declaration `start(x: u8)`: a single native parameter.
pub open spec fn start_declaration() -> ProbeView {
    ProbeView { name: "start"@, types: seq![byte_type()] }
}

/// The declaration `stop(_: String, arg: &Arg)`: a string and a compound
/// taken by reference.
pub open spec fn stop_declaration() -> ProbeView {
    ProbeView {
        name: "stop"@,
        types: seq![TypeView::CString, TypeView::Serializable("crate::Arg"@)],
    }
}

/// The declaration `stop_by_value(_: String, _: Arg)`: a string and a
/// compound taken by value.
pub open spec fn stop_by_value_declaration() -> ProbeView {
    ProbeView {
        name: "stop_by_value"@,
        types: seq![TypeView::CString, TypeView::Serializable("crate::Arg"@)],
    }
}

/// The declaration `arg_as_tuple(_: (u8, &[i32]))`: a tuple, serialized as a
/// whole.
pub open spec fn arg_as_tuple_declaration() -> ProbeView {
    ProbeView { name: "arg_as_tuple"@, types: seq![TypeView::Serializable("(u8, &[i32])"@)] }
}

/// The declaration `not_json_serializable(_: Whoops)`: a value that the
/// serializer refuses.
pub open spec fn not_json_serializable_declaration() -> ProbeView {
    ProbeView {
        name: "not_json_serializable"@,
        types: seq![TypeView::Serializable("crate::Whoops"@)],
    }
}

/// The provider `test`: its five probes, in declared order.
pub open spec fn test_declaration() -> ProviderView {
    ProviderView {
        name: "test"@,
        probes: seq![
            start_declaration(),
            stop_declaration(),
            stop_by_value_declaration(),
            arg_as_tuple_declaration(),
            not_json_serializable_declaration(),
        ],
    }
}

/// The probe `start`.
pub fn start() -> (probe: Probe)
    ensures
        probe@ == start_declaration(),
{
    let mut types: Vec<DataType> = Vec::new();
    types.push(DataType::Integer { signed: false, width: BitWidth::Bit8 });
    let probe = Probe { name: String::from_str("start"), types };
    assert(probe@.types =~= start_declaration().types);
    probe
}

/// The probe `stop`.
pub fn stop() -> (probe: Probe)
    ensures
        probe@ == stop_declaration(),
{
    let mut types: Vec<DataType> = Vec::new();
    types.push(DataType::CString);
    types.push(DataType::Serializable(String::from_str("crate::Arg")));
    let probe = Probe { name: String::from_str("stop"), types };
    assert(probe@.types =~= stop_declaration().types);
    probe
}

/// The probe `stop_by_value`.
pub fn stop_by_value() -> (probe: Probe)
    ensures
        probe@ == stop_by_value_declaration(),
{
    let mut types: Vec<DataType> = Vec::new();
    types.push(DataType::CString);
    types.push(DataType::Serializable(String::from_str("crate::Arg")));
    let probe = Probe { name: String::from_str("stop_by_value"), types };
    assert(probe@.types =~= stop_by_value_declaration().types);
    probe
}

/// The probe `arg_as_tuple`.
pub fn arg_as_tuple() -> (probe: Probe)
    ensures
        probe@ == arg_as_tuple_declaration(),
{
    let mut types: Vec<DataType> = Vec::new();
    types.push(DataType::Serializable(String::from_str("(u8, &[i32])")));
    let probe = Probe { name: String::from_str("arg_as_tuple"), types };
    assert(probe@.types =~= arg_as_tuple_declaration().types);
    probe
}

/// The probe `not_json_serializable`.
pub fn not_json_serializable() -> (probe: Probe)
    ensures
        probe@ == not_json_serializable_declaration(),
{
    let mut types: Vec<DataType> = Vec::new();
    types.push(DataType::Serializable(String::from_str("crate::Whoops")));
    let probe = Probe { name: String::from_str("not_json_serializable"), types };
    assert(probe@.types =~= not_json_serializable_declaration().types);
    probe
}

/// The provider `test` with its five probes, each with its parameter types,
/// in declared order.
pub fn test_provider() -> (provider: Provider)
    ensures
        provider@ == test_declaration(),
{
    let mut probes: Vec<Probe> = Vec::new();
    probes.push(start());
    probes.push(stop());
    probes.push(stop_by_value());
    probes.push(arg_as_tuple());
    probes.push(not_json_serializable());
    let provider = Provider { name: String::from_str("test"), probes };
    assert(provider@.probes =~= test_declaration().probes);
    provider
}

} // verus!
