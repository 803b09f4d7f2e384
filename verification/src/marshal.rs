//! The argument marshaller: the source that binds each probe argument to a
//! slot `arg_i` of register width, and the inline-assembly inputs that tie the
//! slots to the ABI registers.

use crate::lexicon::{
    abi_register, abi_register_name, arity_verdict, check_arity, rust_type, MAX_PROBE_ARGUMENTS,
};
use crate::model::{DataType, Error, ErrorView, TypeView};
use crate::text::{decimal, decimal_string};
use vstd::prelude::*;
use vstd::string::*;

verus! {

/// Opens the binding of a slot.
pub const SLOT_LET: &'static str = "let arg_";

/// Binds an integer: the value itself, widened to register width.
pub const SLOT_INTEGER: &'static str = " = (*<_ as ::std::borrow::Borrow<";

/// Leads from the integer's type to the field of the argument tuple.
pub const SLOT_INTEGER_SOURCE: &'static str = ">>::borrow(&args.";

/// Ends the binding of an integer.
pub const SLOT_INTEGER_END: &'static str = ") as usize);\n";

/// Binds a string: its bytes with a terminating zero.
pub const SLOT_STRING: &'static str =
    " = ::usdt_impl::runtime::c_string(::std::convert::AsRef::<str>::as_ref(&args.";

/// Ends the binding of a string.
pub const SLOT_STRING_END: &'static str = "));\n";

/// Binds a serialized value: its JSON text, or the serializer's message where
/// it fails, with a terminating zero.
pub const SLOT_JSON: &'static str =
    " = ::usdt_impl::runtime::c_string(&::usdt_impl::runtime::json_argument(::serde_json::to_string(&args.";

/// Ends the binding of a serialized value: a failure of the serializer is kept
/// as its message.
pub const SLOT_JSON_END: &'static str = ").map_err(|e| e.to_string())));\n";

/// Wraps the single argument of a one-parameter probe in a tuple.
pub const SINGLE_ARGUMENT: &'static str = "let args = (args,);\n";

/// Opens an inline-assembly input, up to the register's name.
pub const INPUT_OPEN: &'static str = "in(\"";

/// Leads from the register's name to the number of its slot.
pub const INPUT_SLOT: &'static str = "\") (arg_";

/// Ends the input of a slot that holds a value.
pub const INPUT_VALUE_END: &'static str = "),\n";

/// Ends the input of a slot that holds a buffer: the register carries its address.
pub const INPUT_POINTER_END: &'static str = ".as_ptr() as usize),\n";

/// The statement that binds slot `index` from the argument tuple, for a
/// parameter of type `t`.
pub open spec fn slot_binding(t: TypeView, index: nat) -> Seq<char> {
    match t {
        TypeView::Integer { signed, width } => SLOT_LET@ + decimal(index) + SLOT_INTEGER@
            + rust_type(t) + SLOT_INTEGER_SOURCE@ + decimal(index) + SLOT_INTEGER_END@,
        TypeView::CString => SLOT_LET@ + decimal(index) + SLOT_STRING@ + decimal(index)
            + SLOT_STRING_END@,
        TypeView::Serializable(name) => SLOT_LET@ + decimal(index) + SLOT_JSON@ + decimal(index)
            + SLOT_JSON_END@,
    }
}

/// The bindings of all slots, in declared order.
pub open spec fn slot_bindings(types: Seq<TypeView>) -> Seq<char>
    decreases types.len(),
{
    if types.len() == 0 {
        Seq::empty()
    } else {
        slot_bindings(types.drop_last()) + slot_binding(types.last(), (types.len() - 1) as nat)
    }
}

/// The unpack block of a parameter list: the argument tuple, then one slot per
/// parameter.
pub open spec fn unpack_block(types: Seq<TypeView>) -> Seq<char> {
    if types.len() == 1 {
        SINGLE_ARGUMENT@ + slot_bindings(types)
    } else {
        slot_bindings(types)
    }
}

/// The inline-assembly input that pins slot `index` to the register of its position.
pub open spec fn input_operand(t: TypeView, index: nat) -> Seq<char> {
    match t {
        TypeView::Integer { signed, width } => INPUT_OPEN@ + abi_register(index) + INPUT_SLOT@
            + decimal(index) + INPUT_VALUE_END@,
        _ => INPUT_OPEN@ + abi_register(index) + INPUT_SLOT@ + decimal(index)
            + INPUT_POINTER_END@,
    }
}

/// The input-operand specification of a parameter list: one input per slot, in
/// declared order.
pub open spec fn input_operands(types: Seq<TypeView>) -> Seq<char>
    decreases types.len(),
{
    if types.len() == 0 {
        Seq::empty()
    } else {
        input_operands(types.drop_last()) + input_operand(types.last(), (types.len() - 1) as nat)
    }
}

/// Appends the binding of slot `index` to `out`.
fn push_slot_binding(out: &mut String, typ: &DataType, index: usize)
    ensures
        final(out)@ == old(out)@ + slot_binding(typ@, index as nat),
{
    let ghost before = out@;
    let number = decimal_string(index);
    match typ {
        DataType::Integer { signed: _, width: _ } => {
            out.append(SLOT_LET);
            out.append(number.as_str());
            out.append(SLOT_INTEGER);
            out.append(typ.to_rust_type());
            out.append(SLOT_INTEGER_SOURCE);
            out.append(number.as_str());
            out.append(SLOT_INTEGER_END);
        },
        DataType::CString => {
            out.append(SLOT_LET);
            out.append(number.as_str());
            out.append(SLOT_STRING);
            out.append(number.as_str());
            out.append(SLOT_STRING_END);
        },
        DataType::Serializable(_) => {
            out.append(SLOT_LET);
            out.append(number.as_str());
            out.append(SLOT_JSON);
            out.append(number.as_str());
            out.append(SLOT_JSON_END);
        },
    }
    assert(out@ =~= before + slot_binding(typ@, index as nat));
}

/// Appends the input of slot `index` to `out`.
fn push_input_operand(out: &mut String, typ: &DataType, index: usize)
    requires
        index < MAX_PROBE_ARGUMENTS,
    ensures
        final(out)@ == old(out)@ + input_operand(typ@, index as nat),
{
    let ghost before = out@;
    let number = decimal_string(index);
    out.append(INPUT_OPEN);
    match abi_register_name(index) {
        Some(register) => out.append(register),
        None => {},
    }
    out.append(INPUT_SLOT);
    out.append(number.as_str());
    match typ {
        DataType::Integer { signed: _, width: _ } => {
            out.append(INPUT_VALUE_END);
        },
        _ => {
            out.append(INPUT_POINTER_END);
        },
    }
    assert(out@ =~= before + input_operand(typ@, index as nat));
}

/// Builds the two artifacts of the marshaller for the parameter list of the
/// probe `probe`: the unpack block, and the input-operand specification. A
/// list with more parameters than there are argument registers is refused.
pub fn construct_probe_args(probe: &str, types: &[DataType]) -> (r: Result<
    (String, String),
    Error,
>)
    ensures
        match r {
            Ok(made) => {
                &&& arity_verdict(probe@, types@.len()) is Ok
                &&& made.0@ == unpack_block(types.deep_view())
                &&& made.1@ == input_operands(types.deep_view())
            },
            Err(error) => arity_verdict(probe@, types@.len()) == Err::<(), ErrorView>(error@),
        },
{
    match check_arity(probe, types.len()) {
        Ok(_) => {},
        Err(error) => {
            return Err(error);
        },
    }
    let ghost views = types.deep_view();
    let mut unpacked = String::new();
    let mut inputs = String::new();
    if types.len() == 1 {
        unpacked.append(SINGLE_ARGUMENT);
    }
    let ghost lead = unpacked@;
    let mut i: usize = 0;
    assert(views.take(0) =~= Seq::<TypeView>::empty());
    assert(lead + Seq::<char>::empty() =~= lead);
    while i < types.len()
        invariant
            i <= types@.len() <= MAX_PROBE_ARGUMENTS,
            views == types.deep_view(),
            unpacked@ == lead + slot_bindings(views.take(i as int)),
            inputs@ == input_operands(views.take(i as int)),
        decreases types@.len() - i,
    {
        let typ = &types[i];
        push_slot_binding(&mut unpacked, typ, i);
        push_input_operand(&mut inputs, typ, i);
        proof {
            let next = views.take(i + 1);
            assert(next.drop_last() =~= views.take(i as int));
            assert(next.last() == typ@);
            assert(unpacked@ =~= lead + slot_bindings(next));
        }
        i += 1;
    }
    assert(views.take(i as int) =~= views);
    assert(Seq::<char>::empty() + slot_bindings(views) =~= slot_bindings(views));
    Ok((unpacked, inputs))
}

} // verus!
