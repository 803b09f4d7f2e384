//! The lexicon of parameter types: for each type its size code, the register
//! that carries it, and its names in D and in generated source.

use crate::model::{BitWidth, DataType, Error, ErrorView, TypeView};
use crate::text::decimal;
use vstd::prelude::*;
use vstd::string::*;

verus! {

/// Number of probe parameters that the AMD64 System V calling convention
/// carries in integer registers.
pub const MAX_PROBE_ARGUMENTS: usize = 6;

/// Bytes that an integer of the given width occupies.
pub open spec fn width_bytes(width: BitWidth) -> nat {
    match width {
        BitWidth::Bit8 => 1,
        BitWidth::Bit16 => 2,
        BitWidth::Bit32 => 4,
        BitWidth::Bit64 => 8,
    }
}

/// Width of the register that carries a parameter: that of the integer itself,
/// and of a pointer for strings and serialized values.
pub open spec fn carried_width(t: TypeView) -> BitWidth {
    match t {
        TypeView::Integer { signed, width } => width,
        _ => BitWidth::Bit64,
    }
}

/// Whether the tracer reads a parameter as a signed number.
pub open spec fn carried_signed(t: TypeView) -> bool {
    match t {
        TypeView::Integer { signed, width } => signed,
        _ => false,
    }
}

/// The size code of a parameter: the number of bytes carried, in decimal,
/// with a minus sign in front for a signed integer.
pub open spec fn size_code(t: TypeView) -> Seq<char> {
    if carried_signed(t) {
        seq!['-'] + decimal(width_bytes(carried_width(t)))
    } else {
        decimal(width_bytes(carried_width(t)))
    }
}

/// The assembly operand that names the register of the parameter at position
/// `index`, in the width given. Positions from six on have no register.
pub open spec fn register_operand(width: BitWidth, index: nat) -> Seq<char> {
    match width {
        BitWidth::Bit8 => if index == 0 {
            "%dil"@
        } else if index == 1 {
            "%sil"@
        } else if index == 2 {
            "%dl"@
        } else if index == 3 {
            "%cl"@
        } else if index == 4 {
            "%r8b"@
        } else if index == 5 {
            "%r9b"@
        } else {
            Seq::empty()
        },
        BitWidth::Bit16 => if index == 0 {
            "%di"@
        } else if index == 1 {
            "%si"@
        } else if index == 2 {
            "%dx"@
        } else if index == 3 {
            "%cx"@
        } else if index == 4 {
            "%r8w"@
        } else if index == 5 {
            "%r9w"@
        } else {
            Seq::empty()
        },
        BitWidth::Bit32 => if index == 0 {
            "%edi"@
        } else if index == 1 {
            "%esi"@
        } else if index == 2 {
            "%edx"@
        } else if index == 3 {
            "%ecx"@
        } else if index == 4 {
            "%r8d"@
        } else if index == 5 {
            "%r9d"@
        } else {
            Seq::empty()
        },
        BitWidth::Bit64 => if index == 0 {
            "%rdi"@
        } else if index == 1 {
            "%rsi"@
        } else if index == 2 {
            "%rdx"@
        } else if index == 3 {
            "%rcx"@
        } else if index == 4 {
            "%r8"@
        } else if index == 5 {
            "%r9"@
        } else {
            Seq::empty()
        },
    }
}

/// The name of the full-width register that carries the parameter at position
/// `index`, as an inline-assembly input names it.
pub open spec fn abi_register(index: nat) -> Seq<char> {
    if index == 0 {
        "rdi"@
    } else if index == 1 {
        "rsi"@
    } else if index == 2 {
        "rdx"@
    } else if index == 3 {
        "rcx"@
    } else if index == 4 {
        "r8"@
    } else if index == 5 {
        "r9"@
    } else {
        Seq::empty()
    }
}

/// The name of a parameter type in a D provider description. A serialized
/// value reaches the tracer as a string, and is declared as one.
pub open spec fn c_type(t: TypeView) -> Seq<char> {
    match t {
        TypeView::Integer { signed, width } => if signed {
            match width {
                BitWidth::Bit8 => "int8_t"@,
                BitWidth::Bit16 => "int16_t"@,
                BitWidth::Bit32 => "int32_t"@,
                BitWidth::Bit64 => "int64_t"@,
            }
        } else {
            match width {
                BitWidth::Bit8 => "uint8_t"@,
                BitWidth::Bit16 => "uint16_t"@,
                BitWidth::Bit32 => "uint32_t"@,
                BitWidth::Bit64 => "uint64_t"@,
            }
        },
        _ => "char*"@,
    }
}

/// The name of a parameter type in generated source: the integer type of the
/// same width and sign, `str` for a string, and the application's own name
/// for a serialized value.
pub open spec fn rust_type(t: TypeView) -> Seq<char> {
    match t {
        TypeView::Integer { signed, width } => if signed {
            match width {
                BitWidth::Bit8 => "i8"@,
                BitWidth::Bit16 => "i16"@,
                BitWidth::Bit32 => "i32"@,
                BitWidth::Bit64 => "i64"@,
            }
        } else {
            match width {
                BitWidth::Bit8 => "u8"@,
                BitWidth::Bit16 => "u16"@,
                BitWidth::Bit32 => "u32"@,
                BitWidth::Bit64 => "u64"@,
            }
        },
        TypeView::CString => "str"@,
        TypeView::Serializable(name) => name,
    }
}

/// Tells whether a parameter list of `count` entries fits the argument registers.
pub fn arity_supported(count: usize) -> (ok: bool)
    ensures
        ok == (count <= MAX_PROBE_ARGUMENTS),
{
    count <= MAX_PROBE_ARGUMENTS
}

/// Whether a probe named `probe` may have `count` parameters: every parameter
/// needs an argument register of its own.
pub open spec fn arity_verdict(probe: Seq<char>, count: nat) -> Result<(), ErrorView> {
    if count <= MAX_PROBE_ARGUMENTS {
        Ok(())
    } else {
        Err(ErrorView::UnsupportedArity { probe, count })
    }
}

/// Refuses a parameter list of `count` entries for the probe `probe` where it
/// has more entries than there are argument registers.
pub fn check_arity(probe: &str, count: usize) -> (r: Result<(), Error>)
    ensures
        match r {
            Ok(_) => arity_verdict(probe@, count as nat) is Ok,
            Err(error) => arity_verdict(probe@, count as nat) == Err::<(), ErrorView>(error@),
        },
{
    if count <= MAX_PROBE_ARGUMENTS {
        Ok(())
    } else {
        Err(Error::UnsupportedArity { probe: String::from_str(probe), count })
    }
}

/// The inline-assembly name of the register for the parameter at `index`, or
/// nothing for a position from six on, which has no register.
pub fn abi_register_name(index: usize) -> (r: Option<&'static str>)
    ensures
        match r {
            Some(name) => index < MAX_PROBE_ARGUMENTS && name@ == abi_register(index as nat),
            None => index >= MAX_PROBE_ARGUMENTS,
        },
{
    if index == 0 {
        Some("rdi")
    } else if index == 1 {
        Some("rsi")
    } else if index == 2 {
        Some("rdx")
    } else if index == 3 {
        Some("rcx")
    } else if index == 4 {
        Some("r8")
    } else if index == 5 {
        Some("r9")
    } else {
        None
    }
}

fn operand_8(index: u8) -> (r: &'static str)
    requires
        index < MAX_PROBE_ARGUMENTS,
    ensures
        r@ == register_operand(BitWidth::Bit8, index as nat),
{
    if index == 0 {
        "%dil"
    } else if index == 1 {
        "%sil"
    } else if index == 2 {
        "%dl"
    } else if index == 3 {
        "%cl"
    } else if index == 4 {
        "%r8b"
    } else {
        "%r9b"
    }
}

fn operand_16(index: u8) -> (r: &'static str)
    requires
        index < MAX_PROBE_ARGUMENTS,
    ensures
        r@ == register_operand(BitWidth::Bit16, index as nat),
{
    if index == 0 {
        "%di"
    } else if index == 1 {
        "%si"
    } else if index == 2 {
        "%dx"
    } else if index == 3 {
        "%cx"
    } else if index == 4 {
        "%r8w"
    } else {
        "%r9w"
    }
}

fn operand_32(index: u8) -> (r: &'static str)
    requires
        index < MAX_PROBE_ARGUMENTS,
    ensures
        r@ == register_operand(BitWidth::Bit32, index as nat),
{
    if index == 0 {
        "%edi"
    } else if index == 1 {
        "%esi"
    } else if index == 2 {
        "%edx"
    } else if index == 3 {
        "%ecx"
    } else if index == 4 {
        "%r8d"
    } else {
        "%r9d"
    }
}

fn operand_64(index: u8) -> (r: &'static str)
    requires
        index < MAX_PROBE_ARGUMENTS,
    ensures
        r@ == register_operand(BitWidth::Bit64, index as nat),
{
    if index == 0 {
        "%rdi"
    } else if index == 1 {
        "%rsi"
    } else if index == 2 {
        "%rdx"
    } else if index == 3 {
        "%rcx"
    } else if index == 4 {
        "%r8"
    } else {
        "%r9"
    }
}

impl DataType {
    /// The size code of this type in an argument format.
    pub fn to_asm_size(&self) -> (r: &'static str)
        ensures
            r@ == size_code(self@),
    {
        proof {
            reveal_strlit("1");
            reveal_strlit("2");
            reveal_strlit("4");
            reveal_strlit("8");
            reveal_strlit("-1");
            reveal_strlit("-2");
            reveal_strlit("-4");
            reveal_strlit("-8");
        }
        let r = match self {
            DataType::Integer { signed: false, width: BitWidth::Bit8 } => "1",
            DataType::Integer { signed: false, width: BitWidth::Bit16 } => "2",
            DataType::Integer { signed: false, width: BitWidth::Bit32 } => "4",
            DataType::Integer { signed: false, width: BitWidth::Bit64 } => "8",
            DataType::Integer { signed: true, width: BitWidth::Bit8 } => "-1",
            DataType::Integer { signed: true, width: BitWidth::Bit16 } => "-2",
            DataType::Integer { signed: true, width: BitWidth::Bit32 } => "-4",
            DataType::Integer { signed: true, width: BitWidth::Bit64 } => "-8",
            DataType::CString => "8",
            DataType::Serializable(_) => "8",
        };
        assert(r@ =~= size_code(self@));
        r
    }

    /// The assembly operand of the register that carries a parameter of this
    /// type at position `reg_index`, or nothing for a position from six on,
    /// which has no register.
    pub fn to_asm_op(&self, reg_index: u8) -> (r: Option<&'static str>)
        ensures
            match r {
                Some(operand) => reg_index < MAX_PROBE_ARGUMENTS && operand@ == register_operand(
                    carried_width(self@),
                    reg_index as nat,
                ),
                None => reg_index >= MAX_PROBE_ARGUMENTS,
            },
    {
        if reg_index >= 6 {
            return None;
        }
        Some(
            match self {
                DataType::Integer { signed: _, width: BitWidth::Bit8 } => operand_8(reg_index),
                DataType::Integer { signed: _, width: BitWidth::Bit16 } => operand_16(reg_index),
                DataType::Integer { signed: _, width: BitWidth::Bit32 } => operand_32(reg_index),
                DataType::Integer { signed: _, width: BitWidth::Bit64 } => operand_64(reg_index),
                DataType::CString => operand_64(reg_index),
                DataType::Serializable(_) => operand_64(reg_index),
            },
        )
    }

    /// The name of this type in a D provider description.
    pub fn to_c_type(&self) -> (r: &'static str)
        ensures
            r@ == c_type(self@),
    {
        match self {
            DataType::Integer { signed: false, width: BitWidth::Bit8 } => "uint8_t",
            DataType::Integer { signed: false, width: BitWidth::Bit16 } => "uint16_t",
            DataType::Integer { signed: false, width: BitWidth::Bit32 } => "uint32_t",
            DataType::Integer { signed: false, width: BitWidth::Bit64 } => "uint64_t",
            DataType::Integer { signed: true, width: BitWidth::Bit8 } => "int8_t",
            DataType::Integer { signed: true, width: BitWidth::Bit16 } => "int16_t",
            DataType::Integer { signed: true, width: BitWidth::Bit32 } => "int32_t",
            DataType::Integer { signed: true, width: BitWidth::Bit64 } => "int64_t",
            DataType::CString => "char*",
            DataType::Serializable(_) => "char*",
        }
    }

    /// The name of this type in generated source.
    pub fn to_rust_type(&self) -> (r: &str)
        ensures
            r@ == rust_type(self@),
    {
        match self {
            DataType::Integer { signed: false, width: BitWidth::Bit8 } => "u8",
            DataType::Integer { signed: false, width: BitWidth::Bit16 } => "u16",
            DataType::Integer { signed: false, width: BitWidth::Bit32 } => "u32",
            DataType::Integer { signed: false, width: BitWidth::Bit64 } => "u64",
            DataType::Integer { signed: true, width: BitWidth::Bit8 } => "i8",
            DataType::Integer { signed: true, width: BitWidth::Bit16 } => "i16",
            DataType::Integer { signed: true, width: BitWidth::Bit32 } => "i32",
            DataType::Integer { signed: true, width: BitWidth::Bit64 } => "i64",
            DataType::CString => "str",
            DataType::Serializable(name) => name.as_str(),
        }
    }
}

} // verus!
