//! The logical type system of tracepoint fields, and what each logical type
//! is called on the C side and on the Rust side.

use crate::text::{decimal_text, signed_decimal_text};
use vstd::prelude::*;
use vstd::string::*;

verus! {

/// Represents a C integer type
#[derive(Copy, Clone, PartialEq, Eq, Debug, Structural)]
#[allow(missing_docs)]
pub enum CIntegerType {
    I8,
    I16,
    I32,
    I64,
    U8,
    U16,
    U32,
    U64,
}

impl CIntegerType {
    /// Width of the integer in bits.
    pub open spec fn bits(self) -> nat {
        match self {
            CIntegerType::I8 | CIntegerType::U8 => 8,
            CIntegerType::I16 | CIntegerType::U16 => 16,
            CIntegerType::I32 | CIntegerType::U32 => 32,
            CIntegerType::I64 | CIntegerType::U64 => 64,
        }
    }

    /// Whether the integer can hold negative values.
    pub open spec fn is_signed(self) -> bool {
        match self {
            CIntegerType::I8 | CIntegerType::I16 | CIntegerType::I32 | CIntegerType::I64 => true,
            CIntegerType::U8 | CIntegerType::U16 | CIntegerType::U32 | CIntegerType::U64 => false,
        }
    }

    /// Name of the `<stdint.h>` type of this width and signedness:
    /// `int`, preceded by `u` when unsigned, then the width and `_t`.
    pub open spec fn c_type_text(self) -> Seq<char> {
        (if self.is_signed() {
            "int"@
        } else {
            "uint"@
        }) + decimal_text(self.bits()) + "_t"@
    }

    /// Name of the C type of a pointer to this integer.
    pub open spec fn c_pointer_type_text(self) -> Seq<char> {
        self.c_type_text() + " *"@
    }

    /// Name of the Rust integer of this width and signedness: `i` or `u`,
    /// then the width.
    pub open spec fn rust_type_text(self) -> Seq<char> {
        (if self.is_signed() {
            "i"@
        } else {
            "u"@
        }) + decimal_text(self.bits())
    }

    /// String version of the C type this represents
    pub fn c_type(&self) -> (r: &'static str)
        ensures
            r@ == self.c_type_text(),
    {
        proof {
            lemma_width_texts();
            reveal_strlit("int");
            reveal_strlit("uint");
            reveal_strlit("_t");
            reveal_strlit("int8_t");
            reveal_strlit("uint8_t");
            reveal_strlit("int16_t");
            reveal_strlit("uint16_t");
            reveal_strlit("int32_t");
            reveal_strlit("uint32_t");
            reveal_strlit("int64_t");
            reveal_strlit("uint64_t");
        }
        let r = match *self {
            CIntegerType::I8 => "int8_t",
            CIntegerType::U8 => "uint8_t",
            CIntegerType::I16 => "int16_t",
            CIntegerType::U16 => "uint16_t",
            CIntegerType::I32 => "int32_t",
            CIntegerType::U32 => "uint32_t",
            CIntegerType::I64 => "int64_t",
            CIntegerType::U64 => "uint64_t",
        };
        assert(r@ =~= self.c_type_text());
        r
    }

    /// String version of the C type this represents as a pointer
    pub fn c_pointer_type(&self) -> (r: &'static str)
        ensures
            r@ == self.c_pointer_type_text(),
    {
        proof {
            lemma_width_texts();
            reveal_strlit("int");
            reveal_strlit("uint");
            reveal_strlit("_t");
            reveal_strlit(" *");
            reveal_strlit("int8_t *");
            reveal_strlit("uint8_t *");
            reveal_strlit("int16_t *");
            reveal_strlit("uint16_t *");
            reveal_strlit("int32_t *");
            reveal_strlit("uint32_t *");
            reveal_strlit("int64_t *");
            reveal_strlit("uint64_t *");
        }
        let r = match *self {
            CIntegerType::I8 => "int8_t *",
            CIntegerType::U8 => "uint8_t *",
            CIntegerType::I16 => "int16_t *",
            CIntegerType::U16 => "uint16_t *",
            CIntegerType::I32 => "int32_t *",
            CIntegerType::U32 => "uint32_t *",
            CIntegerType::I64 => "int64_t *",
            CIntegerType::U64 => "uint64_t *",
        };
        assert(r@ =~= self.c_pointer_type_text());
        r
    }

    /// String version of the Rust type this represents
    pub fn rust_type(&self) -> (r: &'static str)
        ensures
            r@ == self.rust_type_text(),
    {
        proof {
            lemma_width_texts();
            reveal_strlit("i");
            reveal_strlit("u");
            reveal_strlit("i8");
            reveal_strlit("u8");
            reveal_strlit("i16");
            reveal_strlit("u16");
            reveal_strlit("i32");
            reveal_strlit("u32");
            reveal_strlit("i64");
            reveal_strlit("u64");
        }
        let r = match *self {
            CIntegerType::I8 => "i8",
            CIntegerType::U8 => "u8",
            CIntegerType::I16 => "i16",
            CIntegerType::U16 => "u16",
            CIntegerType::I32 => "i32",
            CIntegerType::U32 => "u32",
            CIntegerType::I64 => "i64",
            CIntegerType::U64 => "u64",
        };
        assert(r@ =~= self.rust_type_text());
        r
    }
}

/// Represents a C float type
#[derive(Copy, Clone, PartialEq, Eq, Debug, Structural)]
#[allow(missing_docs)]
pub enum CFloatType {
    Single,
    Double,
}

impl CFloatType {
    /// Width of the float in bits.
    pub open spec fn bits(self) -> nat {
        match self {
            CFloatType::Single => 32,
            CFloatType::Double => 64,
        }
    }

    /// Name of the C floating-point type of this width.
    pub open spec fn c_type_text(self) -> Seq<char> {
        match self {
            CFloatType::Single => "float"@,
            CFloatType::Double => "double"@,
        }
    }

    /// Name of the Rust float of this width: `f`, then the width.
    pub open spec fn rust_type_text(self) -> Seq<char> {
        "f"@ + decimal_text(self.bits())
    }

    /// The C type represented by Self
    pub fn c_type(&self) -> (r: &'static str)
        ensures
            r@ == self.c_type_text(),
    {
        match *self {
            CFloatType::Single => "float",
            CFloatType::Double => "double",
        }
    }

    /// The analogous Rust type
    pub fn rust_type(&self) -> (r: &'static str)
        ensures
            r@ == self.rust_type_text(),
    {
        proof {
            lemma_width_texts();
            reveal_strlit("f");
            reveal_strlit("f32");
            reveal_strlit("f64");
        }
        let r = match *self {
            CFloatType::Single => "f32",
            CFloatType::Double => "f64",
        };
        assert(r@ =~= self.rust_type_text());
        r
    }
}

/// The four widths that occur in type names, written out.
proof fn lemma_width_texts()
    ensures
        decimal_text(8) =~= seq!['8'],
        decimal_text(16) =~= seq!['1', '6'],
        decimal_text(32) =~= seq!['3', '2'],
        decimal_text(64) =~= seq!['6', '4'],
{
    reveal_with_fuel(decimal_text, 2);
}

/// Represents a CTF type
#[derive(Copy, Clone, PartialEq, Eq, Debug, Structural)]
pub enum CTFType {
    /// A standard base-10 integer.
    /// Maps to `ctf_integer`.
    Integer(CIntegerType),
    /// A standard base-10 integer which is available to event filters, but is not persisted to the
    /// event itself.
    /// Maps to `ctf_integer_nowrite`.
    IntegerNoWrite(CIntegerType),
    /// Integer to be printed in hex format.
    /// Maps to `ctf_integer_hex`.
    IntegerHex(CIntegerType),
    /// Integer in network (BE) byte order.
    /// Maps to `ctf_integer_network`.
    IntegerNetwork(CIntegerType),
    /// Integer in network (BE) byte order, to be printed in hex.
    /// Maps to `ctf_integer_network_hex`.
    IntegerNetworkHex(CIntegerType),
    /// IEEE single- or double- precision float.
    /// Maps to `ctf_float`.
    Float(CFloatType),
    /// IEEE single- or double- precision float which is available to event filters,
    /// but is not persisted to the event itself.
    /// Maps to `ctf_float_nowrite`.
    FloatNoWrite(CFloatType),
    /// A null-terminated string.
    /// Unless you're working with already-terminated `OsStrings`, you probably want to use a
    /// [SequenceText](CTFType::SequenceText) or [ArrayText](CTFType::ArrayText) instead.
    /// Maps to `ctf_string`.
    String,
    /// A null-terminated string which is available to event filters, but is not persisted.
    /// Unless you're working with already-terminated `OsStrings`, you probably want to use a
    /// [SequenceTextNoWrite](CTFType::SequenceTextNoWrite) instead.
    /// Maps to `ctf_string_nowrite`.
    StringNoWrite,
    /// A statically sized array of integers
    /// Maps to `ctf_array`.
    Array(CIntegerType, i32),
    /// A statically sized array of characters, displayed as text
    /// Maps to `ctf_array_text`.
    ArrayText(i32),
    /// A statically sized array of integers which is available to event filters, but is not
    /// persisted.
    /// Maps to `ctf_array_nowrite`.
    ArrayNoWrite(CIntegerType, i32),
    /// Dynamically sized array of integers
    /// Maps to `ctf_sequence`.
    Sequence(CIntegerType),
    /// A dynamically sized array of integers which is available to event filters, but is not
    /// persisted.
    /// Maps to `ctf_sequence_nowrite`.
    SequenceNoWrite(CIntegerType),
    /// Dynamically-sized array, displayed as text
    /// Maps to `ctf_sequence_text`.
    SequenceText,
    /// Dynamically-sized array, displayed as text, but is not persisted.
    /// Maps to `ctf_sequence_text_nowrite`.
    SequenceTextNoWrite,
    /// Enumeration value. Declared, but no generator supports it yet.
    /// Maps to `ctf_enum`.
    Enum,
    /// Enumeration value that is available to event filters but is not persisted.
    /// Declared, but no generator supports it yet.
    /// Maps to `ctf_enum_nowrite`.
    EnumNoWrite,
}

impl CTFType {
    /// Whether this is a variable-length sequence, of integers or of text.
    pub open spec fn spec_is_sequence(&self) -> bool {
        match *self {
            CTFType::Sequence(_) | CTFType::SequenceNoWrite(_) | CTFType::SequenceText
            | CTFType::SequenceTextNoWrite => true,
            _ => false,
        }
    }

    /// Whether this is one of the enumeration types, which no generator
    /// supports.
    pub open spec fn spec_is_enum(&self) -> bool {
        match *self {
            CTFType::Enum | CTFType::EnumNoWrite => true,
            _ => false,
        }
    }

    /// Whether a value of this type is handed over as a run of characters
    /// together with its length: a text array or a text sequence.
    pub open spec fn spec_is_counted_text(&self) -> bool {
        match *self {
            CTFType::ArrayText(_) | CTFType::SequenceText | CTFType::SequenceTextNoWrite => true,
            _ => false,
        }
    }

    /// Whether a field of this type is followed by an implicit element count
    /// at the C boundary: every sequence, and every text array.
    pub open spec fn spec_has_length(&self) -> bool {
        self.spec_is_sequence() || self.spec_is_counted_text()
    }

    /// Name of the tracing macro that records a field of this type: each
    /// logical type and recording mode has its own.
    pub open spec fn ctf_macro_text(self) -> Seq<char> {
        match self {
            CTFType::Integer(_) => "ctf_integer"@,
            CTFType::IntegerNoWrite(_) => "ctf_integer_nowrite"@,
            CTFType::IntegerHex(_) => "ctf_integer_hex"@,
            CTFType::IntegerNetwork(_) => "ctf_integer_network"@,
            CTFType::IntegerNetworkHex(_) => "ctf_integer_network_hex"@,
            CTFType::Float(_) => "ctf_float"@,
            CTFType::FloatNoWrite(_) => "ctf_float_nowrite"@,
            CTFType::String => "ctf_string"@,
            CTFType::StringNoWrite => "ctf_string_nowrite"@,
            CTFType::Array(_, _) => "ctf_array"@,
            CTFType::ArrayText(_) => "ctf_array_text"@,
            CTFType::ArrayNoWrite(_, _) => "ctf_array_nowrite"@,
            CTFType::Sequence(_) => "ctf_sequence"@,
            CTFType::SequenceNoWrite(_) => "ctf_sequence_nowrite"@,
            CTFType::SequenceText => "ctf_sequence_text"@,
            CTFType::SequenceTextNoWrite => "ctf_sequence_text_nowrite"@,
            CTFType::Enum => "ctf_enum"@,
            CTFType::EnumNoWrite => "ctf_enum_nowrite"@,
        }
    }

    /// Name of the C type of the parameter that carries a value of this
    /// type. The recording mode does not matter, only what is stored: a
    /// number as itself, text as a pointer to constant characters, integer
    /// arrays and sequences as a pointer to their element type. An
    /// enumeration has no parameter type, so its name is empty.
    pub open spec fn c_param_type_text(self) -> Seq<char> {
        match self {
            CTFType::Integer(i)
            | CTFType::IntegerNoWrite(i)
            | CTFType::IntegerHex(i)
            | CTFType::IntegerNetwork(i)
            | CTFType::IntegerNetworkHex(i) => i.c_type_text(),
            CTFType::Float(f) | CTFType::FloatNoWrite(f) => f.c_type_text(),
            CTFType::String
            | CTFType::StringNoWrite
            | CTFType::ArrayText(_)
            | CTFType::SequenceText
            | CTFType::SequenceTextNoWrite => "const char *"@,
            CTFType::Array(i, _)
            | CTFType::ArrayNoWrite(i, _)
            | CTFType::Sequence(i)
            | CTFType::SequenceNoWrite(i) => i.c_pointer_type_text(),
            CTFType::Enum | CTFType::EnumNoWrite => Seq::empty(),
        }
    }

    /// The Rust type of the argument through which a caller passes a value
    /// of this type: a number as itself, a terminated string as a `CStr`,
    /// text with a count as a `&str`, integer arrays and sequences as
    /// references to arrays and slices. An enumeration has no Rust type, so
    /// its name is empty.
    pub open spec fn host_type_text(self) -> Seq<char> {
        match self {
            CTFType::Integer(i)
            | CTFType::IntegerNoWrite(i)
            | CTFType::IntegerHex(i)
            | CTFType::IntegerNetwork(i)
            | CTFType::IntegerNetworkHex(i) => i.rust_type_text(),
            CTFType::Float(f) | CTFType::FloatNoWrite(f) => f.rust_type_text(),
            CTFType::String | CTFType::StringNoWrite => "::std::ffi::CStr"@,
            CTFType::Array(i, l) | CTFType::ArrayNoWrite(i, l) => "&["@ + i.rust_type_text() + "; "@
                + signed_decimal_text(l as int) + "]"@,
            CTFType::ArrayText(_) | CTFType::SequenceText | CTFType::SequenceTextNoWrite => "&str"@,
            CTFType::Sequence(i) | CTFType::SequenceNoWrite(i) => "&["@ + i.rust_type_text() + "]"@,
            CTFType::Enum | CTFType::EnumNoWrite => Seq::empty(),
        }
    }

    /// Whether this is a variable-length sequence, of integers or of text.
    #[verifier::when_used_as_spec(spec_is_sequence)]
    pub fn is_sequence(&self) -> (b: bool)
        ensures
            b == self.spec_is_sequence(),
    {
        match *self {
            CTFType::Sequence(_) | CTFType::SequenceNoWrite(_) | CTFType::SequenceText
            | CTFType::SequenceTextNoWrite => true,
            _ => false,
        }
    }

    /// Name of the tracing macro that records a field of this type.
    pub fn ctf_macro(&self) -> (r: &'static str)
        ensures
            r@ == self.ctf_macro_text(),
    {
        match *self {
            CTFType::Integer(_) => "ctf_integer",
            CTFType::IntegerNoWrite(_) => "ctf_integer_nowrite",
            CTFType::IntegerHex(_) => "ctf_integer_hex",
            CTFType::IntegerNetwork(_) => "ctf_integer_network",
            CTFType::IntegerNetworkHex(_) => "ctf_integer_network_hex",
            CTFType::Float(_) => "ctf_float",
            CTFType::FloatNoWrite(_) => "ctf_float_nowrite",
            CTFType::String => "ctf_string",
            CTFType::StringNoWrite => "ctf_string_nowrite",
            CTFType::Array(_, _) => "ctf_array",
            CTFType::ArrayText(_) => "ctf_array_text",
            CTFType::ArrayNoWrite(_, _) => "ctf_array_nowrite",
            CTFType::Sequence(_) => "ctf_sequence",
            CTFType::SequenceNoWrite(_) => "ctf_sequence_nowrite",
            CTFType::SequenceText => "ctf_sequence_text",
            CTFType::SequenceTextNoWrite => "ctf_sequence_text_nowrite",
            CTFType::Enum => "ctf_enum",
            CTFType::EnumNoWrite => "ctf_enum_nowrite",
        }
    }

    /// Whether this is one of the enumeration types, which no generator
    /// supports.
    #[verifier::when_used_as_spec(spec_is_enum)]
    pub fn is_enum(&self) -> (b: bool)
        ensures
            b == self.spec_is_enum(),
    {
        match *self {
            CTFType::Enum | CTFType::EnumNoWrite => true,
            _ => false,
        }
    }

    /// Whether a value of this type is handed over as a run of characters
    /// together with its length.
    #[verifier::when_used_as_spec(spec_is_counted_text)]
    pub fn is_counted_text(&self) -> (b: bool)
        ensures
            b == self.spec_is_counted_text(),
    {
        match *self {
            CTFType::ArrayText(_) | CTFType::SequenceText | CTFType::SequenceTextNoWrite => true,
            _ => false,
        }
    }

    /// Whether a field of this type is followed by an implicit element count
    /// at the C boundary.
    #[verifier::when_used_as_spec(spec_has_length)]
    pub fn has_length(&self) -> (b: bool)
        ensures
            b == self.spec_has_length(),
    {
        self.is_sequence() || self.is_counted_text()
    }
}

/// The recording mode of a number changes the macro that records it and
/// nothing else: in every mode the integer `i` is handed over as the same C
/// type and taken by the wrapper as the same Rust type, and so is the float
/// `f`.
pub proof fn lemma_recording_mode_keeps_types(i: CIntegerType, f: CFloatType)
    ensures
        CTFType::IntegerNoWrite(i).c_param_type_text() == CTFType::Integer(i).c_param_type_text(),
        CTFType::IntegerHex(i).c_param_type_text() == CTFType::Integer(i).c_param_type_text(),
        CTFType::IntegerNetwork(i).c_param_type_text() == CTFType::Integer(i).c_param_type_text(),
        CTFType::IntegerNetworkHex(i).c_param_type_text() == CTFType::Integer(
            i,
        ).c_param_type_text(),
        CTFType::FloatNoWrite(f).c_param_type_text() == CTFType::Float(f).c_param_type_text(),
        CTFType::IntegerNoWrite(i).host_type_text() == CTFType::Integer(i).host_type_text(),
        CTFType::IntegerHex(i).host_type_text() == CTFType::Integer(i).host_type_text(),
        CTFType::IntegerNetwork(i).host_type_text() == CTFType::Integer(i).host_type_text(),
        CTFType::IntegerNetworkHex(i).host_type_text() == CTFType::Integer(i).host_type_text(),
        CTFType::FloatNoWrite(f).host_type_text() == CTFType::Float(f).host_type_text(),
        CTFType::Integer(i).ctf_macro_text() != CTFType::IntegerNoWrite(i).ctf_macro_text(),
        CTFType::Float(f).ctf_macro_text() != CTFType::FloatNoWrite(f).ctf_macro_text(),
{
    reveal_strlit("ctf_integer");
    reveal_strlit("ctf_integer_nowrite");
    reveal_strlit("ctf_float");
    reveal_strlit("ctf_float_nowrite");
    assert("ctf_integer"@.len() != "ctf_integer_nowrite"@.len());
    assert("ctf_float"@.len() != "ctf_float_nowrite"@.len());
}

/// Represents the log level for a given tracepoint
#[derive(Copy, Clone, PartialEq, Eq, Debug, Structural)]
pub enum LogLevel {
    /// Corresponds to the `TRACE_EMERG` log level
    Emergency,
    /// Corresponds to the `TRACE_ALERT` log level
    Alert,
    /// Corresponds to the `TRACE_CRIT` log level
    Critical,
    /// Corresponds to the `TRACE_ERR` log level
    Error,
    /// Corresponds to the `TRACE_WARNING` log level
    Warning,
    /// Corresponds to the `TRACE_NOTICE` log level
    Notice,
    /// Corresponds to the `TRACE_INFO` log level
    Info,
    /// Corresponds to the `TRACE_DEBUG_SYSTEM` log level
    DebugSystem,
    /// Corresponds to the `TRACE_DEBUG_PROGRAM` log level
    DebugProgram,
    /// Corresponds to the `TRACE_DEBUG_PROCESS` log level
    DebugProcess,
    /// Corresponds to the `TRACE_DEBUG_MODULE` log level
    DebugModule,
    /// Corresponds to the `TRACE_DEBUG_UNIT` log level
    DebugUnit,
    /// Corresponds to the `TRACE_DEBUG_FUNCTION` log level
    DebugFunction,
    /// Corresponds to the `TRACE_DEBUG_LINE` log level
    DebugLine,
    /// Corresponds to the `TRACE_DEBUG` log level
    Debug,
}

impl LogLevel {
    /// The part of the C constant's name that tells the levels apart.
    pub open spec fn c_suffix_text(self) -> Seq<char> {
        match self {
            LogLevel::Emergency => "EMERG"@,
            LogLevel::Alert => "ALERT"@,
            LogLevel::Critical => "CRIT"@,
            LogLevel::Error => "ERR"@,
            LogLevel::Warning => "WARNING"@,
            LogLevel::Notice => "NOTICE"@,
            LogLevel::Info => "INFO"@,
            LogLevel::DebugSystem => "DEBUG_SYSTEM"@,
            LogLevel::DebugProgram => "DEBUG_PROGRAM"@,
            LogLevel::DebugProcess => "DEBUG_PROCESS"@,
            LogLevel::DebugModule => "DEBUG_MODULE"@,
            LogLevel::DebugUnit => "DEBUG_UNIT"@,
            LogLevel::DebugFunction => "DEBUG_FUNCTION"@,
            LogLevel::DebugLine => "DEBUG_LINE"@,
            LogLevel::Debug => "DEBUG"@,
        }
    }

    /// Name of the C constant of this level: `TRACE_` and the level's suffix.
    pub open spec fn c_name_text(self) -> Seq<char> {
        "TRACE_"@ + self.c_suffix_text()
    }

    /// Name of the C constant of this level.
    pub fn c_name(&self) -> (r: &'static str)
        ensures
            r@ == self.c_name_text(),
    {
        proof {
            reveal_strlit("TRACE_");
            reveal_strlit("EMERG");
            reveal_strlit("ALERT");
            reveal_strlit("CRIT");
            reveal_strlit("ERR");
            reveal_strlit("WARNING");
            reveal_strlit("NOTICE");
            reveal_strlit("INFO");
            reveal_strlit("DEBUG_SYSTEM");
            reveal_strlit("DEBUG_PROGRAM");
            reveal_strlit("DEBUG_PROCESS");
            reveal_strlit("DEBUG_MODULE");
            reveal_strlit("DEBUG_UNIT");
            reveal_strlit("DEBUG_FUNCTION");
            reveal_strlit("DEBUG_LINE");
            reveal_strlit("DEBUG");
            reveal_strlit("TRACE_EMERG");
            reveal_strlit("TRACE_ALERT");
            reveal_strlit("TRACE_CRIT");
            reveal_strlit("TRACE_ERR");
            reveal_strlit("TRACE_WARNING");
            reveal_strlit("TRACE_NOTICE");
            reveal_strlit("TRACE_INFO");
            reveal_strlit("TRACE_DEBUG_SYSTEM");
            reveal_strlit("TRACE_DEBUG_PROGRAM");
            reveal_strlit("TRACE_DEBUG_PROCESS");
            reveal_strlit("TRACE_DEBUG_MODULE");
            reveal_strlit("TRACE_DEBUG_UNIT");
            reveal_strlit("TRACE_DEBUG_FUNCTION");
            reveal_strlit("TRACE_DEBUG_LINE");
            reveal_strlit("TRACE_DEBUG");
        }
        let r = match *self {
            LogLevel::Emergency => "TRACE_EMERG",
            LogLevel::Alert => "TRACE_ALERT",
            LogLevel::Critical => "TRACE_CRIT",
            LogLevel::Error => "TRACE_ERR",
            LogLevel::Warning => "TRACE_WARNING",
            LogLevel::Notice => "TRACE_NOTICE",
            LogLevel::Info => "TRACE_INFO",
            LogLevel::DebugSystem => "TRACE_DEBUG_SYSTEM",
            LogLevel::DebugProgram => "TRACE_DEBUG_PROGRAM",
            LogLevel::DebugProcess => "TRACE_DEBUG_PROCESS",
            LogLevel::DebugModule => "TRACE_DEBUG_MODULE",
            LogLevel::DebugUnit => "TRACE_DEBUG_UNIT",
            LogLevel::DebugFunction => "TRACE_DEBUG_FUNCTION",
            LogLevel::DebugLine => "TRACE_DEBUG_LINE",
            LogLevel::Debug => "TRACE_DEBUG",
        };
        assert(r@ =~= self.c_name_text());
        r
    }
}

} // verus!
