//! The argument lists that one event class gives rise to.
//!
//! A class has one ordered list of fields. From it come three positional
//! argument lists: the parameters of the C functions (used for the native
//! tracepoint declaration and for the plain C interface alike), the
//! parameters of the Rust wrapper, and the arguments that the wrapper hands
//! to the C function. The generators only write these lists out, so whatever
//! holds of the lists holds of the generated text.

use crate::schema::FieldView;
use crate::text::decimal_text;
use crate::types::CTFType;
use vstd::prelude::*;

verus! {

/// What a C parameter, or an argument handed to one, stands for.
#[derive(PartialEq, Eq, Structural)]
pub enum ParamRole {
    /// The value of a field, or a pointer to its first element.
    Value,
    /// The element count that follows a sequence or a text array.
    Length,
}

/// One parameter of a generated C function.
pub struct CParam {
    /// Position, in the class, of the field that this parameter belongs to.
    pub field: int,
    pub role: ParamRole,
    /// Name of the parameter's C type.
    pub c_type: Seq<char>,
    /// Name of the parameter.
    pub name: Seq<char>,
}

/// One parameter of a generated Rust wrapper.
pub struct HostParam {
    /// Position, in the class, of the field that this parameter belongs to.
    pub field: int,
    /// Name of the parameter.
    pub name: Seq<char>,
    /// The parameter's Rust type.
    pub host_type: Seq<char>,
}

/// One argument that a Rust wrapper hands to the C function.
pub struct CallArg {
    /// Position, in the class, of the field that this argument is made from.
    pub field: int,
    pub role: ParamRole,
    /// The Rust expression that computes the argument.
    pub expr: Seq<char>,
}

/// The C type of every element count: a count is handed over as an `int`,
/// whatever the type of the elements.
pub open spec fn length_c_type() -> Seq<char> {
    "int"@
}

/// Name of the C parameter that carries the value of the field `f`.
pub open spec fn value_param_name(f: FieldView) -> Seq<char> {
    f.name + "_arg"@
}

/// Name of the C parameter that carries the element count of the field `f`.
pub open spec fn length_param_name(f: FieldView) -> Seq<char> {
    f.name + "_len"@
}

/// The C parameter that carries the value of the field at position `index`.
pub open spec fn value_param(index: int, f: FieldView) -> CParam {
    CParam {
        field: index,
        role: ParamRole::Value,
        c_type: f.ctf_type.c_param_type_text(),
        name: value_param_name(f),
    }
}

/// The C parameter that carries the element count of the field at position
/// `index`.
pub open spec fn length_param(index: int, f: FieldView) -> CParam {
    CParam {
        field: index,
        role: ParamRole::Length,
        c_type: length_c_type(),
        name: length_param_name(f),
    }
}

/// The C parameters that the field at position `index` gives rise to: its
/// value, directly followed by its element count where the type has one.
pub open spec fn field_c_params(index: int, f: FieldView) -> Seq<CParam> {
    if f.ctf_type.has_length() {
        seq![value_param(index, f), length_param(index, f)]
    } else {
        seq![value_param(index, f)]
    }
}

/// The C parameters of a class with the given fields: those of each field,
/// in field order.
pub open spec fn c_params(fields: Seq<FieldView>) -> Seq<CParam>
    decreases fields.len(),
{
    if fields.len() == 0 {
        Seq::empty()
    } else {
        c_params(fields.drop_last()) + field_c_params(fields.len() - 1, fields.last())
    }
}

/// Name of the wrapper parameter for the field at position `index`: the
/// letter `a` and the position.
pub open spec fn host_param_name(index: int) -> Seq<char> {
    "a"@ + decimal_text(index as nat)
}

/// The wrapper parameter for the field at position `index`.
pub open spec fn host_param(index: int, f: FieldView) -> HostParam {
    HostParam {
        field: index,
        name: host_param_name(index),
        host_type: f.ctf_type.host_type_text(),
    }
}

/// The parameters of the Rust wrapper of a class with the given fields: one
/// for each field, in field order.
pub open spec fn host_params(fields: Seq<FieldView>) -> Seq<HostParam> {
    Seq::new(fields.len(), |i: int| host_param(i, fields[i]))
}

/// The expression for a pointer to the first character of the text `base`.
pub open spec fn text_pointer_expr(base: Seq<char>) -> Seq<char> {
    "::std::mem::transmute("@ + base + ".as_bytes().as_ptr())"@
}

/// The expression for a pointer to the first element of the slice or array
/// `base`.
pub open spec fn element_pointer_expr(base: Seq<char>) -> Seq<char> {
    base + ".as_ptr()"@
}

/// The expression for the number of elements of `base`.
pub open spec fn length_expr(base: Seq<char>) -> Seq<char> {
    base + ".len()"@
}

/// The expression that lowers the Rust value named `base`, of logical type
/// `ty`, to the value that the C function takes: text with a count and
/// integer arrays and sequences become a pointer to their first element,
/// everything else is passed as it is.
pub open spec fn value_expr(base: Seq<char>, ty: CTFType) -> Seq<char> {
    if ty.is_counted_text() {
        text_pointer_expr(base)
    } else {
        match ty {
            CTFType::Array(_, _)
            | CTFType::ArrayNoWrite(_, _)
            | CTFType::Sequence(_)
            | CTFType::SequenceNoWrite(_) => element_pointer_expr(base),
            _ => base,
        }
    }
}

/// The expressions that the wrapper hands over for its parameter `base` of
/// logical type `ty`: the lowered value, directly followed by the element
/// count where the type has one.
pub open spec fn lowered_exprs(base: Seq<char>, ty: CTFType) -> Seq<Seq<char>> {
    if ty.has_length() {
        seq![value_expr(base, ty), length_expr(base)]
    } else {
        seq![value_expr(base, ty)]
    }
}

/// The arguments that the wrapper makes from its parameter `base` for the
/// field at position `index`: the lowered value, directly followed by the
/// element count where the type has one.
pub open spec fn field_call_args(index: int, base: Seq<char>, ty: CTFType) -> Seq<CallArg> {
    let value = CallArg { field: index, role: ParamRole::Value, expr: value_expr(base, ty) };
    if ty.has_length() {
        seq![value, CallArg { field: index, role: ParamRole::Length, expr: length_expr(base) }]
    } else {
        seq![value]
    }
}

/// The arguments that the Rust wrapper of a class with the given fields
/// hands to the C function: those made from each field, in field order.
pub open spec fn call_args(fields: Seq<FieldView>) -> Seq<CallArg>
    decreases fields.len(),
{
    if fields.len() == 0 {
        Seq::empty()
    } else {
        call_args(fields.drop_last()) + field_call_args(
            fields.len() - 1,
            host_param_name(fields.len() - 1),
            fields.last().ctf_type,
        )
    }
}

/// The number of C parameters that come before those of the field at
/// position `index`.
pub open spec fn param_offset(fields: Seq<FieldView>, index: int) -> int
    decreases index,
{
    if index <= 0 {
        0
    } else {
        param_offset(fields, index - 1) + field_c_params(index - 1, fields[index - 1]).len()
    }
}

/// The parameters of a longer list of fields begin with those of each of its
/// prefixes: adding fields at the end changes nothing before them.
pub proof fn lemma_c_params_take(fields: Seq<FieldView>, n: int)
    requires
        0 <= n < fields.len(),
    ensures
        c_params(fields.take(n + 1)) == c_params(fields.take(n)) + field_c_params(n, fields[n]),
{
    let longer = fields.take(n + 1);
    assert(longer.drop_last() =~= fields.take(n));
    assert(longer.last() == fields[n]);
}

/// The call arguments of a longer list of fields begin with those of each of
/// its prefixes.
pub proof fn lemma_call_args_take(fields: Seq<FieldView>, n: int)
    requires
        0 <= n < fields.len(),
    ensures
        call_args(fields.take(n + 1)) == call_args(fields.take(n)) + field_call_args(
            n,
            host_param_name(n),
            fields[n].ctf_type,
        ),
{
    let longer = fields.take(n + 1);
    assert(longer.drop_last() =~= fields.take(n));
    assert(longer.last() == fields[n]);
}

/// Where the parameters of each field stand in the C parameter list.
///
/// The list holds the parameters of the fields in field order and nothing
/// else: the value of the field at position `i` stands at
/// `param_offset(fields, i)`, its element count, if its type has one, right
/// after it, and the next field's parameters follow directly.
pub proof fn lemma_c_params_layout(fields: Seq<FieldView>)
    ensures
        c_params(fields).len() == param_offset(fields, fields.len() as int),
        forall|i: int|
            0 <= i < fields.len() ==> {
                let at = #[trigger] param_offset(fields, i);
                &&& 0 <= at < c_params(fields).len()
                &&& c_params(fields)[at] == value_param(i, fields[i])
                &&& fields[i].ctf_type.has_length() ==> at + 1 < c_params(fields).len()
                    && c_params(fields)[at + 1] == length_param(i, fields[i])
                &&& param_offset(fields, i + 1) == at + if fields[i].ctf_type.has_length() {
                    2int
                } else {
                    1int
                }
            },
    decreases fields.len(),
{
    if fields.len() > 0 {
        let front = fields.drop_last();
        let n = fields.len() - 1;
        lemma_c_params_layout(front);
        lemma_param_offset_prefix(fields, front, n);
        assert forall|i: int| 0 <= i < fields.len() implies {
            let at = #[trigger] param_offset(fields, i);
            &&& 0 <= at < c_params(fields).len()
            &&& c_params(fields)[at] == value_param(i, fields[i])
            &&& fields[i].ctf_type.has_length() ==> at + 1 < c_params(fields).len() && c_params(
                fields,
            )[at + 1] == length_param(i, fields[i])
            &&& param_offset(fields, i + 1) == at + if fields[i].ctf_type.has_length() {
                2int
            } else {
                1int
            }
        } by {
            lemma_param_offset_prefix(fields, front, i);
            if i < n {
                assert(front[i] == fields[i]);
                assert(param_offset(front, i) == param_offset(fields, i));
                lemma_param_offset_prefix(fields, front, i + 1);
            }
        }
    }
}

/// The offset of a field depends only on the fields before it.
proof fn lemma_param_offset_prefix(fields: Seq<FieldView>, front: Seq<FieldView>, index: int)
    requires
        0 <= index <= front.len() <= fields.len(),
        forall|k: int| 0 <= k < front.len() ==> front[k] == fields[k],
    ensures
        param_offset(front, index) == param_offset(fields, index),
    decreases index,
{
    if index > 0 {
        lemma_param_offset_prefix(fields, front, index - 1);
    }
}

/// The wrapper hands the C function exactly the arguments that its
/// parameter list asks for: the two lists have the same length, and at each
/// position the argument is made from the field, and plays the role, of the
/// parameter at that position.
pub proof fn lemma_call_args_match_c_params(fields: Seq<FieldView>)
    ensures
        call_args(fields).len() == c_params(fields).len(),
        forall|k: int|
            0 <= k < c_params(fields).len() ==> (#[trigger] call_args(fields)[k]).field
                == c_params(fields)[k].field && call_args(fields)[k].role == c_params(
                fields,
            )[k].role,
    decreases fields.len(),
{
    if fields.len() > 0 {
        lemma_call_args_match_c_params(fields.drop_last());
    }
}

/// Every field gives the C functions exactly one value parameter, and
/// exactly one element count if it is a sequence or a text array and none
/// otherwise; it gives the Rust wrapper exactly one parameter and never an
/// element count.
pub proof fn lemma_params_per_field(fields: Seq<FieldView>, index: int)
    requires
        0 <= index < fields.len(),
    ensures
        c_params(fields).filter(
            |p: CParam| p.field == index && p.role == ParamRole::Value,
        ).len() == 1,
        c_params(fields).filter(
            |p: CParam| p.field == index && p.role == ParamRole::Length,
        ).len() == if fields[index].ctf_type.has_length() {
            1nat
        } else {
            0nat
        },
        host_params(fields).filter(|p: HostParam| p.field == index).len() == 1,
    decreases fields.len(),
{
    let is_value = |p: CParam| p.field == index && p.role == ParamRole::Value;
    let is_length = |p: CParam| p.field == index && p.role == ParamRole::Length;
    let is_host = |p: HostParam| p.field == index;
    let front = fields.drop_last();
    let n = fields.len() - 1;
    let tail = field_c_params(n, fields.last());
    Seq::filter_distributes_over_add(c_params(front), tail, is_value);
    Seq::filter_distributes_over_add(c_params(front), tail, is_length);
    lemma_filter_c_params_of_field(n, fields.last(), index);
    assert(host_params(fields) =~= host_params(front).push(host_param(n, fields.last())));
    Seq::lemma_filter_push(host_params(front), host_param(n, fields.last()), is_host);
    if index < n {
        lemma_params_per_field(front, index);
        assert(front[index] == fields[index]);
    } else {
        lemma_no_params_beyond(front, index);
    }
}

/// What the parameters of one field amount to when only those of the field
/// at position `index`, in one role, are kept.
proof fn lemma_filter_c_params_of_field(n: int, f: FieldView, index: int)
    ensures
        field_c_params(n, f).filter(
            |p: CParam| p.field == index && p.role == ParamRole::Value,
        ).len() == if n == index {
            1nat
        } else {
            0nat
        },
        field_c_params(n, f).filter(
            |p: CParam| p.field == index && p.role == ParamRole::Length,
        ).len() == if n == index && f.ctf_type.has_length() {
            1nat
        } else {
            0nat
        },
{
    let is_value = |p: CParam| p.field == index && p.role == ParamRole::Value;
    let is_length = |p: CParam| p.field == index && p.role == ParamRole::Length;
    let none = Seq::<CParam>::empty();
    let v = value_param(n, f);
    let l = length_param(n, f);
    assert(none.filter(is_value) =~= none) by {
        reveal(Seq::filter);
    }
    assert(none.filter(is_length) =~= none) by {
        reveal(Seq::filter);
    }
    assert(seq![v] =~= none.push(v));
    assert(seq![v, l] =~= none.push(v).push(l));
    Seq::lemma_filter_push(none, v, is_value);
    Seq::lemma_filter_push(none, v, is_length);
    Seq::lemma_filter_push(none.push(v), l, is_value);
    Seq::lemma_filter_push(none.push(v), l, is_length);
}

/// No parameter belongs to a field beyond the end of the list.
proof fn lemma_no_params_beyond(fields: Seq<FieldView>, index: int)
    requires
        fields.len() <= index,
    ensures
        c_params(fields).filter(
            |p: CParam| p.field == index && p.role == ParamRole::Value,
        ).len() == 0,
        c_params(fields).filter(
            |p: CParam| p.field == index && p.role == ParamRole::Length,
        ).len() == 0,
        host_params(fields).filter(|p: HostParam| p.field == index).len() == 0,
    decreases fields.len(),
{
    let is_value = |p: CParam| p.field == index && p.role == ParamRole::Value;
    let is_length = |p: CParam| p.field == index && p.role == ParamRole::Length;
    let is_host = |p: HostParam| p.field == index;
    if fields.len() == 0 {
        assert(c_params(fields).filter(is_value).len() == 0) by {
            reveal(Seq::filter);
        }
        assert(c_params(fields).filter(is_length).len() == 0) by {
            reveal(Seq::filter);
        }
        assert(host_params(fields).filter(is_host).len() == 0) by {
            reveal(Seq::filter);
        }
    } else {
        let front = fields.drop_last();
        let n = fields.len() - 1;
        let tail = field_c_params(n, fields.last());
        lemma_no_params_beyond(front, index);
        Seq::filter_distributes_over_add(c_params(front), tail, is_value);
        Seq::filter_distributes_over_add(c_params(front), tail, is_length);
        lemma_filter_c_params_of_field(n, fields.last(), index);
        assert(host_params(fields) =~= host_params(front).push(host_param(n, fields.last())));
        Seq::lemma_filter_push(host_params(front), host_param(n, fields.last()), is_host);
    }
}

/// The Rust wrapper takes one parameter for each field, in field order, and
/// leaving the element counts out of the C parameter list leaves one
/// parameter for each field, in the same order.
pub proof fn lemma_field_order(fields: Seq<FieldView>)
    ensures
        host_params(fields).len() == fields.len(),
        forall|i: int| 0 <= i < fields.len() ==> (#[trigger] host_params(fields)[i]).field == i,
        c_params(fields).filter(|p: CParam| p.role == ParamRole::Value) == Seq::new(
            fields.len(),
            |i: int| value_param(i, fields[i]),
        ),
    decreases fields.len(),
{
    let is_value = |p: CParam| p.role == ParamRole::Value;
    let values = Seq::new(fields.len(), |i: int| value_param(i, fields[i]));
    if fields.len() == 0 {
        assert(c_params(fields).filter(is_value) =~= values) by {
            reveal(Seq::filter);
        }
    } else {
        let front = fields.drop_last();
        let n = fields.len() - 1;
        let f = fields.last();
        let v = value_param(n, f);
        let l = length_param(n, f);
        let none = Seq::<CParam>::empty();
        lemma_field_order(front);
        Seq::filter_distributes_over_add(c_params(front), field_c_params(n, f), is_value);
        assert(none.filter(is_value) =~= none) by {
            reveal(Seq::filter);
        }
        assert(seq![v] =~= none.push(v));
        assert(seq![v, l] =~= none.push(v).push(l));
        Seq::lemma_filter_push(none, v, is_value);
        Seq::lemma_filter_push(none.push(v), l, is_value);
        assert(field_c_params(n, f).filter(is_value) =~= seq![v]);
        assert(c_params(fields).filter(is_value) =~= values);
    }
}

} // verus!
