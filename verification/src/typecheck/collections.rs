//! The typing rules for the forms with a list of parts: set literals, record
//! literals and calls of extension functions.

use vstd::prelude::*;
use crate::expr::{
    entries_view, exprs_view, list_views, CallStyle, Expr, ExprKind, SpecExpr, SpecExprKind,
};
use crate::schema::{ExtensionFunctionType, SpecFunctionDecl, SpecSchema, ValidatorSchema};
use crate::typecheck::answer::{
    add_error, answer, errors_view, expect, expect_type, Answer, SpecAnswer,
};
use crate::type_order::sorted_types;
use crate::typecheck::operators::any_set;
use crate::types::{
    attributes_view, lub, sorted_attrs, types_view, AttributeType, OpenTag,
    SpecAttribute, SpecType, Type, ValidationMode,
};
use crate::validation_errors::{
    LubContext, LubHelp, SpecErrorKind, SpecTypeError, TypeError,
};

verus! {

/// What typechecking a list of expressions yields, as a mathematical value.
pub struct SpecListAnswer {
    /// The expressions with a type on each node.
    pub typed: Seq<SpecExpr>,
    /// The errors found, in the order of the expressions.
    pub errors: Seq<SpecTypeError>,
}

/// What typechecking a list of expressions yields.
#[derive(Debug)]
pub struct ListAnswer {
    pub typed: Vec<Expr>,
    pub errors: Vec<TypeError>,
}

impl View for ListAnswer {
    type V = SpecListAnswer;

    open spec fn view(&self) -> SpecListAnswer {
        SpecListAnswer { typed: exprs_view(self.typed@), errors: errors_view(self.errors@) }
    }
}

/// What typechecking the values of a record literal yields, as a
/// mathematical value.
pub struct SpecEntriesAnswer {
    /// The entries with a type on each node of their values.
    pub typed: Seq<(Seq<char>, SpecExpr)>,
    /// The errors found, in the order of the entries.
    pub errors: Seq<SpecTypeError>,
}

/// What typechecking the values of a record literal yields.
#[derive(Debug)]
pub struct EntriesAnswer {
    pub typed: Vec<(String, Expr)>,
    pub errors: Vec<TypeError>,
}

impl View for EntriesAnswer {
    type V = SpecEntriesAnswer;

    open spec fn view(&self) -> SpecEntriesAnswer {
        SpecEntriesAnswer { typed: entries_view(self.typed@), errors: errors_view(self.errors@) }
    }
}

/// The type that an expression carries.
pub open spec fn type_of(e: SpecExpr) -> SpecType {
    match e.data {
        Some(t) => t,
        None => SpecType::Never,
    }
}

/// The types that the expressions carry.
pub open spec fn list_types(typed: Seq<SpecExpr>) -> Seq<SpecType> {
    Seq::new(typed.len(), |i: int| type_of(typed[i]))
}

/// The least upper bound of the first `n` types, or the reason why the first
/// of them that is not compatible with those before it is not.
pub open spec fn lub_all(mode: ValidationMode, types: Seq<SpecType>, n: nat) -> Result<
    SpecType,
    LubHelp,
>
    decreases n,
{
    if n == 0 || n > types.len() {
        Ok(SpecType::Never)
    } else {
        match lub_all(mode, types, (n - 1) as nat) {
            Ok(t) => lub(t, types[n - 1], mode),
            Err(h) => Err(h),
        }
    }
}

/// The answer for a set literal at `e`, where `elems` is the answer for its
/// elements: a literal without elements is an error, and the elements of any
/// other must have a least upper bound, which is the type of the elements of
/// the set; a literal whose elements have none has no type.
pub open spec fn set_answer(mode: ValidationMode, e: SpecExpr, elems: SpecListAnswer) -> SpecAnswer {
    let kind = SpecExprKind::SetLit(elems.typed);
    let types = list_types(elems.typed);
    if elems.typed.len() == 0 {
        answer(
            e,
            kind,
            any_set(),
            elems.errors.push(SpecTypeError::at(e, SpecErrorKind::EmptySetForbidden)),
        )
    } else {
        match lub_all(mode, types, types.len()) {
            Ok(t) => answer(e, kind, SpecType::SetOf(Box::new(t)), elems.errors),
            Err(hint) => answer(
                e,
                kind,
                SpecType::Never,
                elems.errors.push(
                    SpecTypeError::on(
                        e,
                        SpecErrorKind::IncompatibleTypes {
                            types: sorted_types(types),
                            hint,
                            context: LubContext::SetElements,
                        },
                    ),
                ),
            ),
        }
    }
}

/// The attributes of the record that the entries of a record literal make.
pub open spec fn entry_attrs(typed: Seq<(Seq<char>, SpecExpr)>) -> Seq<SpecAttribute> {
    Seq::new(
        typed.len(),
        |i: int| SpecAttribute { name: typed[i].0, ty: type_of(typed[i].1), required: true },
    )
}

/// The answer for a record literal at `e`, where `entries` is the answer for
/// its values: a closed record in which each entry is a required attribute
/// of the type of its value.
pub open spec fn record_answer(e: SpecExpr, entries: SpecEntriesAnswer) -> SpecAnswer {
    answer(
        e,
        SpecExprKind::Record(entries.typed),
        SpecType::Record { attrs: sorted_attrs(entry_attrs(entries.typed)), open: false },
        entries.errors,
    )
}

/// The number of functions named `name` among the first `n` of the schema.
pub open spec fn function_count(schema: SpecSchema, name: Seq<char>, n: nat) -> nat
    decreases n,
{
    if n == 0 || n > schema.functions.len() {
        0
    } else if schema.functions[n - 1].name == name {
        function_count(schema, name, (n - 1) as nat) + 1
    } else {
        function_count(schema, name, (n - 1) as nat)
    }
}

/// The index of the first function named `name` at or after `from`, or the
/// number of functions if there is none.
pub open spec fn function_index(schema: SpecSchema, name: Seq<char>, from: nat) -> nat
    decreases schema.functions.len() - from,
{
    if from < schema.functions.len() && schema.functions[from as int].name != name {
        function_index(schema, name, from + 1)
    } else {
        from
    }
}

/// The errors of the first `n` arguments of a call: each must be of a
/// subtype of the type that the function declares for it.
pub open spec fn argument_errors(
    mode: ValidationMode,
    args: Seq<SpecExpr>,
    types: Seq<SpecType>,
    expected: Seq<SpecType>,
    n: nat,
) -> Seq<SpecTypeError>
    decreases n,
{
    if n == 0 || n > args.len() || n > types.len() || n > expected.len() {
        Seq::empty()
    } else {
        argument_errors(mode, args, types, expected, (n - 1) as nat) + expect(
            mode,
            args[n - 1],
            expected[n - 1],
            types[n - 1],
            None,
        )
    }
}

/// Whether the first `n` arguments are literals.
pub open spec fn all_literals(args: Seq<SpecExpr>, n: nat) -> bool
    decreases n,
{
    if n == 0 || n > args.len() {
        true
    } else {
        all_literals(args, (n - 1) as nat) && args[n - 1].kind is Lit
    }
}

/// The errors of calling `f` in the style `style` with the arguments `args`
/// of the types `types`, of which there are as many as `f` takes.
pub open spec fn call_errors(
    mode: ValidationMode,
    e: SpecExpr,
    f: SpecFunctionDecl,
    style: CallStyle,
    args: Seq<SpecExpr>,
    types: Seq<SpecType>,
) -> Seq<SpecTypeError> {
    let of_arguments = argument_errors(mode, args, types, f.argument_types, args.len());
    let of_style = if style != f.style {
        seq![
            SpecTypeError::on(e, SpecErrorKind::WrongCallStyle { expected: f.style, actual: style }),
        ]
    } else {
        Seq::empty()
    };
    let of_constructor = if f.is_constructor && !all_literals(args, args.len()) {
        seq![SpecTypeError::at(e, SpecErrorKind::NonLitExtConstructor)]
    } else {
        Seq::empty()
    };
    of_arguments + of_style + of_constructor
}

/// The answer for the call of the extension function `fn_name` at `e`, where
/// `args` is the answer for the arguments `given`. The schema must define
/// exactly one function of that name; the call must give it as many
/// arguments as it takes, of the types it takes, in the style it is to be
/// called in, and literals only if it is a constructor.
pub open spec fn call_answer(
    schema: SpecSchema,
    mode: ValidationMode,
    e: SpecExpr,
    fn_name: Seq<char>,
    style: CallStyle,
    given: Seq<SpecExpr>,
    args: SpecListAnswer,
) -> SpecAnswer {
    let kind = SpecExprKind::ExtensionFunctionApp { fn_name, style, args: args.typed };
    let count = function_count(schema, fn_name, schema.functions.len());
    if count == 0 {
        answer(
            e,
            kind,
            SpecType::Never,
            args.errors.push(SpecTypeError::on(e, SpecErrorKind::UndefinedFunction { name: fn_name })),
        )
    } else if count > 1 {
        answer(
            e,
            kind,
            SpecType::Never,
            args.errors.push(
                SpecTypeError::on(e, SpecErrorKind::MultiplyDefinedFunction { name: fn_name }),
            ),
        )
    } else {
        let f = schema.functions[function_index(schema, fn_name, 0) as int];
        if given.len() != f.argument_types.len() {
            answer(
                e,
                kind,
                f.return_type,
                args.errors.push(
                    SpecTypeError::on(
                        e,
                        SpecErrorKind::WrongNumberArguments {
                            expected: f.argument_types.len(),
                            actual: given.len(),
                        },
                    ),
                ),
            )
        } else {
            answer(
                e,
                kind,
                f.return_type,
                args.errors + call_errors(mode, e, f, style, given, list_types(args.typed)),
            )
        }
    }
}

/// The type that `e` carries.
pub fn carried_type(e: &Expr) -> (out: Type)
    ensures
        out@ == type_of(e@),
{
    match &e.data {
        Some(t) => t.clone(),
        None => Type::Never,
    }
}

/// The types that the expressions carry.
pub fn carried_types(typed: &Vec<Expr>) -> (out: Vec<Type>)
    ensures
        types_view(out@) == list_types(exprs_view(typed@)),
{
    let mut out: Vec<Type> = Vec::new();
    let mut i: usize = 0;
    while i < typed.len()
        invariant
            i <= typed.len(),
            out@.len() == i,
            forall|j: int| 0 <= j < i ==> (#[trigger] out@[j])@ == type_of(typed@[j]@),
        decreases typed.len() - i,
    {
        out.push(carried_type(&typed[i]));
        i += 1;
    }
    assert(types_view(out@) =~= list_types(exprs_view(typed@)));
    out
}

/// The least upper bound of `types`, or the reason why they have none.
pub fn least_upper_bound_of(mode: ValidationMode, types: &Vec<Type>) -> (out: Result<Type, LubHelp>)
    ensures
        out matches Ok(t) ==> lub_all(mode, types_view(types@), types@.len()) == Ok::<
            SpecType,
            LubHelp,
        >(t@),
        out matches Err(h) ==> lub_all(mode, types_view(types@), types@.len()) == Err::<
            SpecType,
            LubHelp,
        >(h),
{
    let ghost tv = types_view(types@);
    let mut acc = Type::Never;
    let mut i: usize = 0;
    while i < types.len()
        invariant
            i <= types.len(),
            tv == types_view(types@),
            lub_all(mode, tv, i as nat) == Ok::<SpecType, LubHelp>(acc@),
        decreases types.len() - i,
    {
        match Type::least_upper_bound(&acc, &types[i], mode) {
            Ok(t) => {
                acc = t;
            },
            Err(h) => {
                proof {
                    assert(lub_all(mode, tv, (i + 1) as nat) == Err::<SpecType, LubHelp>(h));
                    lub_all_failure_stays(mode, tv, (i + 1) as nat, tv.len());
                }
                return Err(h);
            },
        }
        i += 1;
    }
    Ok(acc)
}

/// Once a type is not compatible with those before it, no longer list has a
/// least upper bound, and the reason stays the same.
pub proof fn lub_all_failure_stays(mode: ValidationMode, types: Seq<SpecType>, i: nat, n: nat)
    requires
        i <= n <= types.len(),
        lub_all(mode, types, i) is Err,
    ensures
        lub_all(mode, types, n) == lub_all(mode, types, i),
    decreases n - i,
{
    if i < n {
        lub_all_failure_stays(mode, types, i, (n - 1) as nat);
    }
}

/// The answer for a set literal at `e`, where `elems` is the answer for its
/// elements.
pub fn check_set(mode: ValidationMode, e: &Expr, elems: ListAnswer) -> (out: Answer)
    ensures
        out@ == set_answer(mode, e@, elems@),
{
    let ListAnswer { typed, errors } = elems;
    let mut errors = errors;
    let types = carried_types(&typed);
    let ghost tv = list_types(exprs_view(typed@));
    assert(tv.len() == typed@.len());
    let kind = ExprKind::SetLit(typed);
    proof {
        list_views(kind);
    }
    if types.len() == 0 {
        add_error(&mut errors, TypeError::empty_set_forbidden(e.clone()));
        return Answer::plain(e, kind, Type::set(Type::Never), errors);
    }
    match least_upper_bound_of(mode, &types) {
        Ok(t) => Answer::plain(e, kind, Type::set(t), errors),
        Err(hint) => {
            add_error(
                &mut errors,
                TypeError::incompatible_types(e.clone(), types, hint, LubContext::SetElements),
            );
            Answer::plain(e, kind, Type::Never, errors)
        },
    }
}

/// The answer for a record literal at `e`, where `entries` is the answer for
/// its values.
pub fn check_record(e: &Expr, entries: EntriesAnswer) -> (out: Answer)
    ensures
        out@ == record_answer(e@, entries@),
{
    let EntriesAnswer { typed, errors } = entries;
    let mut attrs: Vec<(String, AttributeType)> = Vec::new();
    let mut i: usize = 0;
    while i < typed.len()
        invariant
            i <= typed.len(),
            attrs@.len() == i,
            forall|j: int|
                0 <= j < i ==> crate::types::attribute_view(#[trigger] attrs@[j]) == (SpecAttribute {
                    name: typed@[j].0@,
                    ty: type_of(typed@[j].1@),
                    required: true,
                }),
        decreases typed.len() - i,
    {
        attrs.push(
            (
                typed[i].0.clone(),
                AttributeType { attr_type: carried_type(&typed[i].1), is_required: true },
            ),
        );
        i += 1;
    }
    assert(attributes_view(attrs@) =~= entry_attrs(entries_view(typed@)));
    let ty = Type::record_with_attributes(attrs, OpenTag::ClosedAttributes);
    let kind = ExprKind::Record(typed);
    proof {
        list_views(kind);
    }
    Answer::plain(e, kind, ty, errors)
}

/// The number of functions of `schema` named `name`, and the first of them.
pub fn find_function<'a>(schema: &'a ValidatorSchema, name: &String) -> (out: (
    usize,
    Option<&'a ExtensionFunctionType>,
))
    ensures
        out.0 == function_count(schema@, name@, schema@.functions.len()),
        out.0 > 0 ==> (out.1 matches Some(f) && f@ == schema@.functions[function_index(
            schema@,
            name@,
            0,
        ) as int]),
{
    let mut count: usize = 0;
    let mut first: Option<&ExtensionFunctionType> = None;
    let mut i: usize = 0;
    while i < schema.extension_functions.len()
        invariant
            i <= schema.extension_functions.len(),
            count <= i,
            count == function_count(schema@, name@, i as nat),
            count == 0 ==> function_index(schema@, name@, i as nat) == function_index(
                schema@,
                name@,
                0,
            ),
            count > 0 ==> (first matches Some(f) && f@ == schema@.functions[function_index(
                schema@,
                name@,
                0,
            ) as int]),
        decreases schema.extension_functions.len() - i,
    {
        let f = &schema.extension_functions[i];
        assert(schema@.functions[i as int] == f@);
        if f.name == *name {
            if count == 0 {
                first = Some(f);
            }
            count += 1;
        }
        i += 1;
    }
    (count, first)
}

/// Whether all of `args` are literals.
pub fn literals_only(args: &Vec<Expr>) -> (out: bool)
    ensures
        out == all_literals(exprs_view(args@), args@.len()),
{
    let ghost av = exprs_view(args@);
    let mut i: usize = 0;
    while i < args.len()
        invariant
            i <= args.len(),
            av == exprs_view(args@),
            all_literals(av, i as nat),
        decreases args.len() - i,
    {
        let lit = match &args[i].expr_kind {
            ExprKind::Lit(_) => true,
            _ => false,
        };
        if !lit {
            proof {
                assert(!all_literals(av, (i + 1) as nat));
                not_all_literals_stays(av, (i + 1) as nat, av.len());
            }
            return false;
        }
        i += 1;
    }
    true
}

/// Once an argument is no literal, no longer list of arguments is one of
/// literals.
pub proof fn not_all_literals_stays(args: Seq<SpecExpr>, i: nat, n: nat)
    requires
        i <= n <= args.len(),
        !all_literals(args, i),
    ensures
        !all_literals(args, n),
    decreases n - i,
{
    if i < n {
        not_all_literals_stays(args, i, (n - 1) as nat);
    }
}

/// Adds to `errors` the errors of calling `f` in the style `style` with the
/// arguments `args` of the types `types`.
pub fn check_call_errors(
    mode: ValidationMode,
    e: &Expr,
    f: &ExtensionFunctionType,
    style: CallStyle,
    args: &Vec<Expr>,
    types: &Vec<Type>,
    errors: &mut Vec<TypeError>,
)
    ensures
        errors_view(final(errors)@) == errors_view(old(errors)@) + call_errors(
            mode,
            e@,
            f@,
            style,
            exprs_view(args@),
            types_view(types@),
        ),
{
    let ghost before = errors_view(errors@);
    let ghost av = exprs_view(args@);
    let ghost tv = types_view(types@);
    let ghost xv = types_view(f.argument_types@);
    let mut i: usize = 0;
    assert(before + argument_errors(mode, av, tv, xv, 0) =~= before);
    let checkable = args.len() <= types.len() && args.len() <= f.argument_types.len();
    while checkable && i < args.len()
        invariant
            i <= args.len(),
            checkable == (args@.len() <= types@.len() && args@.len()
                <= f.argument_types@.len()),
            !checkable ==> i == 0,
            av == exprs_view(args@),
            tv == types_view(types@),
            xv == types_view(f.argument_types@),
            errors_view(errors@) == before + argument_errors(mode, av, tv, xv, i as nat),
        decreases args.len() - i,
    {
        let ghost mid = argument_errors(mode, av, tv, xv, i as nat);
        expect_type(mode, &args[i], f.argument_types[i].clone(), &types[i], None, errors);
        proof {
            let step = expect(mode, av[i as int], xv[i as int], tv[i as int], None);
            assert(before + mid + step =~= before + (mid + step));
        }
        i += 1;
    }
    let ghost of_arguments = argument_errors(mode, av, tv, xv, av.len());
    proof {
        assert(av.len() == args@.len() && tv.len() == types@.len() && xv.len()
            == f.argument_types@.len());
        if checkable {
            assert(i as nat == av.len());
        } else {
            assert(i == 0);
            assert(of_arguments == Seq::<SpecTypeError>::empty());
            assert(argument_errors(mode, av, tv, xv, 0) == Seq::<SpecTypeError>::empty());
        }
    }
    let ghost one = errors_view(errors@);
    assert(one == before + of_arguments);
    assert(f@.argument_types == xv);
    if style != f.style {
        let err = TypeError::wrong_call_style(e.clone(), f.style, style);
        add_error(errors, err);
    }
    if f.is_constructor && !literals_only(args) {
        let err = TypeError::non_lit_ext_constructor(e.clone());
        add_error(errors, err);
    }
    assert(errors_view(errors@) =~= before + call_errors(mode, e@, f@, style, av, tv));
}

/// The answer for the call of the extension function `fn_name` at `e`, where
/// `args` is the answer for the arguments `given`.
pub fn check_call(
    schema: &ValidatorSchema,
    mode: ValidationMode,
    e: &Expr,
    fn_name: &String,
    style: CallStyle,
    given: &Vec<Expr>,
    args: ListAnswer,
) -> (out: Answer)
    ensures
        out@ == call_answer(schema@, mode, e@, fn_name@, style, exprs_view(given@), args@),
{
    let ListAnswer { typed, errors } = args;
    let mut errors = errors;
    let types = carried_types(&typed);
    assert(types@.len() == typed@.len()) by {
        assert(types_view(types@).len() == types@.len());
        assert(list_types(exprs_view(typed@)).len() == typed@.len());
    }
    let kind = ExprKind::ExtensionFunctionApp { fn_name: fn_name.clone(), style, args: typed };
    proof {
        list_views(kind);
    }
    let (count, first) = find_function(schema, fn_name);
    if count == 0 {
        add_error(&mut errors, TypeError::undefined_extension(e.clone(), fn_name.clone()));
        return Answer::plain(e, kind, Type::Never, errors);
    }
    if count > 1 {
        add_error(&mut errors, TypeError::multiply_defined_extension(e.clone(), fn_name.clone()));
        return Answer::plain(e, kind, Type::Never, errors);
    }
    let f = first.unwrap();
    assert(types_view(f.argument_types@).len() == f.argument_types@.len());
    if given.len() != f.argument_types.len() {
        add_error(
            &mut errors,
            TypeError::wrong_number_args(e.clone(), f.argument_types.len(), given.len()),
        );
        return Answer::plain(e, kind, f.return_type.clone(), errors);
    }
    check_call_errors(mode, e, f, style, given, &types, &mut errors);
    Answer::plain(e, kind, f.return_type.clone(), errors)
}

} // verus!
