//! The snapshot form of expression trees, and the expression serializer and
//! materializer.
//!
//! Serialization is a recursive descent producing the snapshot variant of
//! identical shape, except that user-defined function calls, held by name in
//! the executable plan, are resolved to a closed enumerated kind through the
//! static registry and rejected if the name is unregistered. Materialization
//! is the mirror descent, rebuilding each descriptor from the same registry.
//!
//! The correspondence between an executable expression and its snapshot is
//! the one relation [`expr_corr`]: the serializer establishes it right to
//! left from an executable tree, the materializer left to right from a
//! snapshot tree.

use vstd::prelude::*;
use std::sync::Arc;

use crate::error::CubeError;
use crate::plan::{
    AggregateFunction, BuiltinScalarFunction, DataType, Expr, Operator, ScalarValue,
    duplicate_opt_string, duplicate_string_list, opt_str_view,
};
use crate::udfs::{
    AggregateUDF, CubeAggregateUDFKind, CubeScalarUDFKind, ScalarUDF, aggregate_kind_by_name,
    aggregate_udf_by_kind, lemma_aggregate_registry_round_trip,
    lemma_scalar_registry_round_trip, scalar_kind_by_name, scalar_udf_by_kind,
    spec_aggregate_kind_by_name, spec_scalar_kind_by_name,
};

verus! {

/// An expression node in snapshot form: the transferable mirror of
/// [`Expr`], holding user-defined functions as enumerated kinds.
#[derive(Debug)]
pub enum SerializedExpr {
    Alias(Box<SerializedExpr>, String),
    Column(String, Option<String>),
    ScalarVariable(Vec<String>),
    Literal(ScalarValue),
    BinaryExpr { left: Box<SerializedExpr>, op: Operator, right: Box<SerializedExpr> },
    Not(Box<SerializedExpr>),
    IsNotNull(Box<SerializedExpr>),
    IsNull(Box<SerializedExpr>),
    Negative(Box<SerializedExpr>),
    Between {
        expr: Box<SerializedExpr>,
        negated: bool,
        low: Box<SerializedExpr>,
        high: Box<SerializedExpr>,
    },
    Case {
        expr: Option<Box<SerializedExpr>>,
        when_then_expr: Vec<(Box<SerializedExpr>, Box<SerializedExpr>)>,
        else_expr: Option<Box<SerializedExpr>>,
    },
    Cast { expr: Box<SerializedExpr>, data_type: DataType },
    TryCast { expr: Box<SerializedExpr>, data_type: DataType },
    Sort { expr: Box<SerializedExpr>, asc: bool, nulls_first: bool },
    ScalarFunction { fun: BuiltinScalarFunction, args: Vec<SerializedExpr> },
    ScalarUDF { fun: CubeScalarUDFKind, args: Vec<SerializedExpr> },
    AggregateFunction { fun: AggregateFunction, args: Vec<SerializedExpr>, distinct: bool },
    AggregateUDF { fun: CubeAggregateUDFKind, args: Vec<SerializedExpr> },
    InList { expr: Box<SerializedExpr>, list: Vec<SerializedExpr>, negated: bool },
    Wildcard,
}

/// Whether an executable expression can be serialized: every user-defined
/// function call in it is registered. All other expression shapes always
/// serialize.
pub open spec fn expr_serializable(e: Expr) -> bool
    decreases e,
{
    match e {
        Expr::Alias(x, _) => expr_serializable(*x),
        Expr::Column(_, _) => true,
        Expr::ScalarVariable(_) => true,
        Expr::Literal(_) => true,
        Expr::BinaryExpr { left, op: _, right } => expr_serializable(*left) && expr_serializable(
            *right,
        ),
        Expr::Not(x) => expr_serializable(*x),
        Expr::IsNotNull(x) => expr_serializable(*x),
        Expr::IsNull(x) => expr_serializable(*x),
        Expr::Negative(x) => expr_serializable(*x),
        Expr::Between { expr, negated: _, low, high } => expr_serializable(*expr)
            && expr_serializable(*low) && expr_serializable(*high),
        Expr::Case { expr, when_then_expr, else_expr } => opt_expr_serializable(expr)
            && wt_serializable(when_then_expr@) && opt_expr_serializable(else_expr),
        Expr::Cast { expr, data_type: _ } => expr_serializable(*expr),
        Expr::TryCast { expr, data_type: _ } => expr_serializable(*expr),
        Expr::Sort { expr, asc: _, nulls_first: _ } => expr_serializable(*expr),
        Expr::ScalarFunction { fun: _, args } => exprs_serializable(args@),
        Expr::ScalarUDF { fun, args } => spec_scalar_kind_by_name((*fun).name@) is Some
            && exprs_serializable(args@),
        Expr::AggregateFunction { fun: _, args, distinct: _ } => exprs_serializable(args@),
        Expr::AggregateUDF { fun, args } => spec_aggregate_kind_by_name((*fun).name@) is Some
            && exprs_serializable(args@),
        Expr::InList { expr, list, negated: _ } => expr_serializable(*expr) && exprs_serializable(
            list@,
        ),
        Expr::Wildcard => true,
    }
}

/// [`expr_serializable`], lifted over an expression list.
pub open spec fn exprs_serializable(s: Seq<Expr>) -> bool
    decreases s,
{
    forall|i: int| 0 <= i < s.len() ==> expr_serializable(#[trigger] s[i])
}

/// [`expr_serializable`], lifted over an optional expression.
pub open spec fn opt_expr_serializable(o: Option<Box<Expr>>) -> bool
    decreases o,
{
    match o {
        Option::Some(x) => expr_serializable(*x),
        Option::None => true,
    }
}

/// [`expr_serializable`], lifted over a when/then pair list.
pub open spec fn wt_serializable(s: Seq<(Box<Expr>, Box<Expr>)>) -> bool
    decreases s,
{
    forall|i: int| 0 <= i < s.len() ==> expr_serializable(*(#[trigger] s[i]).0)
        && expr_serializable(*s[i].1)
}

/// Correspondence of an executable expression and a snapshot expression:
/// identical shape and field values, with a user-defined function call held
/// by a name on the executable side and by the kind that name resolves to on
/// the snapshot side.
pub open spec fn expr_corr(e: Expr, s: SerializedExpr) -> bool
    decreases e,
{
    match e {
        Expr::Alias(x, n) => {
            &&& s matches SerializedExpr::Alias(sx, sn)
            &&& expr_corr(*x, *sx)
            &&& sn@ == n@
        },
        Expr::Column(c, a) => {
            &&& s matches SerializedExpr::Column(sc, sa)
            &&& sc@ == c@
            &&& opt_str_view(sa) == opt_str_view(a)
        },
        Expr::ScalarVariable(v) => {
            &&& s matches SerializedExpr::ScalarVariable(sv)
            &&& sv@.map_values(|x: String| x@) == v@.map_values(|x: String| x@)
        },
        Expr::Literal(v) => {
            &&& s matches SerializedExpr::Literal(sv)
            &&& sv@ == v@
        },
        Expr::BinaryExpr { left, op, right } => {
            &&& s matches SerializedExpr::BinaryExpr { left: sl, op: sop, right: sr }
            &&& expr_corr(*left, *sl)
            &&& sop == op
            &&& expr_corr(*right, *sr)
        },
        Expr::Not(x) => {
            &&& s matches SerializedExpr::Not(sx)
            &&& expr_corr(*x, *sx)
        },
        Expr::IsNotNull(x) => {
            &&& s matches SerializedExpr::IsNotNull(sx)
            &&& expr_corr(*x, *sx)
        },
        Expr::IsNull(x) => {
            &&& s matches SerializedExpr::IsNull(sx)
            &&& expr_corr(*x, *sx)
        },
        Expr::Negative(x) => {
            &&& s matches SerializedExpr::Negative(sx)
            &&& expr_corr(*x, *sx)
        },
        Expr::Between { expr, negated, low, high } => {
            &&& s matches SerializedExpr::Between { expr: se, negated: sn, low: sl, high: sh }
            &&& expr_corr(*expr, *se)
            &&& sn == negated
            &&& expr_corr(*low, *sl)
            &&& expr_corr(*high, *sh)
        },
        Expr::Case { expr, when_then_expr, else_expr } => {
            &&& s matches SerializedExpr::Case { expr: se, when_then_expr: swt, else_expr: sel }
            &&& opt_expr_corr(expr, se)
            &&& wt_corr(when_then_expr@, swt@)
            &&& opt_expr_corr(else_expr, sel)
        },
        Expr::Cast { expr, data_type } => {
            &&& s matches SerializedExpr::Cast { expr: se, data_type: sd }
            &&& expr_corr(*expr, *se)
            &&& sd == data_type
        },
        Expr::TryCast { expr, data_type } => {
            &&& s matches SerializedExpr::TryCast { expr: se, data_type: sd }
            &&& expr_corr(*expr, *se)
            &&& sd == data_type
        },
        Expr::Sort { expr, asc, nulls_first } => {
            &&& s matches SerializedExpr::Sort { expr: se, asc: sa, nulls_first: snf }
            &&& expr_corr(*expr, *se)
            &&& sa == asc
            &&& snf == nulls_first
        },
        Expr::ScalarFunction { fun, args } => {
            &&& s matches SerializedExpr::ScalarFunction { fun: sf, args: sargs }
            &&& sf == fun
            &&& exprs_corr(args@, sargs@)
        },
        Expr::ScalarUDF { fun, args } => {
            &&& s matches SerializedExpr::ScalarUDF { fun: k, args: sargs }
            &&& spec_scalar_kind_by_name((*fun).name@) == Option::Some(k)
            &&& exprs_corr(args@, sargs@)
        },
        Expr::AggregateFunction { fun, args, distinct } => {
            &&& s matches SerializedExpr::AggregateFunction { fun: sf, args: sargs, distinct: sd }
            &&& sf == fun
            &&& exprs_corr(args@, sargs@)
            &&& sd == distinct
        },
        Expr::AggregateUDF { fun, args } => {
            &&& s matches SerializedExpr::AggregateUDF { fun: k, args: sargs }
            &&& spec_aggregate_kind_by_name((*fun).name@) == Option::Some(k)
            &&& exprs_corr(args@, sargs@)
        },
        Expr::InList { expr, list, negated } => {
            &&& s matches SerializedExpr::InList { expr: se, list: sl, negated: sn }
            &&& expr_corr(*expr, *se)
            &&& exprs_corr(list@, sl@)
            &&& sn == negated
        },
        Expr::Wildcard => s is Wildcard,
    }
}

/// [`expr_corr`], lifted over expression lists.
pub open spec fn exprs_corr(a: Seq<Expr>, b: Seq<SerializedExpr>) -> bool
    decreases a,
{
    &&& a.len() == b.len()
    &&& forall|i: int| 0 <= i < a.len() ==> expr_corr(#[trigger] a[i], b[i])
}

/// [`expr_corr`], lifted over optional expressions.
pub open spec fn opt_expr_corr(a: Option<Box<Expr>>, b: Option<Box<SerializedExpr>>) -> bool
    decreases a,
{
    match a {
        Option::Some(x) => b matches Option::Some(y) && expr_corr(*x, *y),
        Option::None => b is None,
    }
}

/// [`expr_corr`], lifted over when/then pair lists.
pub open spec fn wt_corr(
    a: Seq<(Box<Expr>, Box<Expr>)>,
    b: Seq<(Box<SerializedExpr>, Box<SerializedExpr>)>,
) -> bool
    decreases a,
{
    &&& a.len() == b.len()
    &&& forall|i: int| 0 <= i < a.len() ==> expr_corr(*(#[trigger] a[i]).0, *b[i].0) && expr_corr(
        *a[i].1,
        *b[i].1,
    )
}

/// Which errors serializing an executable expression can raise: exactly an
/// unknown-function error carrying the unregistered name of some
/// user-defined function call in the tree.
pub open spec fn expr_err_witness(e: Expr, err: CubeError) -> bool
    decreases e,
{
    match e {
        Expr::Alias(x, _) => expr_err_witness(*x, err),
        Expr::Column(_, _) => false,
        Expr::ScalarVariable(_) => false,
        Expr::Literal(_) => false,
        Expr::BinaryExpr { left, op: _, right } => expr_err_witness(*left, err)
            || expr_err_witness(*right, err),
        Expr::Not(x) => expr_err_witness(*x, err),
        Expr::IsNotNull(x) => expr_err_witness(*x, err),
        Expr::IsNull(x) => expr_err_witness(*x, err),
        Expr::Negative(x) => expr_err_witness(*x, err),
        Expr::Between { expr, negated: _, low, high } => expr_err_witness(*expr, err)
            || expr_err_witness(*low, err) || expr_err_witness(*high, err),
        Expr::Case { expr, when_then_expr, else_expr } => opt_expr_err_witness(expr, err)
            || wt_err_witness(when_then_expr@, err) || opt_expr_err_witness(else_expr, err),
        Expr::Cast { expr, data_type: _ } => expr_err_witness(*expr, err),
        Expr::TryCast { expr, data_type: _ } => expr_err_witness(*expr, err),
        Expr::Sort { expr, asc: _, nulls_first: _ } => expr_err_witness(*expr, err),
        Expr::ScalarFunction { fun: _, args } => exprs_err_witness(args@, err),
        Expr::ScalarUDF { fun, args } => (match err {
            CubeError::UnknownFunction(n) => spec_scalar_kind_by_name((*fun).name@) is None
                && n@ == (*fun).name@,
            _ => false,
        }) || exprs_err_witness(args@, err),
        Expr::AggregateFunction { fun: _, args, distinct: _ } => exprs_err_witness(args@, err),
        Expr::AggregateUDF { fun, args } => (match err {
            CubeError::UnknownFunction(n) => spec_aggregate_kind_by_name((*fun).name@) is None
                && n@ == (*fun).name@,
            _ => false,
        }) || exprs_err_witness(args@, err),
        Expr::InList { expr, list, negated: _ } => expr_err_witness(*expr, err)
            || exprs_err_witness(list@, err),
        Expr::Wildcard => false,
    }
}

/// [`expr_err_witness`], lifted over expression lists.
pub open spec fn exprs_err_witness(s: Seq<Expr>, err: CubeError) -> bool
    decreases s,
{
    exists|i: int| 0 <= i < s.len() && expr_err_witness(#[trigger] s[i], err)
}

/// [`expr_err_witness`], lifted over optional expressions.
pub open spec fn opt_expr_err_witness(o: Option<Box<Expr>>, err: CubeError) -> bool
    decreases o,
{
    match o {
        Option::Some(x) => expr_err_witness(*x, err),
        Option::None => false,
    }
}

/// [`expr_err_witness`], lifted over when/then pair lists.
pub open spec fn wt_err_witness(s: Seq<(Box<Expr>, Box<Expr>)>, err: CubeError) -> bool
    decreases s,
{
    exists|i: int| 0 <= i < s.len() && (expr_err_witness(*(#[trigger] s[i]).0, err)
        || expr_err_witness(*s[i].1, err))
}

/// Serializes one executable expression into its snapshot form. Succeeds
/// exactly when every user-defined function call in the tree is registered;
/// otherwise fails with the unregistered name and produces nothing.
pub fn serialized_expr(e: &Expr) -> (r: Result<SerializedExpr, CubeError>)
    ensures
        r matches Result::Ok(s) ==> expr_corr(*e, s),
        r is Ok <==> expr_serializable(*e),
        r matches Result::Err(err) ==> expr_err_witness(*e, err),
    decreases *e,
{
    match e {
        Expr::Alias(x, n) => {
            let sx = match serialized_expr(&**x) {
                Result::Ok(v) => v,
                Result::Err(err) => return Result::Err(err),
            };
            Result::Ok(SerializedExpr::Alias(Box::new(sx), n.clone()))
        },
        Expr::Column(c, a) => Result::Ok(
            SerializedExpr::Column(c.clone(), duplicate_opt_string(a)),
        ),
        Expr::ScalarVariable(v) => Result::Ok(
            SerializedExpr::ScalarVariable(duplicate_string_list(v)),
        ),
        Expr::Literal(v) => Result::Ok(SerializedExpr::Literal(v.duplicate())),
        Expr::BinaryExpr { left, op, right } => {
            let sl = match serialized_expr(&**left) {
                Result::Ok(v) => v,
                Result::Err(err) => return Result::Err(err),
            };
            let sr = match serialized_expr(&**right) {
                Result::Ok(v) => v,
                Result::Err(err) => return Result::Err(err),
            };
            Result::Ok(
                SerializedExpr::BinaryExpr { left: Box::new(sl), op: *op, right: Box::new(sr) },
            )
        },
        Expr::Not(x) => {
            let sx = match serialized_expr(&**x) {
                Result::Ok(v) => v,
                Result::Err(err) => return Result::Err(err),
            };
            Result::Ok(SerializedExpr::Not(Box::new(sx)))
        },
        Expr::IsNotNull(x) => {
            let sx = match serialized_expr(&**x) {
                Result::Ok(v) => v,
                Result::Err(err) => return Result::Err(err),
            };
            Result::Ok(SerializedExpr::IsNotNull(Box::new(sx)))
        },
        Expr::IsNull(x) => {
            let sx = match serialized_expr(&**x) {
                Result::Ok(v) => v,
                Result::Err(err) => return Result::Err(err),
            };
            Result::Ok(SerializedExpr::IsNull(Box::new(sx)))
        },
        Expr::Negative(x) => {
            let sx = match serialized_expr(&**x) {
                Result::Ok(v) => v,
                Result::Err(err) => return Result::Err(err),
            };
            Result::Ok(SerializedExpr::Negative(Box::new(sx)))
        },
        Expr::Between { expr, negated, low, high } => {
            let se = match serialized_expr(&**expr) {
                Result::Ok(v) => v,
                Result::Err(err) => return Result::Err(err),
            };
            let sl = match serialized_expr(&**low) {
                Result::Ok(v) => v,
                Result::Err(err) => return Result::Err(err),
            };
            let sh = match serialized_expr(&**high) {
                Result::Ok(v) => v,
                Result::Err(err) => return Result::Err(err),
            };
            Result::Ok(
                SerializedExpr::Between {
                    expr: Box::new(se),
                    negated: *negated,
                    low: Box::new(sl),
                    high: Box::new(sh),
                },
            )
        },
        Expr::Case { expr, when_then_expr, else_expr } => {
            let se = match serialized_opt_expr(expr) {
                Result::Ok(v) => v,
                Result::Err(err) => return Result::Err(err),
            };
            let swt = match serialized_wt(when_then_expr) {
                Result::Ok(v) => v,
                Result::Err(err) => return Result::Err(err),
            };
            let sel = match serialized_opt_expr(else_expr) {
                Result::Ok(v) => v,
                Result::Err(err) => return Result::Err(err),
            };
            Result::Ok(SerializedExpr::Case { expr: se, when_then_expr: swt, else_expr: sel })
        },
        Expr::Cast { expr, data_type } => {
            let se = match serialized_expr(&**expr) {
                Result::Ok(v) => v,
                Result::Err(err) => return Result::Err(err),
            };
            Result::Ok(SerializedExpr::Cast { expr: Box::new(se), data_type: *data_type })
        },
        Expr::TryCast { expr, data_type } => {
            let se = match serialized_expr(&**expr) {
                Result::Ok(v) => v,
                Result::Err(err) => return Result::Err(err),
            };
            Result::Ok(SerializedExpr::TryCast { expr: Box::new(se), data_type: *data_type })
        },
        Expr::Sort { expr, asc, nulls_first } => {
            let se = match serialized_expr(&**expr) {
                Result::Ok(v) => v,
                Result::Err(err) => return Result::Err(err),
            };
            Result::Ok(
                SerializedExpr::Sort {
                    expr: Box::new(se),
                    asc: *asc,
                    nulls_first: *nulls_first,
                },
            )
        },
        Expr::ScalarFunction { fun, args } => {
            let sargs = match serialized_exprs(args) {
                Result::Ok(v) => v,
                Result::Err(err) => return Result::Err(err),
            };
            Result::Ok(SerializedExpr::ScalarFunction { fun: *fun, args: sargs })
        },
        Expr::ScalarUDF { fun, args } => {
            let f: &ScalarUDF = &**fun;
            let kind = match scalar_kind_by_name(f.name.as_str()) {
                Option::Some(k) => k,
                Option::None => return Result::Err(CubeError::UnknownFunction(f.name.clone())),
            };
            let sargs = match serialized_exprs(args) {
                Result::Ok(v) => v,
                Result::Err(err) => return Result::Err(err),
            };
            Result::Ok(SerializedExpr::ScalarUDF { fun: kind, args: sargs })
        },
        Expr::AggregateFunction { fun, args, distinct } => {
            let sargs = match serialized_exprs(args) {
                Result::Ok(v) => v,
                Result::Err(err) => return Result::Err(err),
            };
            Result::Ok(
                SerializedExpr::AggregateFunction {
                    fun: *fun,
                    args: sargs,
                    distinct: *distinct,
                },
            )
        },
        Expr::AggregateUDF { fun, args } => {
            let f: &AggregateUDF = &**fun;
            let kind = match aggregate_kind_by_name(f.name.as_str()) {
                Option::Some(k) => k,
                Option::None => return Result::Err(CubeError::UnknownFunction(f.name.clone())),
            };
            let sargs = match serialized_exprs(args) {
                Result::Ok(v) => v,
                Result::Err(err) => return Result::Err(err),
            };
            Result::Ok(SerializedExpr::AggregateUDF { fun: kind, args: sargs })
        },
        Expr::InList { expr, list, negated } => {
            let se = match serialized_expr(&**expr) {
                Result::Ok(v) => v,
                Result::Err(err) => return Result::Err(err),
            };
            let sl = match serialized_exprs(list) {
                Result::Ok(v) => v,
                Result::Err(err) => return Result::Err(err),
            };
            Result::Ok(
                SerializedExpr::InList { expr: Box::new(se), list: sl, negated: *negated },
            )
        },
        Expr::Wildcard => Result::Ok(SerializedExpr::Wildcard),
    }
}

/// [`serialized_expr`] over an expression list, failing on the first child
/// that fails.
pub fn serialized_exprs(es: &Vec<Expr>) -> (r: Result<Vec<SerializedExpr>, CubeError>)
    ensures
        r matches Result::Ok(v) ==> exprs_corr(es@, v@),
        r is Ok <==> exprs_serializable(es@),
        r matches Result::Err(err) ==> exprs_err_witness(es@, err),
    decreases es@,
{
    let mut out: Vec<SerializedExpr> = Vec::new();
    let mut i: usize = 0;
    while i < es.len()
        invariant
            i <= es.len(),
            out@.len() == i as nat,
            forall|j: int| 0 <= j < i ==> expr_serializable(#[trigger] es@[j]) && expr_corr(
                es@[j],
                out@[j],
            ),
        decreases es@.len() - i,
    {
        match serialized_expr(&es[i]) {
            Result::Ok(s) => {
                out.push(s);
            },
            Result::Err(err) => {
                proof {
                    assert(0 <= i < es@.len() && expr_err_witness(es@[i as int], err));
                }
                return Result::Err(err);
            },
        }
        i += 1;
    }
    Result::Ok(out)
}

/// [`serialized_expr`] over an optional expression.
pub fn serialized_opt_expr(o: &Option<Box<Expr>>) -> (r: Result<
    Option<Box<SerializedExpr>>,
    CubeError,
>)
    ensures
        r matches Result::Ok(v) ==> opt_expr_corr(*o, v),
        r is Ok <==> opt_expr_serializable(*o),
        r matches Result::Err(err) ==> opt_expr_err_witness(*o, err),
    decreases *o,
{
    match o {
        Option::Some(x) => match serialized_expr(&**x) {
            Result::Ok(s) => Result::Ok(Option::Some(Box::new(s))),
            Result::Err(err) => Result::Err(err),
        },
        Option::None => Result::Ok(Option::None),
    }
}

/// [`serialized_expr`] over a when/then pair list.
pub fn serialized_wt(wt: &Vec<(Box<Expr>, Box<Expr>)>) -> (r: Result<
    Vec<(Box<SerializedExpr>, Box<SerializedExpr>)>,
    CubeError,
>)
    ensures
        r matches Result::Ok(v) ==> wt_corr(wt@, v@),
        r is Ok <==> wt_serializable(wt@),
        r matches Result::Err(err) ==> wt_err_witness(wt@, err),
    decreases wt@,
{
    let mut out: Vec<(Box<SerializedExpr>, Box<SerializedExpr>)> = Vec::new();
    let mut i: usize = 0;
    while i < wt.len()
        invariant
            i <= wt.len(),
            out@.len() == i as nat,
            forall|j: int| 0 <= j < i ==> expr_serializable(*(#[trigger] wt@[j]).0)
                && expr_serializable(*wt@[j].1) && expr_corr(*wt@[j].0, *out@[j].0) && expr_corr(
                *wt@[j].1,
                *out@[j].1,
            ),
        decreases wt@.len() - i,
    {
        let w = match serialized_expr(&*wt[i].0) {
            Result::Ok(s) => s,
            Result::Err(err) => {
                proof {
                    assert(0 <= i < wt@.len() && expr_err_witness(*wt@[i as int].0, err));
                }
                return Result::Err(err);
            },
        };
        let t = match serialized_expr(&*wt[i].1) {
            Result::Ok(s) => s,
            Result::Err(err) => {
                proof {
                    assert(0 <= i < wt@.len() && expr_err_witness(*wt@[i as int].1, err));
                }
                return Result::Err(err);
            },
        };
        out.push((Box::new(w), Box::new(t)));
        i += 1;
    }
    Result::Ok(out)
}

impl SerializedExpr {
    /// Materializes this snapshot expression back into an executable
    /// expression, rebuilding user-defined function descriptors from the
    /// static registry. Total: every snapshot expression materializes.
    pub fn expr(&self) -> (r: Expr)
        ensures
            expr_corr(r, *self),
        decreases *self,
    {
        match self {
            SerializedExpr::Alias(x, n) => Expr::Alias(Box::new((&**x).expr()), n.clone()),
            SerializedExpr::Column(c, a) => Expr::Column(c.clone(), duplicate_opt_string(a)),
            SerializedExpr::ScalarVariable(v) => Expr::ScalarVariable(duplicate_string_list(v)),
            SerializedExpr::Literal(v) => Expr::Literal(v.duplicate()),
            SerializedExpr::BinaryExpr { left, op, right } => Expr::BinaryExpr {
                left: Box::new((&**left).expr()),
                op: *op,
                right: Box::new((&**right).expr()),
            },
            SerializedExpr::Not(x) => Expr::Not(Box::new((&**x).expr())),
            SerializedExpr::IsNotNull(x) => Expr::IsNotNull(Box::new((&**x).expr())),
            SerializedExpr::IsNull(x) => Expr::IsNull(Box::new((&**x).expr())),
            SerializedExpr::Negative(x) => Expr::Negative(Box::new((&**x).expr())),
            SerializedExpr::Between { expr, negated, low, high } => Expr::Between {
                expr: Box::new((&**expr).expr()),
                negated: *negated,
                low: Box::new((&**low).expr()),
                high: Box::new((&**high).expr()),
            },
            SerializedExpr::Case { expr, when_then_expr, else_expr } => Expr::Case {
                expr: materialize_opt_expr(expr),
                when_then_expr: materialize_wt(when_then_expr),
                else_expr: materialize_opt_expr(else_expr),
            },
            SerializedExpr::Cast { expr, data_type } => Expr::Cast {
                expr: Box::new((&**expr).expr()),
                data_type: *data_type,
            },
            SerializedExpr::TryCast { expr, data_type } => Expr::TryCast {
                expr: Box::new((&**expr).expr()),
                data_type: *data_type,
            },
            SerializedExpr::Sort { expr, asc, nulls_first } => Expr::Sort {
                expr: Box::new((&**expr).expr()),
                asc: *asc,
                nulls_first: *nulls_first,
            },
            SerializedExpr::ScalarFunction { fun, args } => Expr::ScalarFunction {
                fun: *fun,
                args: materialize_exprs(args),
            },
            SerializedExpr::ScalarUDF { fun, args } => {
                let udf = scalar_udf_by_kind(*fun);
                proof {
                    lemma_scalar_registry_round_trip(*fun);
                }
                Expr::ScalarUDF { fun: Arc::new(udf), args: materialize_exprs(args) }
            },
            SerializedExpr::AggregateFunction { fun, args, distinct } => Expr::AggregateFunction {
                fun: *fun,
                args: materialize_exprs(args),
                distinct: *distinct,
            },
            SerializedExpr::AggregateUDF { fun, args } => {
                let udf = aggregate_udf_by_kind(*fun);
                proof {
                    lemma_aggregate_registry_round_trip(*fun);
                }
                Expr::AggregateUDF { fun: Arc::new(udf), args: materialize_exprs(args) }
            },
            SerializedExpr::InList { expr, list, negated } => Expr::InList {
                expr: Box::new((&**expr).expr()),
                list: materialize_exprs(list),
                negated: *negated,
            },
            SerializedExpr::Wildcard => Expr::Wildcard,
        }
    }
}

/// [`SerializedExpr::expr`] over an expression list.
pub fn materialize_exprs(v: &Vec<SerializedExpr>) -> (r: Vec<Expr>)
    ensures
        exprs_corr(r@, v@),
    decreases v@,
{
    let mut out: Vec<Expr> = Vec::new();
    let mut i: usize = 0;
    while i < v.len()
        invariant
            i <= v.len(),
            out@.len() == i as nat,
            forall|j: int| 0 <= j < i ==> expr_corr(#[trigger] out@[j], v@[j]),
        decreases v@.len() - i,
    {
        out.push(v[i].expr());
        i += 1;
    }
    out
}

/// [`SerializedExpr::expr`] over an optional expression.
pub fn materialize_opt_expr(o: &Option<Box<SerializedExpr>>) -> (r: Option<Box<Expr>>)
    ensures
        opt_expr_corr(r, *o),
    decreases *o,
{
    match o {
        Option::Some(x) => Option::Some(Box::new((&**x).expr())),
        Option::None => Option::None,
    }
}

/// [`SerializedExpr::expr`] over a when/then pair list.
pub fn materialize_wt(wt: &Vec<(Box<SerializedExpr>, Box<SerializedExpr>)>) -> (r: Vec<
    (Box<Expr>, Box<Expr>),
>)
    ensures
        wt_corr(r@, wt@),
    decreases wt@,
{
    let mut out: Vec<(Box<Expr>, Box<Expr>)> = Vec::new();
    let mut i: usize = 0;
    while i < wt.len()
        invariant
            i <= wt.len(),
            out@.len() == i as nat,
            forall|j: int| 0 <= j < i ==> expr_corr(*(#[trigger] out@[j]).0, *wt@[j].0)
                && expr_corr(*out@[j].1, *wt@[j].1),
        decreases wt@.len() - i,
    {
        let w = Box::new((&*wt[i].0).expr());
        let t = Box::new((&*wt[i].1).expr());
        out.push((w, t));
        i += 1;
    }
    out
}

} // verus!
