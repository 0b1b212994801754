use vstd::prelude::*;
use vstd::string::StringExecFns;

use crate::model::GenericArg;
use crate::model::GenericArgV;
use crate::model::GenericArgs;
use crate::model::GenericArgsV;
use crate::model::TraitBound;
use crate::model::TraitBoundV;
use crate::model::TypeExpr;
use crate::model::TypeExprV;
use crate::model::lemma_view_arg_seq_index;
use crate::model::lemma_view_bounds_index;
use crate::model::lemma_view_types_index;
use crate::model::view_arg;
use crate::model::view_arg_seq;
use crate::model::view_args;
use crate::model::view_bounds;
use crate::model::view_opt_args;
use crate::model::view_path;
use crate::model::view_types;

verus! {

// ---------------------------------------------------------------------------
// The canonical textual form of a type expression.
//
// The functions here are pure and total: every value of the grammar has a
// rendering, and a shape the decoder did not recognize renders as the
// fixed placeholder.
// ---------------------------------------------------------------------------

/// Rendering of one generic argument.
pub open spec fn spec_render_arg(g: GenericArgV) -> Seq<char>
    decreases g, 3int,
{
    match g {
        GenericArgV::Type { expr } => spec_render_type(expr),
        GenericArgV::Lifetime { name } => name,
        GenericArgV::Const { expr } => expr,
    }
}

/// Rendering of a `", "`-joined generic-argument list, from position `i` on.
pub open spec fn spec_render_arg_list(args: Seq<GenericArgV>, i: int) -> Seq<char>
    decreases args, args.len() - i, 4int,
{
    if i < 0 || i >= args.len() {
        Seq::empty()
    } else {
        (if i > 0 {
            ", "@
        } else {
            Seq::empty()
        }) + spec_render_arg(args[i]) + spec_render_arg_list(args, i + 1)
    }
}

/// Rendering of angle-bracketed generic arguments: empty for a missing or
/// empty or parenthesized argument list, else the joined arguments in
/// angle brackets. Associated-type bindings are not rendered.
pub open spec fn spec_render_args(a: GenericArgsV) -> Seq<char>
    decreases a, 5int,
{
    match a {
        GenericArgsV::AngleBracketed { args, bindings } => if args.len() == 0 {
            Seq::empty()
        } else {
            "<"@ + spec_render_arg_list(args, 0) + ">"@
        },
        GenericArgsV::Parenthesized { inputs, output } => Seq::empty(),
    }
}

pub open spec fn spec_render_opt_args(a: Option<GenericArgsV>) -> Seq<char>
    decreases a, 6int,
{
    match a {
        Some(x) => spec_render_args(x),
        None => Seq::empty(),
    }
}

/// The `" + "`-joined bound names of an `impl Trait` type; bound
/// arguments are not rendered there.
pub open spec fn spec_render_bound_names(bounds: Seq<TraitBoundV>, i: int) -> Seq<char>
    decreases bounds.len() - i,
{
    if i < 0 || i >= bounds.len() {
        Seq::empty()
    } else {
        (if i > 0 {
            " + "@
        } else {
            Seq::empty()
        }) + bounds[i].trait_path.name + spec_render_bound_names(bounds, i + 1)
    }
}

/// The `" + "`-joined bounds of a `dyn Trait` type, each with its
/// rendered arguments.
pub open spec fn spec_render_bounds_full(bounds: Seq<TraitBoundV>, i: int) -> Seq<char>
    decreases bounds, bounds.len() - i, 7int,
{
    if i < 0 || i >= bounds.len() {
        Seq::empty()
    } else {
        (if i > 0 {
            " + "@
        } else {
            Seq::empty()
        }) + bounds[i].trait_path.name + spec_render_opt_args(bounds[i].trait_path.args)
            + spec_render_bounds_full(bounds, i + 1)
    }
}

/// The `", "`-joined renderings of tuple elements, from position `i` on.
pub open spec fn spec_render_tuple_elems(elems: Seq<TypeExprV>, i: int) -> Seq<char>
    decreases elems, elems.len() - i, 8int,
{
    if i < 0 || i >= elems.len() {
        Seq::empty()
    } else {
        (if i > 0 {
            ", "@
        } else {
            Seq::empty()
        }) + spec_render_type(elems[i]) + spec_render_tuple_elems(elems, i + 1)
    }
}

/// The canonical textual form of a type expression, mirroring the
/// declaration syntax of the documented crate.
pub open spec fn spec_render_type(t: TypeExprV) -> Seq<char>
    decreases t, 9int,
{
    match t {
        TypeExprV::Primitive { name } => name,
        TypeExprV::Generic { name } => name,
        TypeExprV::ResolvedPath { path } => path.name + spec_render_opt_args(path.args),
        TypeExprV::BorrowedRef { lifetime, mutable, inner } => (match lifetime {
            Some(lt) => "&"@ + lt + " "@,
            None => "&"@,
        }) + (if mutable {
            "mut "@
        } else {
            Seq::empty()
        }) + spec_render_type(*inner),
        TypeExprV::Slice { inner } => "["@ + spec_render_type(*inner) + "]"@,
        TypeExprV::Array { inner, len } => "["@ + spec_render_type(*inner) + "; "@ + len
            + "]"@,
        TypeExprV::RawPointer { mutable, inner } => (if mutable {
            "*mut "@
        } else {
            "*const "@
        }) + spec_render_type(*inner),
        TypeExprV::ImplTrait { bounds } => "impl "@ + spec_render_bound_names(bounds, 0),
        TypeExprV::DynTrait { lifetime, bounds } => "dyn "@ + spec_render_bounds_full(bounds, 0),
        TypeExprV::QualifiedPath { name, args, self_type, trait_path } => name
            + spec_render_opt_args(args),
        TypeExprV::Tuple { elems } => if elems.len() == 0 {
            "()"@
        } else {
            "("@ + spec_render_tuple_elems(elems, 0) + ")"@
        },
        TypeExprV::SelfType => "Self"@,
        TypeExprV::Unrecognized => "/* unknown type */"@,
    }
}

// ---------------------------------------------------------------------------
// Executable renderer.
// ---------------------------------------------------------------------------

#[verifier::loop_isolation(false)]
pub fn append_arg_list(out: &mut String, args: &Vec<GenericArg>, i: usize)
    requires
        i <= args@.len(),
    ensures
        final(out)@ == old(out)@ + spec_render_arg_list(view_arg_seq(args@), i as int),
    decreases *args, args@.len() - i, 10int,
{
    proof {
        lemma_view_arg_seq_index(args@);
    }
    if i == args.len() {
        proof {
            assert(old(out)@ + spec_render_arg_list(view_arg_seq(args@), i as int) =~= old(
                out,
            )@);
        }
    } else {
        if i > 0 {
            out.append(", ");
        }
        proof {
            assert(decreases_to!(*args => (*args)@));
            assert(decreases_to!((*args)@ => (*args)@[i as int]));
            assert(decreases_to!(*args => args@[i as int]));
        }
        append_arg(out, &args[i]);
        append_arg_list(out, args, i + 1);
        proof {
            assert(out@ =~= old(out)@ + spec_render_arg_list(view_arg_seq(args@), i as int));
        }
    }
}

pub fn append_arg(out: &mut String, g: &GenericArg)
    ensures
        final(out)@ == old(out)@ + spec_render_arg(view_arg(*g)),
    decreases *g, 11int,
{
    match g {
        GenericArg::Type { expr } => {
            append_type(out, expr);
        },
        GenericArg::Lifetime { name } => {
            out.append(name.as_str());
        },
        GenericArg::Const { expr } => {
            out.append(expr.as_str());
        },
    }
}

pub fn append_args(out: &mut String, a: &GenericArgs)
    ensures
        final(out)@ == old(out)@ + spec_render_args(view_args(*a)),
    decreases *a, 12int,
{
    match a {
        GenericArgs::AngleBracketed { args, bindings } => {
            proof {
                lemma_view_arg_seq_index(args@);
            }
            if args.len() == 0 {
            } else {
                out.append("<");
                append_arg_list(out, args, 0);
                out.append(">");
                proof {
                    assert(out@ =~= old(out)@ + spec_render_args(view_args(*a)));
                }
            }
        },
        GenericArgs::Parenthesized { inputs, output } => {
        },
    }
}

pub fn append_opt_args(out: &mut String, a: &Option<GenericArgs>)
    ensures
        final(out)@ == old(out)@ + spec_render_opt_args(view_opt_args(*a)),
    decreases *a, 13int,
{
    match a {
        Some(x) => {
            append_args(out, x);
        },
        None => {},
    }
}

#[verifier::loop_isolation(false)]
pub fn append_bound_names(out: &mut String, bounds: &Vec<TraitBound>, i: usize)
    requires
        i <= bounds@.len(),
    ensures
        final(out)@ == old(out)@ + spec_render_bound_names(view_bounds(bounds@), i as int),
    decreases bounds@.len() - i,
{
    proof {
        lemma_view_bounds_index(bounds@);
    }
    if i == bounds.len() {
        proof {
            assert(old(out)@ + spec_render_bound_names(view_bounds(bounds@), i as int) =~= old(
                out,
            )@);
        }
    } else {
        if i > 0 {
            out.append(" + ");
        }
        out.append(bounds[i].trait_path.name.as_str());
        append_bound_names(out, bounds, i + 1);
        proof {
            assert(out@ =~= old(out)@ + spec_render_bound_names(view_bounds(bounds@), i as int));
        }
    }
}

#[verifier::loop_isolation(false)]
pub fn append_bounds_full(out: &mut String, bounds: &Vec<TraitBound>, i: usize)
    requires
        i <= bounds@.len(),
    ensures
        final(out)@ == old(out)@ + spec_render_bounds_full(view_bounds(bounds@), i as int),
    decreases *bounds, bounds@.len() - i, 14int,
{
    proof {
        lemma_view_bounds_index(bounds@);
    }
    if i == bounds.len() {
        proof {
            assert(old(out)@ + spec_render_bounds_full(view_bounds(bounds@), i as int) =~= old(
                out,
            )@);
        }
    } else {
        if i > 0 {
            out.append(" + ");
        }
        out.append(bounds[i].trait_path.name.as_str());
        proof {
            assert(decreases_to!(*bounds => (*bounds)@));
            assert(decreases_to!((*bounds)@ => (*bounds)@[i as int]));
            assert(decreases_to!((*bounds)@[i as int] => (*bounds)@[i as int].trait_path));
            assert(decreases_to!((*bounds)@[i as int].trait_path => (*bounds)@[i as int].trait_path.args));
            assert(decreases_to!(*bounds => bounds@[i as int].trait_path.args));
        }
        append_opt_args(out, &bounds[i].trait_path.args);
        append_bounds_full(out, bounds, i + 1);
        proof {
            assert(out@ =~= old(out)@ + spec_render_bounds_full(view_bounds(bounds@), i as int));
        }
    }
}

#[verifier::loop_isolation(false)]
pub fn append_tuple_elems(out: &mut String, elems: &Vec<TypeExpr>, i: usize)
    requires
        i <= elems@.len(),
    ensures
        final(out)@ == old(out)@ + spec_render_tuple_elems(view_types(elems@), i as int),
    decreases *elems, elems@.len() - i, 15int,
{
    proof {
        lemma_view_types_index(elems@);
    }
    if i == elems.len() {
        proof {
            assert(old(out)@ + spec_render_tuple_elems(view_types(elems@), i as int) =~= old(
                out,
            )@);
        }
    } else {
        if i > 0 {
            out.append(", ");
        }
        proof {
            assert(decreases_to!(*elems => (*elems)@));
            assert(decreases_to!((*elems)@ => (*elems)@[i as int]));
            assert(decreases_to!(*elems => elems@[i as int]));
        }
        append_type(out, &elems[i]);
        append_tuple_elems(out, elems, i + 1);
        proof {
            assert(out@ =~= old(out)@ + spec_render_tuple_elems(view_types(elems@), i as int));
        }
    }
}

/// Appends the canonical textual form of a type expression.
pub fn append_type(out: &mut String, t: &TypeExpr)
    ensures
        final(out)@ == old(out)@ + spec_render_type(t.deep_view()),
    decreases *t, 16int,
{
    match t {
        TypeExpr::Primitive { name } => {
            out.append(name.as_str());
        },
        TypeExpr::Generic { name } => {
            out.append(name.as_str());
        },
        TypeExpr::ResolvedPath { path } => {
            out.append(path.name.as_str());
            append_opt_args(out, &path.args);
            proof {
                assert(*t == (TypeExpr::ResolvedPath { path: *path }));
                assert(t.deep_view() == (TypeExprV::ResolvedPath { path: view_path(*path) }));
                assert(spec_render_type(t.deep_view()) == view_path(*path).name
                    + spec_render_opt_args(view_path(*path).args));
                assert(out@ =~= old(out)@ + spec_render_type(t.deep_view()));
            }
        },
        TypeExpr::BorrowedRef { lifetime, mutable, inner } => {
            match lifetime {
                Some(lt) => {
                    out.append("&");
                    out.append(lt.as_str());
                    out.append(" ");
                },
                None => {
                    out.append("&");
                },
            }
            if *mutable {
                out.append("mut ");
            }
            append_type(out, inner);
            proof {
                assert(out@ =~= old(out)@ + spec_render_type(t.deep_view()));
            }
        },
        TypeExpr::Slice { inner } => {
            out.append("[");
            append_type(out, inner);
            out.append("]");
            proof {
                assert(out@ =~= old(out)@ + spec_render_type(t.deep_view()));
            }
        },
        TypeExpr::Array { inner, len } => {
            out.append("[");
            append_type(out, inner);
            out.append("; ");
            out.append(len.as_str());
            out.append("]");
            proof {
                assert(out@ =~= old(out)@ + spec_render_type(t.deep_view()));
            }
        },
        TypeExpr::RawPointer { mutable, inner } => {
            if *mutable {
                out.append("*mut ");
            } else {
                out.append("*const ");
            }
            append_type(out, inner);
            proof {
                assert(out@ =~= old(out)@ + spec_render_type(t.deep_view()));
            }
        },
        TypeExpr::ImplTrait { bounds } => {
            out.append("impl ");
            append_bound_names(out, bounds, 0);
            proof {
                assert(out@ =~= old(out)@ + spec_render_type(t.deep_view()));
            }
        },
        TypeExpr::DynTrait { lifetime, bounds } => {
            out.append("dyn ");
            append_bounds_full(out, bounds, 0);
            proof {
                assert(out@ =~= old(out)@ + spec_render_type(t.deep_view()));
            }
        },
        TypeExpr::QualifiedPath { name, args, self_type, trait_path } => {
            out.append(name.as_str());
            append_opt_args(out, args);
            proof {
                assert(out@ =~= old(out)@ + spec_render_type(t.deep_view()));
            }
        },
        TypeExpr::Tuple { elems } => {
            proof {
                lemma_view_types_index(elems@);
            }
            if elems.len() == 0 {
                out.append("()");
            } else {
                out.append("(");
                append_tuple_elems(out, elems, 0);
                out.append(")");
                proof {
                    assert(out@ =~= old(out)@ + spec_render_type(t.deep_view()));
                }
            }
        },
        TypeExpr::SelfType => {
            out.append("Self");
        },
        TypeExpr::Unrecognized => {
            out.append("/* unknown type */");
        },
    }
}

/// Renders a type expression to a fresh string. Total: every grammar
/// value, however deeply nested, has a rendering.
pub fn render_type(t: &TypeExpr) -> (r: String)
    ensures
        r@ == spec_render_type(t.deep_view()),
{
    let mut out = String::new();
    append_type(&mut out, t);
    out
}

} // verus!
