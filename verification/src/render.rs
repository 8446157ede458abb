//! Rendering the generated output as source text.
//!
//! [`spec_render`] fixes, character for character, the `impl` block the
//! generator emits for a record: a `new` constructor whose parameters are
//! the required fields, a record literal initialising every field, and one
//! `with_` builder method per optional or value-supplied field.  The
//! executable [`render`] is verified to produce exactly that text.

use crate::model::FieldInit;
use crate::model::FieldInitView;
use crate::model::GenView;
use crate::model::Generated;
use crate::model::Init;
use crate::model::InitView;
use crate::model::Param;
use crate::model::ParamView;
use crate::model::WithMethod;
use crate::model::WithMethodView;
use vstd::prelude::*;
use vstd::string::StringExecFns;

verus! {

// ---------------------------------------------------------------------------
// Specification
// ---------------------------------------------------------------------------

/// The pieces, joined with the separator between consecutive ones.
pub open spec fn spec_join(items: Seq<Seq<char>>, sep: Seq<char>) -> Seq<char>
    decreases items.len(),
{
    if items.len() == 0 {
        Seq::empty()
    } else if items.len() == 1 {
        items[0]
    } else {
        items[0] + sep + spec_join(items.drop_first(), sep)
    }
}

/// The text of one constructor parameter: `name: ty`.
pub open spec fn render_param(p: ParamView) -> Seq<char> {
    p.name + ": "@ + p.ty
}

/// The text of one field initialiser.
pub open spec fn render_init(fi: FieldInitView) -> Seq<char> {
    match fi.init {
        InitView::Given(code) => fi.name + ": "@ + code,
        InitView::WrapParam => fi.name + ": Some("@ + fi.name + ")"@,
        InitView::Unset => fi.name + ": None"@,
        InitView::FromParam => fi.name + ": "@ + fi.name,
    }
}

/// The text of one builder method.
pub open spec fn render_with(w: WithMethodView) -> Seq<char> {
    "#[inline] pub fn "@ + w.method_name + "(mut self, value: "@ + w.value_ty
        + ") -> Self { self."@ + w.field + " = "@ + (if w.wraps {
        "Some(value)"@
    } else {
        "value"@
    }) + "; self } "@
}

/// The whole emitted `impl` block for a generated output.
pub open spec fn spec_render(g: GenView) -> Seq<char> {
    "impl "@ + g.target + " { pub fn new("@ + spec_join(
        g.params.map_values(|p: ParamView| render_param(p)),
        ", "@,
    ) + ") -> Self { "@ + g.target + " { "@ + spec_join(
        g.inits.map_values(|fi: FieldInitView| render_init(fi)),
        ", "@,
    ) + " } } "@ + spec_join(g.withs.map_values(|w: WithMethodView| render_with(w)), ""@) + "}"@
}

/// Joining after one more piece appends the separator (when anything came
/// before) and then the piece.
proof fn lemma_join_push(s: Seq<Seq<char>>, x: Seq<char>, sep: Seq<char>)
    ensures
        spec_join(s.push(x), sep) == if s.len() == 0 {
            x
        } else {
            spec_join(s, sep) + sep + x
        },
    decreases s.len(),
{
    if s.len() == 0 {
        assert(s.push(x).len() == 1);
        assert(s.push(x)[0] == x);
    } else {
        assert(s.push(x)[0] == s[0]);
        assert(s.push(x).drop_first() =~= s.drop_first().push(x));
        lemma_join_push(s.drop_first(), x, sep);
        if s.len() > 1 {
            assert((s[0] + sep + ((spec_join(s.drop_first(), sep) + sep) + x)) =~= ((s[0] + sep
                + spec_join(s.drop_first(), sep)) + sep + x));
        }
    }
}

// ---------------------------------------------------------------------------
// Executable code
// ---------------------------------------------------------------------------

/// Joins rendered pieces with a separator.
fn join_strings(items: &Vec<String>, sep: &str) -> (r: String)
    ensures
        r@ == spec_join(items.deep_view(), sep@),
{
    let ghost dv = items.deep_view();
    let mut r = String::new();
    proof {
        assert(dv.take(0) =~= Seq::<Seq<char>>::empty());
    }
    let mut i: usize = 0;
    while i < items.len()
        invariant
            0 <= i <= items.len(),
            dv == items.deep_view(),
            dv.len() == items.len(),
            r@ == spec_join(dv.take(i as int), sep@),
        decreases items.len() - i,
    {
        if i > 0 {
            r.append(sep);
        }
        r.append(items[i].as_str());
        proof {
            assert(dv.take(i as int + 1) =~= dv.take(i as int).push(dv[i as int]));
            assert(dv.take(i as int).len() == i as int);
            lemma_join_push(dv.take(i as int), dv[i as int], sep@);
            assert(r@ =~= spec_join(dv.take(i as int + 1), sep@));
        }
        i = i + 1;
    }
    proof {
        assert(dv.take(i as int) =~= dv);
    }
    r
}

/// Renders one constructor parameter.
fn render_param_s(p: &Param) -> (r: String)
    ensures
        r@ == render_param(p@),
{
    let mut r = p.name.clone();
    r.append(": ");
    r.append(p.ty.as_str());
    r
}

/// Renders one field initialiser.
fn render_init_s(fi: &FieldInit) -> (r: String)
    ensures
        r@ == render_init(fi@),
{
    let mut r = fi.name.clone();
    match &fi.init {
        Init::Given(code) => {
            r.append(": ");
            r.append(code.as_str());
        },
        Init::WrapParam => {
            r.append(": Some(");
            r.append(fi.name.as_str());
            r.append(")");
        },
        Init::Unset => {
            r.append(": None");
        },
        Init::FromParam => {
            r.append(": ");
            r.append(fi.name.as_str());
        },
    }
    r
}

/// Renders one builder method.
fn render_with_s(w: &WithMethod) -> (r: String)
    ensures
        r@ == render_with(w@),
{
    let mut r = String::from_str("#[inline] pub fn ");
    r.append(w.method_name.as_str());
    r.append("(mut self, value: ");
    r.append(w.value_ty.as_str());
    r.append(") -> Self { self.");
    r.append(w.field.as_str());
    r.append(" = ");
    if w.wraps {
        r.append("Some(value)");
    } else {
        r.append("value");
    }
    r.append("; self } ");
    r
}

/// Renders every constructor parameter, in order.
fn render_params(params: &Vec<Param>) -> (r: Vec<String>)
    ensures
        r.deep_view() == params.deep_view().map_values(|p: ParamView| render_param(p)),
{
    let ghost dv = params.deep_view();
    let ghost goal = dv.map_values(|p: ParamView| render_param(p));
    let mut out: Vec<String> = Vec::new();
    let mut i: usize = 0;
    while i < params.len()
        invariant
            0 <= i <= params.len(),
            dv == params.deep_view(),
            dv.len() == params.len(),
            goal == dv.map_values(|p: ParamView| render_param(p)),
            out.deep_view() =~= goal.take(i as int),
        decreases params.len() - i,
    {
        let s = render_param_s(&params[i]);
        let ghost out0 = out.deep_view();
        let ghost sv = s@;
        out.push(s);
        proof {
            assert forall|k: int| 0 <= k < out@.len() implies out.deep_view()[k] == out0.push(
                sv,
            )[k] by {
                assert(out.deep_view()[k] == out@[k].deep_view());
                if k < out0.len() {
                    assert(out0[k] == out@[k].deep_view());
                }
            }
            assert(out.deep_view() =~= out0.push(sv));
            assert(goal[i as int] == render_param(dv[i as int]));
            assert(out.deep_view() =~= goal.take(i as int + 1));
        }
        i = i + 1;
    }
    proof {
        assert(goal.take(i as int) =~= goal);
    }
    out
}

/// Renders every field initialiser, in order.
fn render_inits(inits: &Vec<FieldInit>) -> (r: Vec<String>)
    ensures
        r.deep_view() == inits.deep_view().map_values(|fi: FieldInitView| render_init(fi)),
{
    let ghost dv = inits.deep_view();
    let ghost goal = dv.map_values(|fi: FieldInitView| render_init(fi));
    let mut out: Vec<String> = Vec::new();
    let mut i: usize = 0;
    while i < inits.len()
        invariant
            0 <= i <= inits.len(),
            dv == inits.deep_view(),
            dv.len() == inits.len(),
            goal == dv.map_values(|fi: FieldInitView| render_init(fi)),
            out.deep_view() =~= goal.take(i as int),
        decreases inits.len() - i,
    {
        let s = render_init_s(&inits[i]);
        let ghost out0 = out.deep_view();
        let ghost sv = s@;
        out.push(s);
        proof {
            assert forall|k: int| 0 <= k < out@.len() implies out.deep_view()[k] == out0.push(
                sv,
            )[k] by {
                assert(out.deep_view()[k] == out@[k].deep_view());
                if k < out0.len() {
                    assert(out0[k] == out@[k].deep_view());
                }
            }
            assert(out.deep_view() =~= out0.push(sv));
            assert(goal[i as int] == render_init(dv[i as int]));
            assert(out.deep_view() =~= goal.take(i as int + 1));
        }
        i = i + 1;
    }
    proof {
        assert(goal.take(i as int) =~= goal);
    }
    out
}

/// Renders every builder method, in order.
fn render_withs(withs: &Vec<WithMethod>) -> (r: Vec<String>)
    ensures
        r.deep_view() == withs.deep_view().map_values(|w: WithMethodView| render_with(w)),
{
    let ghost dv = withs.deep_view();
    let ghost goal = dv.map_values(|w: WithMethodView| render_with(w));
    let mut out: Vec<String> = Vec::new();
    let mut i: usize = 0;
    while i < withs.len()
        invariant
            0 <= i <= withs.len(),
            dv == withs.deep_view(),
            dv.len() == withs.len(),
            goal == dv.map_values(|w: WithMethodView| render_with(w)),
            out.deep_view() =~= goal.take(i as int),
        decreases withs.len() - i,
    {
        let s = render_with_s(&withs[i]);
        let ghost out0 = out.deep_view();
        let ghost sv = s@;
        out.push(s);
        proof {
            assert forall|k: int| 0 <= k < out@.len() implies out.deep_view()[k] == out0.push(
                sv,
            )[k] by {
                assert(out.deep_view()[k] == out@[k].deep_view());
                if k < out0.len() {
                    assert(out0[k] == out@[k].deep_view());
                }
            }
            assert(out.deep_view() =~= out0.push(sv));
            assert(goal[i as int] == render_with(dv[i as int]));
            assert(out.deep_view() =~= goal.take(i as int + 1));
        }
        i = i + 1;
    }
    proof {
        assert(goal.take(i as int) =~= goal);
    }
    out
}

/// Renders the whole emitted `impl` block for a generated output.
pub fn render(g: &Generated) -> (r: String)
    ensures
        r@ == spec_render(g@),
{
    let params_s = render_params(&g.params);
    let inits_s = render_inits(&g.inits);
    let withs_s = render_withs(&g.withs);
    let params_j = join_strings(&params_s, ", ");
    let inits_j = join_strings(&inits_s, ", ");
    let withs_j = join_strings(&withs_s, "");
    let mut r = String::from_str("impl ");
    r.append(g.target.as_str());
    r.append(" { pub fn new(");
    r.append(params_j.as_str());
    r.append(") -> Self { ");
    r.append(g.target.as_str());
    r.append(" { ");
    r.append(inits_j.as_str());
    r.append(" } } ");
    r.append(withs_j.as_str());
    r.append("}");
    r
}

} // verus!
