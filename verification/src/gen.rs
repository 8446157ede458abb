//! The generation step: from a record declaration to the constructor,
//! field initialisers and builder methods the generator emits for it.
//!
//! The meaning of the step is fixed by the spec functions here
//! ([`spec_generate`] above all); the executable [`generate`] is verified
//! against them.  For each field the generator first scans the field's
//! attributes (a value attribute supplies the initialiser, a required
//! attribute makes an optional field a constructor parameter), then looks
//! at the shape of the field's type: a one-segment `Option<..>` path makes
//! the field optional, any other path type makes it a plain field, and a
//! plain field may not follow an optional one.

use crate::model::AttrShape;
use crate::model::AttrView;
use crate::model::FieldInit;
use crate::model::FieldInitView;
use crate::model::FieldModel;
use crate::model::FieldView;
use crate::model::GenError;
use crate::model::GenView;
use crate::model::Generated;
use crate::model::Init;
use crate::model::InitView;
use crate::model::InputModel;
use crate::model::InputView;
use crate::model::Param;
use crate::model::ParamView;
use crate::model::TypeShape;
use crate::model::TypeView;
use crate::model::WithMethod;
use crate::model::WithMethodView;
use vstd::prelude::*;
use vstd::string::StringExecFns;

verus! {

// ---------------------------------------------------------------------------
// Specification
// ---------------------------------------------------------------------------

/// The name of the attribute that supplies a field's initialiser.
pub open spec fn value_attr_name() -> Seq<char> {
    "auto_new_value"@
}

/// The name of the attribute that makes an optional field required.
pub open spec fn required_attr_name() -> Seq<char> {
    "auto_new_required"@
}

/// What the attribute scan of one field decides.
#[verifier::ext_equal]
pub ghost enum DecisionView {
    /// A value attribute supplied this initialiser code.
    Given(Seq<char>),
    /// A required attribute was present.
    Required,
    /// No relevant attribute was present.
    Plain,
    /// A value attribute's value is not a literal.
    Invalid,
    /// A value attribute's string content does not lex as tokens.
    Unlexable,
}

/// The decision the first relevant attribute makes.  The scan walks the
/// attributes in order and stops at the first value attribute (whose
/// literal supplies the initialiser code: a string literal by its content,
/// which must lex as a token stream, any other literal by its source
/// text) or the first required attribute.
pub open spec fn spec_decision(attrs: Seq<AttrView>) -> DecisionView
    decreases attrs.len(),
{
    if attrs.len() == 0 {
        DecisionView::Plain
    } else {
        match attrs[0] {
            AttrView::LitStr { name, content, lexable } => if name == value_attr_name() {
                if lexable {
                    DecisionView::Given(content)
                } else {
                    DecisionView::Unlexable
                }
            } else {
                spec_decision(attrs.drop_first())
            },
            AttrView::LitOther { name, text } => if name == value_attr_name() {
                DecisionView::Given(text)
            } else {
                spec_decision(attrs.drop_first())
            },
            AttrView::ExprOther { name } => if name == value_attr_name() {
                DecisionView::Invalid
            } else {
                spec_decision(attrs.drop_first())
            },
            AttrView::Word { name } => if name == required_attr_name() {
                DecisionView::Required
            } else {
                spec_decision(attrs.drop_first())
            },
            AttrView::Opaque => spec_decision(attrs.drop_first()),
        }
    }
}

/// The three streams a field contributes to the generated output.
#[verifier::ext_equal]
pub ghost struct PartsView {
    pub params: Seq<ParamView>,
    pub inits: Seq<FieldInitView>,
    pub withs: Seq<WithMethodView>,
}

/// The contribution of no field at all.
pub open spec fn empty_parts() -> PartsView {
    PartsView { params: Seq::empty(), inits: Seq::empty(), withs: Seq::empty() }
}

/// Contributions of consecutive fields, streamwise in order.
pub open spec fn concat_parts(a: PartsView, b: PartsView) -> PartsView {
    PartsView { params: a.params + b.params, inits: a.inits + b.inits, withs: a.withs + b.withs }
}

/// The builder-method name for a field: `with_` followed by the field name.
pub open spec fn spec_with_name(field: Seq<char>) -> Seq<char> {
    "with_"@ + field
}

/// Whether a path type is the one-segment path `Option`.
pub open spec fn spec_is_option(segments: Seq<Seq<char>>) -> bool {
    segments.len() == 1 && segments[0] == "Option"@
}

/// What an optional field `name: Option<inner>` contributes.  A value
/// attribute initialises the field by its code; a required attribute makes
/// the inner type a constructor parameter and wraps it; otherwise the
/// field starts unset.  Every optional field gets a wrapping builder
/// method over the inner type.
pub open spec fn spec_option_field(
    name: Seq<char>,
    inner: Seq<char>,
    decision: DecisionView,
) -> PartsView {
    let with_fn = WithMethodView {
        method_name: spec_with_name(name),
        field: name,
        value_ty: inner,
        wraps: true,
    };
    match decision {
        DecisionView::Given(code) => (PartsView {
            params: Seq::empty(),
            inits: seq![FieldInitView { name, init: InitView::Given(code) }],
            withs: seq![with_fn],
        }),
        DecisionView::Required => (PartsView {
            params: seq![ParamView { name, ty: inner }],
            inits: seq![FieldInitView { name, init: InitView::WrapParam }],
            withs: seq![with_fn],
        }),
        _ => (PartsView {
            params: Seq::empty(),
            inits: seq![FieldInitView { name, init: InitView::Unset }],
            withs: seq![with_fn],
        }),
    }
}

/// What a plain (non-`Option`) field of path type `text` contributes.  A
/// value attribute initialises the field by its code and gets a
/// non-wrapping builder method; otherwise the field is a constructor
/// parameter and gets no builder method.
pub open spec fn spec_plain_field(
    name: Seq<char>,
    text: Seq<char>,
    decision: DecisionView,
) -> PartsView {
    match decision {
        DecisionView::Given(code) => (PartsView {
            params: Seq::empty(),
            inits: seq![FieldInitView { name, init: InitView::Given(code) }],
            withs: seq![
                WithMethodView {
                    method_name: spec_with_name(name),
                    field: name,
                    value_ty: text,
                    wraps: false,
                }
            ],
        }),
        _ => (PartsView {
            params: seq![ParamView { name, ty: text }],
            inits: seq![FieldInitView { name, init: InitView::FromParam }],
            withs: Seq::empty(),
        }),
    }
}

/// What the generator does with one field, given whether an optional field
/// has been seen before it: the field's contribution and the updated flag,
/// or the error that rejects the declaration.  A field without a name is
/// rejected first, then the attribute scan is checked, then the shape of
/// the type; a one-segment `Option` path must carry exactly one
/// angle-bracketed argument, a field of non-path type is rejected, and a
/// plain field after an optional one is rejected.
pub open spec fn spec_field(f: FieldView, opt_started: bool) -> Result<(PartsView, bool), GenError> {
    match f.name {
        Option::None => Err(GenError::UnnamedField),
        Option::Some(name) => {
            let decision = spec_decision(f.attrs);
            if decision is Invalid {
                Err(GenError::ValueNotLiteral)
            } else if decision is Unlexable {
                Err(GenError::ValueUnlexable)
            } else {
                match f.shape {
                    TypeView::Opaque => Err(GenError::UnsupportedType),
                    TypeView::Path { segments, type_args, text } => if spec_is_option(segments) {
                        match type_args {
                            Option::None => Err(GenError::OptionFormat),
                            Option::Some(args) => if args.len() != 1 {
                                Err(GenError::OptionArity)
                            } else {
                                Ok((spec_option_field(name, args[0], decision), true))
                            },
                        }
                    } else {
                        if opt_started {
                            Err(GenError::OptionalNotLast)
                        } else {
                            Ok((spec_plain_field(name, text, decision), false))
                        }
                    },
                }
            }
        },
    }
}

/// The combined contribution of a sequence of fields, walked in order.
pub open spec fn spec_fields(fields: Seq<FieldView>, opt_started: bool) -> Result<
    PartsView,
    GenError,
>
    decreases fields.len(),
{
    if fields.len() == 0 {
        Ok(empty_parts())
    } else {
        match spec_field(fields[0], opt_started) {
            Err(e) => Err(e),
            Ok(head) => match spec_fields(fields.drop_first(), head.1) {
                Err(e) => Err(e),
                Ok(rest) => Ok(concat_parts(head.0, rest)),
            },
        }
    }
}

/// The whole generation step for a record declaration.
pub open spec fn spec_generate(m: InputView) -> Result<GenView, GenError> {
    match spec_fields(m.fields, false) {
        Err(e) => Err(e),
        Ok(parts) => Ok(
            GenView {
                target: m.name,
                params: parts.params,
                inits: parts.inits,
                withs: parts.withs,
            },
        ),
    }
}

// ---------------------------------------------------------------------------
// Laws
// ---------------------------------------------------------------------------

/// Whenever a sequence of fields generates, it contributes exactly one
/// initialiser per field, in order, under the fields' names.
proof fn lemma_fields_inits(fields: Seq<FieldView>, opt_started: bool)
    requires
        spec_fields(fields, opt_started) is Ok,
    ensures
        spec_fields(fields, opt_started)->Ok_0.inits.len() == fields.len(),
        forall|i: int|
            0 <= i < fields.len() ==> fields[i].name == Some(
                spec_fields(fields, opt_started)->Ok_0.inits[i].name,
            ),
    decreases fields.len(),
{
    if fields.len() > 0 {
        let head = spec_field(fields[0], opt_started)->Ok_0;
        lemma_fields_inits(fields.drop_first(), head.1);
        let rest = spec_fields(fields.drop_first(), head.1)->Ok_0;
        assert(head.0.inits.len() == 1 && fields[0].name == Some(head.0.inits[0].name));
        assert(spec_fields(fields, opt_started)->Ok_0.inits == head.0.inits + rest.inits);
        assert forall|i: int| 0 <= i < fields.len() implies fields[i].name == Some(
            spec_fields(fields, opt_started)->Ok_0.inits[i].name,
        ) by {
            if i > 0 {
                assert((head.0.inits + rest.inits)[i] == rest.inits[i - 1]);
                assert(fields.drop_first()[i - 1] == fields[i]);
            }
        }
    }
}

/// Whenever a sequence of fields generates, every builder method it
/// contributes is named after the field it sets.
proof fn lemma_fields_withs(fields: Seq<FieldView>, opt_started: bool)
    requires
        spec_fields(fields, opt_started) is Ok,
    ensures
        forall|i: int|
            0 <= i < spec_fields(fields, opt_started)->Ok_0.withs.len() ==> spec_fields(
                fields,
                opt_started,
            )->Ok_0.withs[i].method_name == spec_with_name(
                spec_fields(fields, opt_started)->Ok_0.withs[i].field,
            ),
    decreases fields.len(),
{
    if fields.len() > 0 {
        let head = spec_field(fields[0], opt_started)->Ok_0;
        lemma_fields_withs(fields.drop_first(), head.1);
        let rest = spec_fields(fields.drop_first(), head.1)->Ok_0;
        assert forall|i: int| 0 <= i < (head.0.withs + rest.withs).len() implies (head.0.withs
            + rest.withs)[i].method_name == spec_with_name(
            (head.0.withs + rest.withs)[i].field,
        ) by {
            if i >= head.0.withs.len() {
                assert((head.0.withs + rest.withs)[i] == rest.withs[i - head.0.withs.len()]);
            }
        }
    }
}

/// Every emitted builder method is named `with_` followed by the name of
/// the field it sets.
pub proof fn lemma_with_names(m: InputView)
    requires
        spec_generate(m) is Ok,
    ensures
        forall|i: int|
            0 <= i < spec_generate(m)->Ok_0.withs.len() ==> spec_generate(
                m,
            )->Ok_0.withs[i].method_name == spec_with_name(spec_generate(m)->Ok_0.withs[i].field),
{
    lemma_fields_withs(m.fields, false);
}

/// Whether a field is optional: its type is a one-segment `Option` path.
pub open spec fn spec_is_optional_field(f: FieldView) -> bool {
    match f.shape {
        TypeView::Path { segments, .. } => spec_is_option(segments),
        TypeView::Opaque => false,
    }
}

/// Whenever a sequence of fields generates, no plain field follows an
/// optional one; and once an optional field has been seen, every field
/// is optional.
proof fn lemma_fields_optionals_last(fields: Seq<FieldView>, opt_started: bool)
    requires
        spec_fields(fields, opt_started) is Ok,
    ensures
        forall|i: int, j: int|
            0 <= i < j < fields.len() && spec_is_optional_field(fields[i])
                ==> spec_is_optional_field(fields[j]),
        opt_started ==> forall|i: int| 0 <= i < fields.len() ==> spec_is_optional_field(fields[i]),
    decreases fields.len(),
{
    if fields.len() > 0 {
        let head = spec_field(fields[0], opt_started)->Ok_0;
        lemma_fields_optionals_last(fields.drop_first(), head.1);
        assert forall|i: int, j: int|
            0 <= i < j < fields.len() && spec_is_optional_field(
                fields[i],
            ) implies spec_is_optional_field(fields[j]) by {
            assert(fields.drop_first()[j - 1] == fields[j]);
            if i > 0 {
                assert(fields.drop_first()[i - 1] == fields[i]);
            }
        }
        if opt_started {
            assert forall|i: int| 0 <= i < fields.len() implies spec_is_optional_field(
                fields[i],
            ) by {
                if i > 0 {
                    assert(fields.drop_first()[i - 1] == fields[i]);
                }
            }
        }
    }
}

/// In every declaration the generator accepts, the optional fields come
/// after all the plain ones.
pub proof fn lemma_optionals_last(m: InputView)
    requires
        spec_generate(m) is Ok,
    ensures
        forall|i: int, j: int|
            0 <= i < j < m.fields.len() && spec_is_optional_field(m.fields[i])
                ==> spec_is_optional_field(m.fields[j]),
{
    lemma_fields_optionals_last(m.fields, false);
}

/// Whatever declaration is generated for, the emitted constructor
/// initialises exactly the declared fields, in declaration order, under
/// their declared names.
pub proof fn lemma_inits_cover_fields(m: InputView)
    requires
        spec_generate(m) is Ok,
    ensures
        spec_generate(m)->Ok_0.inits.len() == m.fields.len(),
        forall|i: int|
            0 <= i < m.fields.len() ==> m.fields[i].name == Some(
                spec_generate(m)->Ok_0.inits[i].name,
            ),
{
    lemma_fields_inits(m.fields, false);
}

// ---------------------------------------------------------------------------
// Executable code
// ---------------------------------------------------------------------------

/// What the attribute scan decided, as executable data.
pub enum Decision {
    Given(String),
    Required,
    Plain,
    Invalid,
    Unlexable,
}

impl View for Decision {
    type V = DecisionView;

    open spec fn view(&self) -> DecisionView {
        match self {
            Decision::Given(code) => DecisionView::Given(code@),
            Decision::Required => DecisionView::Required,
            Decision::Plain => DecisionView::Plain,
            Decision::Invalid => DecisionView::Invalid,
            Decision::Unlexable => DecisionView::Unlexable,
        }
    }
}

/// Whether a string equals a literal, at the level of character sequences.
fn str_eq(a: &String, b: &str) -> (r: bool)
    ensures
        r == (a@ == b@),
{
    let bs = String::from_str(b);
    *a == bs
}

/// Builds the builder-method name for a field.
fn with_name(field: &String) -> (r: String)
    ensures
        r@ == spec_with_name(field@),
{
    let mut r = String::from_str("with_");
    r.append(field.as_str());
    r
}

/// Scans a field's attributes in order and returns the first relevant
/// decision.
pub fn scan_attrs(attrs: &Vec<AttrShape>) -> (r: Decision)
    ensures
        r@ == spec_decision(attrs.deep_view()),
{
    let ghost full = attrs.deep_view();
    proof {
        assert(full.skip(0) =~= full);
    }
    let mut i: usize = 0;
    while i < attrs.len()
        invariant
            0 <= i <= attrs.len(),
            full == attrs.deep_view(),
            full.len() == attrs.len(),
            spec_decision(full) == spec_decision(full.skip(i as int)),
        decreases attrs.len() - i,
    {
        proof {
            assert(full.skip(i as int)[0] == full[i as int]);
            assert(full.skip(i as int).drop_first() =~= full.skip(i as int + 1));
        }
        match &attrs[i] {
            AttrShape::LitStr { name, content, lexable } => {
                if str_eq(name, "auto_new_value") {
                    if *lexable {
                        return Decision::Given(content.clone());
                    } else {
                        return Decision::Unlexable;
                    }
                }
            },
            AttrShape::LitOther { name, text } => {
                if str_eq(name, "auto_new_value") {
                    return Decision::Given(text.clone());
                }
            },
            AttrShape::ExprOther { name } => {
                if str_eq(name, "auto_new_value") {
                    return Decision::Invalid;
                }
            },
            AttrShape::Word { name } => {
                if str_eq(name, "auto_new_required") {
                    return Decision::Required;
                }
            },
            AttrShape::Opaque => {},
        }
        i = i + 1;
    }
    proof {
        assert(full.skip(i as int) =~= Seq::<AttrView>::empty());
    }
    Decision::Plain
}

/// The pieces one field contributes, as executable data: at most one
/// constructor parameter, exactly one field initialiser, and at most one
/// builder method.
pub struct StepParts {
    pub param: Option<Param>,
    pub init: FieldInit,
    pub with_fn: Option<WithMethod>,
}

/// The contribution a [`StepParts`] stands for.
pub open spec fn step_parts_view(s: StepParts) -> PartsView {
    PartsView {
        params: match s.param {
            Option::Some(p) => seq![p@],
            Option::None => Seq::empty(),
        },
        inits: seq![s.init@],
        withs: match s.with_fn {
            Option::Some(w) => seq![w@],
            Option::None => Seq::empty(),
        },
    }
}

/// Builds the contribution of an optional field.
fn option_field_parts(name: &String, inner: String, decision: Decision) -> (r: StepParts)
    ensures
        step_parts_view(r) == spec_option_field(name@, inner@, decision@),
{
    let method_name = with_name(name);
    let wm = WithMethod { method_name, field: name.clone(), value_ty: inner.clone(), wraps: true };
    match decision {
        Decision::Given(code) => StepParts {
            param: None,
            init: FieldInit { name: name.clone(), init: Init::Given(code) },
            with_fn: Some(wm),
        },
        Decision::Required => StepParts {
            param: Some(Param { name: name.clone(), ty: inner }),
            init: FieldInit { name: name.clone(), init: Init::WrapParam },
            with_fn: Some(wm),
        },
        _ => StepParts {
            param: None,
            init: FieldInit { name: name.clone(), init: Init::Unset },
            with_fn: Some(wm),
        },
    }
}

/// Builds the contribution of a plain field of path type.
fn plain_field_parts(name: &String, text: String, decision: Decision) -> (r: StepParts)
    ensures
        step_parts_view(r) == spec_plain_field(name@, text@, decision@),
{
    match decision {
        Decision::Given(code) => StepParts {
            param: None,
            init: FieldInit { name: name.clone(), init: Init::Given(code) },
            with_fn: Some(
                WithMethod {
                    method_name: with_name(name),
                    field: name.clone(),
                    value_ty: text,
                    wraps: false,
                },
            ),
        },
        _ => StepParts {
            param: Some(Param { name: name.clone(), ty: text }),
            init: FieldInit { name: name.clone(), init: Init::FromParam },
            with_fn: None,
        },
    }
}

/// Whether a path type, given by its segment names, is `Option`.
fn is_option_path(segments: &Vec<String>) -> (r: bool)
    ensures
        r == spec_is_option(segments.deep_view()),
{
    segments.len() == 1 && str_eq(&segments[0], "Option")
}

/// Runs the generator on one field.
pub fn field_step(f: &FieldModel, opt_started: bool) -> (r: Result<(StepParts, bool), GenError>)
    ensures
        (match r {
            Ok(p) => spec_field(f@, opt_started) == Ok::<(PartsView, bool), GenError>(
                (step_parts_view(p.0), p.1),
            ),
            Err(e) => spec_field(f@, opt_started) == Err::<(PartsView, bool), GenError>(e),
        }),
{
    let name = match &f.name {
        Some(n) => n,
        None => {
            return Err(GenError::UnnamedField);
        },
    };
    let decision = scan_attrs(&f.attrs);
    if let Decision::Invalid = &decision {
        return Err(GenError::ValueNotLiteral);
    }
    if let Decision::Unlexable = &decision {
        return Err(GenError::ValueUnlexable);
    }
    match &f.shape {
        TypeShape::Opaque => Err(GenError::UnsupportedType),
        TypeShape::Path { segments, type_args, text } => {
            if is_option_path(segments) {
                match type_args {
                    None => Err(GenError::OptionFormat),
                    Some(args) => {
                        if args.len() != 1 {
                            Err(GenError::OptionArity)
                        } else {
                            let inner = args[0].clone();
                            Ok((option_field_parts(name, inner, decision), true))
                        }
                    },
                }
            } else {
                if opt_started {
                    Err(GenError::OptionalNotLast)
                } else {
                    Ok((plain_field_parts(name, text.clone(), decision), false))
                }
            }
        },
    }
}

/// Runs the generator on a record declaration: computes the constructor
/// parameters, the field initialisers and the builder methods, or the
/// error that rejects the declaration.
pub fn generate(input: &InputModel) -> (r: Result<Generated, GenError>)
    ensures
        (match r {
            Ok(g) => spec_generate(input@) == Ok::<GenView, GenError>(g@),
            Err(e) => spec_generate(input@) == Err::<GenView, GenError>(e),
        }),
{
    let mut params: Vec<Param> = Vec::new();
    let mut inits: Vec<FieldInit> = Vec::new();
    let mut withs: Vec<WithMethod> = Vec::new();
    let mut opt_started: bool = false;
    let ghost fields = input.fields.deep_view();
    proof {
        assert(fields.skip(0) =~= fields);
        if let Ok(rest) = spec_fields(fields, false) {
            assert(concat_parts(empty_parts(), rest) =~= rest);
        }
        assert(params.deep_view() =~= Seq::<ParamView>::empty());
        assert(inits.deep_view() =~= Seq::<FieldInitView>::empty());
        assert(withs.deep_view() =~= Seq::<WithMethodView>::empty());
    }
    let mut i: usize = 0;
    while i < input.fields.len()
        invariant
            0 <= i <= input.fields.len(),
            fields == input.fields.deep_view(),
            fields.len() == input.fields.len(),
            (match spec_fields(fields.skip(i as int), opt_started) {
                Ok(rest) => spec_fields(fields, false) == Ok::<PartsView, GenError>(
                    concat_parts(
                        (PartsView {
                            params: params.deep_view(),
                            inits: inits.deep_view(),
                            withs: withs.deep_view(),
                        }),
                        rest,
                    ),
                ),
                Err(e) => spec_fields(fields, false) == Err::<PartsView, GenError>(e),
            }),
        decreases input.fields.len() - i,
    {
        proof {
            assert(fields.skip(i as int)[0] == fields[i as int]);
            assert(fields.skip(i as int).drop_first() =~= fields.skip(i as int + 1));
        }
        let ghost acc0 = (PartsView {
            params: params.deep_view(),
            inits: inits.deep_view(),
            withs: withs.deep_view(),
        });
        match field_step(&input.fields[i], opt_started) {
            Err(e) => {
                return Err(e);
            },
            Ok((step, started2)) => {
                let ghost stepv = step_parts_view(step);
                let StepParts { param, init, with_fn } = step;
                if let Some(p) = param {
                    params.push(p);
                }
                inits.push(init);
                if let Some(w) = with_fn {
                    withs.push(w);
                }
                opt_started = started2;
                proof {
                    assert(params.deep_view() =~= acc0.params + stepv.params);
                    assert(inits.deep_view() =~= acc0.inits + stepv.inits);
                    assert(withs.deep_view() =~= acc0.withs + stepv.withs);
                    if let Ok(rest2) = spec_fields(fields.skip(i as int + 1), started2) {
                        assert(concat_parts(acc0, concat_parts(stepv, rest2)) =~= concat_parts(
                            (PartsView {
                                params: params.deep_view(),
                                inits: inits.deep_view(),
                                withs: withs.deep_view(),
                            }),
                            rest2,
                        ));
                    }
                }
            },
        }
        i = i + 1;
    }
    proof {
        assert(fields.skip(i as int) =~= Seq::<FieldView>::empty());
        if let Ok(rest) = spec_fields(fields.skip(i as int), opt_started) {
            assert(concat_parts(
                (PartsView {
                    params: params.deep_view(),
                    inits: inits.deep_view(),
                    withs: withs.deep_view(),
                }),
                rest,
            ) =~= (PartsView {
                params: params.deep_view(),
                inits: inits.deep_view(),
                withs: withs.deep_view(),
            }));
        }
    }
    let target = input.name.clone();
    Ok(Generated { target, params, inits, withs })
}

} // verus!
