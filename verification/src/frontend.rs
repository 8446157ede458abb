//! Reading a declaration's source text into the generator's input model.
//!
//! Parsing is done by the `syn`, `proc-macro2` and `quote` crates behind
//! trusted wrappers.  Parsing is a function of the text alone, so its two
//! results are given names: [`parsed_model_of`] for the input model a
//! declaration's text holds (or the rejection reading it produces), and
//! [`parsed_name_of`] for the declared name alone, which is readable even
//! from declarations whose fields the model cannot hold.  Every public
//! function here has an exact contract over those names and
//! [`crate::gen::spec_generate`] / [`crate::render::spec_render`].

use crate::gen::generate;
use crate::gen::spec_generate;
use crate::model::AttrShape;
use crate::model::FieldModel;
use crate::model::GenError;
use crate::model::GenView;
use crate::model::Generated;
use crate::model::InputModel;
use crate::model::InputView;
use crate::model::TypeShape;
use crate::render::render;
use crate::render::spec_render;
use quote::ToTokens;
use vstd::prelude::*;

verus! {

#[verifier::external_type_specification]
#[verifier::external_body]
pub struct ExField(syn::Field);

#[verifier::external_type_specification]
#[verifier::external_body]
pub struct ExAttribute(syn::Attribute);

#[verifier::external_type_specification]
#[verifier::external_body]
pub struct ExExpr(syn::Expr);

/// What `syn::parse_str::<syn::DeriveInput>` makes of a declaration's
/// source text, read into the generator's input model: `Ok` holds the
/// declared name and the model of each field (its name — `None` for an
/// unnamed field of a tuple struct — its attributes and its type shape,
/// in order); `Err(Unparsable)` stands for text that does not parse as a
/// type declaration and `Err(NotAStruct)` for an enum or union
/// declaration.  Parsing depends on the text alone, so this is a
/// function of it.
pub uninterp spec fn parsed_model_of(src: Seq<char>) -> Result<InputView, GenError>;

/// The name `syn::parse_str::<syn::DeriveInput>` reads from a struct
/// declaration's source text: `Ok` holds the declared identifier's text;
/// `Err(Unparsable)` stands for text that does not parse as a type
/// declaration and `Err(NameNotAStruct)` for an enum or union
/// declaration (the name reader's own rejection).
pub uninterp spec fn parsed_name_of(src: Seq<char>) -> Result<Seq<char>, GenError>;

/// Relies on `syn::Expr` and `syn::Lit` (syn's attribute values) and on
/// `proc_macro2::TokenStream`'s `FromStr` (to record whether a string
/// literal's content lexes): the shape of a value attribute's right-hand
/// side — a string literal by its content, any other literal by its
/// source text, anything else marked as not a literal.
#[verifier::external_body]
fn value_shape(name: String, e: &syn::Expr) -> AttrShape {
    match e {
        syn::Expr::Lit(el) => match &el.lit {
            syn::Lit::Str(s) => {
                let content = s.value();
                let lexable = content.parse::<proc_macro2::TokenStream>().is_ok();
                AttrShape::LitStr { name, content, lexable }
            },
            l => AttrShape::LitOther { name, text: l.to_token_stream().to_string() },
        },
        _ => AttrShape::ExprOther { name },
    }
}

/// Relies on `syn::Meta` and `syn::Path::get_ident`: a name–value
/// attribute or a bare one-identifier attribute by its name, anything
/// else marked opaque.
#[verifier::external_body]
fn attr_shape(a: &syn::Attribute) -> AttrShape {
    match &a.meta {
        syn::Meta::NameValue(nv) => match nv.path.get_ident() {
            Some(id) => value_shape(id.to_string(), &nv.value),
            None => AttrShape::Opaque,
        },
        syn::Meta::Path(p) => match p.get_ident() {
            Some(id) => AttrShape::Word { name: id.to_string() },
            None => AttrShape::Opaque,
        },
        syn::Meta::List(_) => AttrShape::Opaque,
    }
}

/// Relies on `syn::Type` and `quote::ToTokens`: for a field of path type,
/// the identifiers of the path's segments and the path's source text.
#[verifier::external_body]
fn field_type_path(f: &syn::Field) -> Option<(Vec<String>, String)> {
    match &f.ty {
        syn::Type::Path(tp) => {
            let mut segments: Vec<String> = Vec::new();
            for s in tp.path.segments.iter() {
                segments.push(s.ident.to_string());
            }
            Some((segments, tp.path.to_token_stream().to_string()))
        },
        _ => None,
    }
}

/// Relies on `syn::PathArguments`: the angle-bracketed arguments of the
/// first segment of a field's path type, each as source text; `None`
/// where there are none.
#[verifier::external_body]
fn field_type_args(f: &syn::Field) -> Option<Vec<String>> {
    let tp = if let syn::Type::Path(tp) = &f.ty { tp } else { return None };
    let seg = tp.path.segments.first()?;
    if let syn::PathArguments::AngleBracketed(ab) = &seg.arguments {
        let mut v: Vec<String> = Vec::new();
        for a in ab.args.iter() {
            v.push(a.to_token_stream().to_string());
        }
        Some(v)
    } else {
        None
    }
}

/// Relies on `syn::Field::ident` and `syn::Field::attrs`: one field read
/// into the model; a field without a name is carried as such.
#[verifier::external_body]
fn field_model(f: &syn::Field) -> FieldModel {
    let name = match &f.ident {
        Some(i) => Some(i.to_string()),
        None => None,
    };
    let mut attrs: Vec<AttrShape> = Vec::new();
    for a in &f.attrs {
        attrs.push(attr_shape(a));
    }
    let shape = match field_type_path(f) {
        Some((segments, text)) => (TypeShape::Path { segments, type_args: field_type_args(f), text }),
        None => TypeShape::Opaque,
    };
    FieldModel { name, attrs, shape }
}

/// Relies on `syn::parse_str::<syn::DeriveInput>` and `syn::Data`:
/// reading a declaration's text into the model.  Parsing depends on the
/// text alone; what it yields is named [`parsed_model_of`].  A model and
/// a name read from one text come from the same parse of it, so when the
/// model reads, the name reads too and they agree.
#[verifier::external_body]
fn parse_declaration(src: &str) -> (r: Result<InputModel, GenError>)
    ensures
        (match r {
            Ok(m) => parsed_model_of(src@) == Ok::<InputView, GenError>(m@) && parsed_name_of(
                src@,
            ) == Ok::<Seq<char>, GenError>(m.name@),
            Err(e) => parsed_model_of(src@) == Err::<InputView, GenError>(e),
        }),
{
    let d = match syn::parse_str::<syn::DeriveInput>(src) {
        Ok(d) => d,
        Err(_) => return Err(GenError::Unparsable),
    };
    let name = d.ident.to_string();
    let fields = match d.data {
        syn::Data::Struct(s) => s.fields,
        _ => return Err(GenError::NotAStruct),
    };
    let mut models: Vec<FieldModel> = Vec::new();
    for f in fields.iter() {
        models.push(field_model(f));
    }
    Ok(InputModel { name, fields: models })
}

/// Relies on `syn::parse_str::<syn::DeriveInput>` and `syn::Data`: the
/// declared name of a struct declaration, with the name reader's own
/// rejection of anything else.  Parsing depends on the text alone; what
/// it yields is named [`parsed_name_of`].
#[verifier::external_body]
fn parse_name(src: &str) -> (r: Result<String, GenError>)
    ensures
        (match r {
            Ok(n) => parsed_name_of(src@) == Ok::<Seq<char>, GenError>(n@),
            Err(e) => parsed_name_of(src@) == Err::<Seq<char>, GenError>(e),
        }),
{
    match syn::parse_str::<syn::DeriveInput>(src) {
        Ok(d) => match d.data {
            syn::Data::Struct(_) => Ok(d.ident.to_string()),
            _ => Err(GenError::NameNotAStruct),
        },
        Err(_) => Err(GenError::Unparsable),
    }
}

/// Reads a declaration's source text into the generator's input model:
/// the declared name and, for each field, its name, its attributes and
/// the shape of its type.  Returns exactly what the text parses to (the
/// model's name agreeing with the declared name), and exactly the
/// rejection reading it produces otherwise.
pub fn read_input(src: &str) -> (r: Result<InputModel, GenError>)
    ensures
        (match r {
            Ok(m) => parsed_model_of(src@) == Ok::<InputView, GenError>(m@) && parsed_name_of(
                src@,
            ) == Ok::<Seq<char>, GenError>(m.name@),
            Err(e) => parsed_model_of(src@) == Err::<InputView, GenError>(e),
        }),
{
    parse_declaration(src)
}

/// The name of a struct declaration, read from its source text; rejects
/// text that does not parse and a declaration that is not a struct.
pub fn get_struct_name(struct_stream: &str) -> (r: Result<String, GenError>)
    ensures
        (match r {
            Ok(n) => parsed_name_of(struct_stream@) == Ok::<Seq<char>, GenError>(n@),
            Err(e) => parsed_name_of(struct_stream@) == Err::<Seq<char>, GenError>(e),
        }),
{
    parse_name(struct_stream)
}

/// The whole derive step on a declaration's source text: read the
/// declaration and run the generator.  The result is exactly the
/// generator's specified output for the model the text holds, its target
/// is the declared name, and reading and generation errors surface
/// unchanged.
pub fn auto_new_builder_derive(input: &str) -> (r: Result<Generated, GenError>)
    ensures
        (match r {
            Ok(g) => parsed_model_of(input@) is Ok && spec_generate(parsed_model_of(input@)->Ok_0)
                == Ok::<GenView, GenError>(g@) && parsed_name_of(input@) == Ok::<
                Seq<char>,
                GenError,
            >(g.target@),
            Err(e) => (match parsed_model_of(input@) {
                Ok(m) => spec_generate(m) == Err::<GenView, GenError>(e),
                Err(pe) => e == pe,
            }),
        }),
{
    match read_input(input) {
        Err(e) => Err(e),
        Ok(m) => generate(&m),
    }
}

/// The whole derive step, rendered: read the declaration, run the
/// generator, and emit the `impl` block as source text.  The result is
/// exactly the rendering of the generator's specified output for the
/// model the input text holds, and errors surface unchanged.
pub fn derive_source(input: &str) -> (r: Result<String, GenError>)
    ensures
        (match r {
            Ok(s) => parsed_model_of(input@) is Ok && spec_generate(parsed_model_of(input@)->Ok_0)
                is Ok && s@ == spec_render(
                spec_generate(parsed_model_of(input@)->Ok_0)->Ok_0,
            ),
            Err(e) => (match parsed_model_of(input@) {
                Ok(m) => spec_generate(m) == Err::<GenView, GenError>(e),
                Err(pe) => e == pe,
            }),
        }),
{
    match auto_new_builder_derive(input) {
        Err(e) => Err(e),
        Ok(g) => Ok(render(&g)),
    }
}

} // verus!
