//! Plain data models for the generator.
//!
//! The generator reads a record declaration and emits a constructor and a
//! fluent builder interface.  This module holds the two sides of that step
//! as plain values: the *input* model (the declared name, and for each field
//! its name, its attributes and the shape of its type) and the *output*
//! model (the constructor parameters, the field initialisers and the
//! builder methods).  Each executable type has a ghost view over `Seq<char>`
//! so that contracts can speak about it mathematically.

use vstd::prelude::*;

verus! {

// ---------------------------------------------------------------------------
// Input model
// ---------------------------------------------------------------------------

/// What one attribute on a field says, as far as the generator reads it.
pub enum AttrShape {
    /// `#[name = "..."]`: a name–value attribute whose path is the single
    /// identifier `name` and whose value is a string literal; `content` is
    /// the literal's content, and `lexable` records whether that content
    /// lexes as a token stream.
    LitStr { name: String, content: String, lexable: bool },
    /// `#[name = lit]` for any other literal; `text` is the literal's
    /// source text.
    LitOther { name: String, text: String },
    /// `#[name = expr]` where the value is not a literal.
    ExprOther { name: String },
    /// `#[name]`: a bare path attribute that is a single identifier.
    Word { name: String },
    /// Any other attribute (a list, or a path of several segments).
    Opaque,
}

/// The ghost view of an [`AttrShape`].
#[verifier::ext_equal]
pub ghost enum AttrView {
    LitStr { name: Seq<char>, content: Seq<char>, lexable: bool },
    LitOther { name: Seq<char>, text: Seq<char> },
    ExprOther { name: Seq<char> },
    Word { name: Seq<char> },
    Opaque,
}

impl DeepView for AttrShape {
    type V = AttrView;

    open spec fn deep_view(&self) -> AttrView {
        match self {
            AttrShape::LitStr { name, content, lexable } => (AttrView::LitStr {
                name: name@,
                content: content@,
                lexable: *lexable,
            }),
            AttrShape::LitOther { name, text } => (AttrView::LitOther {
                name: name@,
                text: text@,
            }),
            AttrShape::ExprOther { name } => (AttrView::ExprOther { name: name@ }),
            AttrShape::Word { name } => (AttrView::Word { name: name@ }),
            AttrShape::Opaque => AttrView::Opaque,
        }
    }
}

impl View for AttrShape {
    type V = AttrView;

    open spec fn view(&self) -> AttrView {
        self.deep_view()
    }
}

/// The shape of a field's declared type, as far as the generator reads it.
pub enum TypeShape {
    /// A path type: the identifiers of its path segments, the
    /// angle-bracketed arguments of its first segment (each argument as
    /// source text) if there are any, and the whole path's source text.
    Path { segments: Vec<String>, type_args: Option<Vec<String>>, text: String },
    /// Any other form of type.
    Opaque,
}

/// The ghost view of a [`TypeShape`].
#[verifier::ext_equal]
pub ghost enum TypeView {
    Path { segments: Seq<Seq<char>>, type_args: Option<Seq<Seq<char>>>, text: Seq<char> },
    Opaque,
}

impl DeepView for TypeShape {
    type V = TypeView;

    open spec fn deep_view(&self) -> TypeView {
        match self {
            TypeShape::Path { segments, type_args, text } => (TypeView::Path {
                segments: segments.deep_view(),
                type_args: type_args.deep_view(),
                text: text@,
            }),
            TypeShape::Opaque => TypeView::Opaque,
        }
    }
}

impl View for TypeShape {
    type V = TypeView;

    open spec fn view(&self) -> TypeView {
        self.deep_view()
    }
}

/// One declared field: its name (`None` for a field of a tuple struct,
/// which the generator rejects), its attributes in declaration order, and
/// the shape of its type.
pub struct FieldModel {
    pub name: Option<String>,
    pub attrs: Vec<AttrShape>,
    pub shape: TypeShape,
}

/// The ghost view of a [`FieldModel`].
#[verifier::ext_equal]
pub ghost struct FieldView {
    pub name: Option<Seq<char>>,
    pub attrs: Seq<AttrView>,
    pub shape: TypeView,
}

impl DeepView for FieldModel {
    type V = FieldView;

    open spec fn deep_view(&self) -> FieldView {
        FieldView { name: self.name.deep_view(), attrs: self.attrs.deep_view(), shape: self.shape@ }
    }
}

impl View for FieldModel {
    type V = FieldView;

    open spec fn view(&self) -> FieldView {
        self.deep_view()
    }
}

/// A record declaration: its name and its fields in declaration order.
pub struct InputModel {
    pub name: String,
    pub fields: Vec<FieldModel>,
}

/// The ghost view of an [`InputModel`].
#[verifier::ext_equal]
pub ghost struct InputView {
    pub name: Seq<char>,
    pub fields: Seq<FieldView>,
}

impl DeepView for InputModel {
    type V = InputView;

    open spec fn deep_view(&self) -> InputView {
        InputView { name: self.name@, fields: self.fields.deep_view() }
    }
}

impl View for InputModel {
    type V = InputView;

    open spec fn view(&self) -> InputView {
        self.deep_view()
    }
}

// ---------------------------------------------------------------------------
// Output model
// ---------------------------------------------------------------------------

/// One parameter of the generated constructor, as name and type text.
#[derive(Debug)]
pub struct Param {
    pub name: String,
    pub ty: String,
}

/// The ghost view of a [`Param`].
#[verifier::ext_equal]
pub ghost struct ParamView {
    pub name: Seq<char>,
    pub ty: Seq<char>,
}

impl DeepView for Param {
    type V = ParamView;

    open spec fn deep_view(&self) -> ParamView {
        ParamView { name: self.name@, ty: self.ty@ }
    }
}

impl View for Param {
    type V = ParamView;

    open spec fn view(&self) -> ParamView {
        self.deep_view()
    }
}

/// How the generated constructor initialises one field.
#[derive(Debug)]
pub enum Init {
    /// `field: <code>` — the expression a value attribute supplied.
    Given(String),
    /// `field: Some(field)` — the constructor parameter, wrapped.
    WrapParam,
    /// `field: None` — an optional field left unset.
    Unset,
    /// `field: field` — the constructor parameter itself.
    FromParam,
}

/// The ghost view of an [`Init`].
#[verifier::ext_equal]
pub ghost enum InitView {
    Given(Seq<char>),
    WrapParam,
    Unset,
    FromParam,
}

impl DeepView for Init {
    type V = InitView;

    open spec fn deep_view(&self) -> InitView {
        match self {
            Init::Given(code) => InitView::Given(code@),
            Init::WrapParam => InitView::WrapParam,
            Init::Unset => InitView::Unset,
            Init::FromParam => InitView::FromParam,
        }
    }
}

impl View for Init {
    type V = InitView;

    open spec fn view(&self) -> InitView {
        self.deep_view()
    }
}

/// One field initialiser of the generated constructor.
#[derive(Debug)]
pub struct FieldInit {
    pub name: String,
    pub init: Init,
}

/// The ghost view of a [`FieldInit`].
#[verifier::ext_equal]
pub ghost struct FieldInitView {
    pub name: Seq<char>,
    pub init: InitView,
}

impl DeepView for FieldInit {
    type V = FieldInitView;

    open spec fn deep_view(&self) -> FieldInitView {
        FieldInitView { name: self.name@, init: self.init@ }
    }
}

impl View for FieldInit {
    type V = FieldInitView;

    open spec fn view(&self) -> FieldInitView {
        self.deep_view()
    }
}

/// One generated builder method `with_<field>`.
#[derive(Debug)]
pub struct WithMethod {
    /// The method's name: `with_` followed by the field's name.
    pub method_name: String,
    /// The field the method sets.
    pub field: String,
    /// The type text of the method's `value` parameter.
    pub value_ty: String,
    /// Whether the body stores `Some(value)` rather than `value`.
    pub wraps: bool,
}

/// The ghost view of a [`WithMethod`].
#[verifier::ext_equal]
pub ghost struct WithMethodView {
    pub method_name: Seq<char>,
    pub field: Seq<char>,
    pub value_ty: Seq<char>,
    pub wraps: bool,
}

impl DeepView for WithMethod {
    type V = WithMethodView;

    open spec fn deep_view(&self) -> WithMethodView {
        WithMethodView {
            method_name: self.method_name@,
            field: self.field@,
            value_ty: self.value_ty@,
            wraps: self.wraps,
        }
    }
}

impl View for WithMethod {
    type V = WithMethodView;

    open spec fn view(&self) -> WithMethodView {
        self.deep_view()
    }
}

/// Everything the generator emits for one record: the target name, the
/// constructor parameters, the field initialisers, and the builder methods.
#[derive(Debug)]
pub struct Generated {
    pub target: String,
    pub params: Vec<Param>,
    pub inits: Vec<FieldInit>,
    pub withs: Vec<WithMethod>,
}

/// The ghost view of a [`Generated`].
#[verifier::ext_equal]
pub ghost struct GenView {
    pub target: Seq<char>,
    pub params: Seq<ParamView>,
    pub inits: Seq<FieldInitView>,
    pub withs: Seq<WithMethodView>,
}

impl DeepView for Generated {
    type V = GenView;

    open spec fn deep_view(&self) -> GenView {
        GenView {
            target: self.target@,
            params: self.params.deep_view(),
            inits: self.inits.deep_view(),
            withs: self.withs.deep_view(),
        }
    }
}

impl View for Generated {
    type V = GenView;

    open spec fn view(&self) -> GenView {
        self.deep_view()
    }
}

// ---------------------------------------------------------------------------
// Errors
// ---------------------------------------------------------------------------

/// Why the generator rejects a declaration.
#[derive(Clone, Copy, PartialEq, Eq, Structural, Debug)]
pub enum GenError {
    /// The token stream did not parse as a type declaration.
    Unparsable,
    /// The declaration is not a struct (the generator's rejection).
    NotAStruct,
    /// The declaration whose name alone was asked for is not a struct
    /// (the name reader's rejection, with its own diagnostic).
    NameNotAStruct,
    /// A field has no name.
    UnnamedField,
    /// A value attribute's value is not a literal.
    ValueNotLiteral,
    /// A value attribute's string content does not lex as a token stream.
    ValueUnlexable,
    /// An `Option` field's type has other than one type argument.
    OptionArity,
    /// An `Option` field's type has no angle-bracketed arguments.
    OptionFormat,
    /// A field's type is not a path type.
    UnsupportedType,
    /// A plain field follows an optional one.
    OptionalNotLast,
}

impl GenError {
    /// The diagnostic the generator reports for this error.
    pub fn message(&self) -> (r: &'static str)
        ensures
            r@ == self.spec_message(),
    {
        match self {
            GenError::Unparsable => "could not parse the input as a type declaration",
            GenError::NotAStruct => "AutoNewBuilder can only be derived for structs",
            GenError::NameNotAStruct => "This derive macro only works on structs",
            GenError::UnnamedField => "fields must have names",
            GenError::ValueNotLiteral => "auto_new_value must be a literal",
            GenError::ValueUnlexable => "Failed to parse string as token stream",
            GenError::OptionArity => "Option must have exactly one type parameter",
            GenError::OptionFormat => "Invalid Option type format",
            GenError::UnsupportedType => "Unsupported type in generic",
            GenError::OptionalNotLast => "Optional Fields should be the at the last",
        }
    }

    /// What [`GenError::message`] returns, as a sequence of characters.
    pub open spec fn spec_message(&self) -> Seq<char> {
        match self {
            GenError::Unparsable => "could not parse the input as a type declaration"@,
            GenError::NotAStruct => "AutoNewBuilder can only be derived for structs"@,
            GenError::NameNotAStruct => "This derive macro only works on structs"@,
            GenError::UnnamedField => "fields must have names"@,
            GenError::ValueNotLiteral => "auto_new_value must be a literal"@,
            GenError::ValueUnlexable => "Failed to parse string as token stream"@,
            GenError::OptionArity => "Option must have exactly one type parameter"@,
            GenError::OptionFormat => "Invalid Option type format"@,
            GenError::UnsupportedType => "Unsupported type in generic"@,
            GenError::OptionalNotLast => "Optional Fields should be the at the last"@,
        }
    }
}

} // verus!
