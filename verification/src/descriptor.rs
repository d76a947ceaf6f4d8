//! Descriptions of type declarations, and their mathematical views.
//!
//! Names and the pieces of syntax that are only carried along (visibility,
//! bounds, where-clause, discriminant expressions) are held as source text.
//! Contracts speak of the views, in which text is a `Seq<char>`.

use vstd::prelude::*;

verus! {

/// `proc_macro2::Span`, a region of source text. The library never looks
/// inside one: it carries the span of a declaration's keyword from the
/// description of the input to the diagnostic that is anchored there.
#[verifier::external_type_specification]
#[verifier::external_body]
pub struct ExSpan(proc_macro2::Span);

/// The fields of one variant.
#[derive(Clone, Debug, PartialEq, Eq)]
pub enum FieldShape {
    /// No fields: `V`.
    Unit,
    /// Positional fields, given by their number: `V(A, B)`.
    Tuple(usize),
    /// Named fields, given by their names in declared order: `V { a: A, b: B }`.
    Named(Vec<String>),
}

/// One variant of an enum.
#[derive(Clone, Debug, PartialEq, Eq)]
pub struct VariantDescriptor {
    pub name: String,
    pub fields: FieldShape,
    /// The explicit discriminant expression, if the variant has one.
    pub discriminant: Option<String>,
}

/// One generic parameter of a declaration, as it is declared but for a
/// default: no emitted declaration has a place for one.
#[derive(Clone, Debug, PartialEq, Eq)]
pub enum GenericParam {
    /// A lifetime with its apostrophe, and the lifetimes it outlives:
    /// `'a: 'b + 'c`.
    Lifetime { name: String, bounds: Option<String> },
    /// A type, and the bounds written beside it: `T: Clone + 'a`.
    Type { name: String, bounds: Option<String> },
    /// A constant and its type: `const N: usize`.
    Const { name: String, ty: String },
}

/// An enum declaration.
#[derive(Clone, Debug, PartialEq, Eq)]
pub struct EnumDescriptor {
    pub name: String,
    /// The visibility qualifier; empty for a private declaration.
    pub visibility: String,
    /// The generic parameters in declared order.
    pub generics: Vec<GenericParam>,
    /// The where-clause, starting with `where`.
    pub where_clause: Option<String>,
    pub variants: Vec<VariantDescriptor>,
}

/// What a declaration holds, by its kind.
#[derive(Debug)]
pub enum DeclData {
    Struct { keyword: proc_macro2::Span },
    Union { keyword: proc_macro2::Span },
    Enum { variants: Vec<VariantDescriptor> },
}

/// A type declaration of any kind on which the derivation can be requested.
#[derive(Debug)]
pub struct TypeDecl {
    pub name: String,
    pub visibility: String,
    pub generics: Vec<GenericParam>,
    pub where_clause: Option<String>,
    pub data: DeclData,
}

/// The one failure of the derivation: it was requested on something that is
/// not an enum.
#[derive(Debug)]
pub struct ErrorDiagnostic {
    pub message: String,
    /// The keyword that introduced the offending declaration.
    pub span: proc_macro2::Span,
}

/// A field shape as contracts see it.
pub enum FieldShapeView {
    Unit,
    Tuple(nat),
    Named(Seq<Seq<char>>),
}

/// A generic parameter as contracts see it.
pub enum GenericParamView {
    Lifetime { name: Seq<char>, bounds: Option<Seq<char>> },
    Type { name: Seq<char>, bounds: Option<Seq<char>> },
    Const { name: Seq<char>, ty: Seq<char> },
}

/// A variant as contracts see it.
pub struct VariantView {
    pub name: Seq<char>,
    pub fields: FieldShapeView,
    pub discriminant: Option<Seq<char>>,
}

/// An enum declaration as contracts see it.
pub struct EnumView {
    pub name: Seq<char>,
    pub visibility: Seq<char>,
    pub generics: Seq<GenericParamView>,
    pub where_clause: Option<Seq<char>>,
    pub variants: Seq<VariantView>,
}

/// The contents of a declaration as contracts see them.
pub enum DeclDataView {
    Struct { keyword: proc_macro2::Span },
    Union { keyword: proc_macro2::Span },
    Enum { variants: Seq<VariantView> },
}

/// A type declaration as contracts see it.
pub struct TypeDeclView {
    pub name: Seq<char>,
    pub visibility: Seq<char>,
    pub generics: Seq<GenericParamView>,
    pub where_clause: Option<Seq<char>>,
    pub data: DeclDataView,
}

/// A diagnostic as contracts see it.
pub struct ErrorDiagnosticView {
    pub message: Seq<char>,
    pub span: proc_macro2::Span,
}

impl GenericParamView {
    /// The name by which the parameter is used: `'a`, `T` or `N`.
    pub open spec fn name(self) -> Seq<char> {
        match self {
            GenericParamView::Lifetime { name, .. } => name,
            GenericParamView::Type { name, .. } => name,
            GenericParamView::Const { name, .. } => name,
        }
    }
}

impl FieldShapeView {
    /// No two fields share a name.
    pub open spec fn well_formed(self) -> bool {
        match self {
            FieldShapeView::Named(names) => forall|a: int, b: int|
                0 <= a < b < names.len() ==> names[a] != names[b],
            _ => true,
        }
    }
}

impl EnumView {
    /// What the language asks of every enum: no two variants share a name,
    /// and within a variant no two fields do.
    pub open spec fn well_formed(self) -> bool {
        &&& forall|i: int, j: int|
            0 <= i < j < self.variants.len() ==> self.variants[i].name != self.variants[j].name
        &&& forall|i: int|
            0 <= i < self.variants.len() ==> (#[trigger] self.variants[i]).fields.well_formed()
    }

    /// Whether no variant has fields.
    pub open spec fn data_less(self) -> bool {
        forall|i: int| 0 <= i < self.variants.len() ==> self.variants[i].fields is Unit
    }
}

/// The texts of a list of strings.
pub open spec fn texts(items: Seq<String>) -> Seq<Seq<char>> {
    items.map_values(|s: String| s@)
}

/// The text of an optional string.
pub open spec fn optional_text(item: Option<String>) -> Option<Seq<char>> {
    match item {
        Some(s) => Some(s@),
        None => None,
    }
}

/// The views of a list of generic parameters.
pub open spec fn param_views(items: Seq<GenericParam>) -> Seq<GenericParamView> {
    items.map_values(|p: GenericParam| p@)
}

/// The views of a list of variants.
pub open spec fn variant_views(items: Seq<VariantDescriptor>) -> Seq<VariantView> {
    items.map_values(|v: VariantDescriptor| v@)
}

impl View for GenericParam {
    type V = GenericParamView;

    open spec fn view(&self) -> GenericParamView {
        match *self {
            GenericParam::Lifetime { name, bounds } => GenericParamView::Lifetime {
                name: name@,
                bounds: optional_text(bounds),
            },
            GenericParam::Type { name, bounds } => GenericParamView::Type {
                name: name@,
                bounds: optional_text(bounds),
            },
            GenericParam::Const { name, ty } => GenericParamView::Const { name: name@, ty: ty@ },
        }
    }
}

impl View for FieldShape {
    type V = FieldShapeView;

    open spec fn view(&self) -> FieldShapeView {
        match *self {
            FieldShape::Unit => FieldShapeView::Unit,
            FieldShape::Tuple(n) => FieldShapeView::Tuple(n as nat),
            FieldShape::Named(names) => FieldShapeView::Named(texts(names@)),
        }
    }
}

impl View for VariantDescriptor {
    type V = VariantView;

    open spec fn view(&self) -> VariantView {
        VariantView {
            name: self.name@,
            fields: self.fields@,
            discriminant: optional_text(self.discriminant),
        }
    }
}

impl View for EnumDescriptor {
    type V = EnumView;

    open spec fn view(&self) -> EnumView {
        EnumView {
            name: self.name@,
            visibility: self.visibility@,
            generics: param_views(self.generics@),
            where_clause: optional_text(self.where_clause),
            variants: variant_views(self.variants@),
        }
    }
}

impl View for DeclData {
    type V = DeclDataView;

    open spec fn view(&self) -> DeclDataView {
        match *self {
            DeclData::Struct { keyword } => DeclDataView::Struct { keyword },
            DeclData::Union { keyword } => DeclDataView::Union { keyword },
            DeclData::Enum { variants } => DeclDataView::Enum { variants: variant_views(variants@) },
        }
    }
}

impl View for TypeDecl {
    type V = TypeDeclView;

    open spec fn view(&self) -> TypeDeclView {
        TypeDeclView {
            name: self.name@,
            visibility: self.visibility@,
            generics: param_views(self.generics@),
            where_clause: optional_text(self.where_clause),
            data: self.data@,
        }
    }
}

impl View for ErrorDiagnostic {
    type V = ErrorDiagnosticView;

    open spec fn view(&self) -> ErrorDiagnosticView {
        ErrorDiagnosticView { message: self.message@, span: self.span }
    }
}

/// Copies a list of strings.
pub fn clone_texts(items: &Vec<String>) -> (copy: Vec<String>)
    ensures
        texts(copy@) == texts(items@),
{
    let mut copy: Vec<String> = Vec::new();
    let mut i: usize = 0;
    while i < items.len()
        invariant
            i <= items.len(),
            copy@ == items@.take(i as int),
        decreases items.len() - i,
    {
        copy.push(items[i].clone());
        i += 1;
        assert(copy@ =~= items@.take(i as int));
    }
    assert(items@.take(items.len() as int) =~= items@);
    copy
}

/// Copies an optional string.
pub fn clone_optional_text(item: &Option<String>) -> (copy: Option<String>)
    ensures
        optional_text(copy) == optional_text(*item),
{
    match item {
        Some(s) => Some(s.clone()),
        None => None,
    }
}

/// Copies a generic parameter.
pub fn clone_param(param: &GenericParam) -> (copy: GenericParam)
    ensures
        copy@ == param@,
{
    match param {
        GenericParam::Lifetime { name, bounds } => GenericParam::Lifetime {
            name: name.clone(),
            bounds: clone_optional_text(bounds),
        },
        GenericParam::Type { name, bounds } => GenericParam::Type {
            name: name.clone(),
            bounds: clone_optional_text(bounds),
        },
        GenericParam::Const { name, ty } => GenericParam::Const {
            name: name.clone(),
            ty: ty.clone(),
        },
    }
}

/// Copies a list of generic parameters.
pub fn clone_params(params: &Vec<GenericParam>) -> (copy: Vec<GenericParam>)
    ensures
        param_views(copy@) == param_views(params@),
{
    let mut copy: Vec<GenericParam> = Vec::new();
    let mut i: usize = 0;
    while i < params.len()
        invariant
            i <= params.len(),
            copy.len() == i,
            forall|j: int| 0 <= j < i ==> (#[trigger] copy[j])@ == params[j]@,
        decreases params.len() - i,
    {
        copy.push(clone_param(&params[i]));
        i += 1;
    }
    assert(param_views(copy@) =~= param_views(params@));
    copy
}

} // verus!
