//! The declaration synthesizer: turns one IDL type definition into one
//! emitted declaration. A struct becomes a record; an enum whose variants all
//! carry no data becomes a simple enumeration; an enum with at least one
//! data-carrying variant becomes a tagged union whose discriminants follow
//! declaration order.

use vstd::prelude::*;

use crate::casing::{CaseStyle, apply_case, spec_cased};
use crate::error::{GenError, GenErrorView, result_view};
use crate::idl::{IdlEnumVariant, IdlEnumVariantView, IdlField, IdlFieldView, IdlTypeDefinition,
    IdlTypeDefinitionTy, IdlTypeDefinitionTyView, IdlTypeDefinitionView};
use crate::resolve::{TypeExpr, TypeExprView, resolve, spec_resolve};

verus! {

/// One member of an emitted declaration: a target type expression and a
/// target-cased name.
#[derive(Debug, PartialEq, Eq)]
pub struct Member {
    pub ty: TypeExpr,
    pub name: String,
}

/// Ghost view of `Member`.
pub struct MemberView {
    pub ty: TypeExprView,
    pub name: Seq<char>,
}

impl DeepView for Member {
    type V = MemberView;

    open spec fn deep_view(&self) -> MemberView {
        MemberView { ty: self.ty.deep_view(), name: self.name.deep_view() }
    }
}

/// One arm of a tagged union: the variant's name (kept verbatim) and its own
/// members. Its discriminant is its position in the union's variant list.
#[derive(Debug, PartialEq, Eq)]
pub struct UnionVariant {
    pub name: String,
    pub members: Vec<Member>,
}

/// Ghost view of `UnionVariant`.
pub struct UnionVariantView {
    pub name: Seq<char>,
    pub members: Seq<MemberView>,
}

impl DeepView for UnionVariant {
    type V = UnionVariantView;

    open spec fn deep_view(&self) -> UnionVariantView {
        UnionVariantView { name: self.name.deep_view(), members: self.members.deep_view() }
    }
}

/// The shape of one emitted declaration.
#[derive(Debug, PartialEq, Eq)]
pub enum DeclBody {
    /// A record-like declaration with ordered members.
    Record { members: Vec<Member> },
    /// A simple enumeration listing variant names in order.
    Enumeration { values: Vec<String> },
    /// A tagged union: a base declaration plus one arm per variant, in
    /// declaration order; the arm at position `i` has discriminant `i`.
    Union { variants: Vec<UnionVariant> },
}

/// Ghost view of `DeclBody`.
pub enum DeclBodyView {
    Record { members: Seq<MemberView> },
    Enumeration { values: Seq<Seq<char>> },
    Union { variants: Seq<UnionVariantView> },
}

impl DeepView for DeclBody {
    type V = DeclBodyView;

    open spec fn deep_view(&self) -> DeclBodyView {
        match self {
            DeclBody::Record { members } => DeclBodyView::Record { members: members.deep_view() },
            DeclBody::Enumeration { values } => DeclBodyView::Enumeration {
                values: values.deep_view(),
            },
            DeclBody::Union { variants } => DeclBodyView::Union { variants: variants.deep_view() },
        }
    }
}

/// One emitted declaration: a target-cased name and a body. It is created
/// once per type definition and consumed once by the assembler.
#[derive(Debug, PartialEq, Eq)]
pub struct Declaration {
    pub name: String,
    pub body: DeclBody,
}

/// Ghost view of `Declaration`.
pub struct DeclarationView {
    pub name: Seq<char>,
    pub body: DeclBodyView,
}

impl DeepView for Declaration {
    type V = DeclarationView;

    open spec fn deep_view(&self) -> DeclarationView {
        DeclarationView { name: self.name.deep_view(), body: self.body.deep_view() }
    }
}

/// The member one field synthesizes to: the field's type resolved, the
/// field's name re-cased.
pub open spec fn spec_member(f: IdlFieldView, style: CaseStyle) -> MemberView {
    MemberView { ty: spec_resolve(f.ty), name: spec_cased(style, f.name) }
}

/// A pure enum: every variant carries no data.
pub open spec fn spec_is_pure(variants: Seq<IdlEnumVariantView>) -> bool {
    forall|i: int| 0 <= i < variants.len() ==> variants[i].fields is None
}

/// The union arm one enum variant synthesizes to: name verbatim, fields
/// mapped exactly as in the struct case.
pub open spec fn spec_variant(v: IdlEnumVariantView, style: CaseStyle) -> UnionVariantView {
    UnionVariantView {
        name: v.name,
        members: match v.fields {
            Some(fs) => fs.map_values(|f: IdlFieldView| spec_member(f, style)),
            None => Seq::empty(),
        },
    }
}

/// What one type definition synthesizes to. Member order equals field order,
/// enumeration values keep variant order, and union discriminants equal
/// variant declaration order; a definition shape outside struct and enum is
/// reported, never skipped.
pub open spec fn spec_synthesize(d: IdlTypeDefinitionView, style: CaseStyle) -> Result<
    DeclarationView,
    GenErrorView,
> {
    match d.ty {
        IdlTypeDefinitionTyView::Struct { fields } => Ok(
            DeclarationView {
                name: spec_cased(style, d.name),
                body: DeclBodyView::Record {
                    members: fields.map_values(|f: IdlFieldView| spec_member(f, style)),
                },
            },
        ),
        IdlTypeDefinitionTyView::Enum { variants } => Ok(
            DeclarationView {
                name: spec_cased(style, d.name),
                body: if spec_is_pure(variants) {
                    DeclBodyView::Enumeration {
                        values: variants.map_values(|v: IdlEnumVariantView| v.name),
                    }
                } else {
                    DeclBodyView::Union {
                        variants: variants.map_values(
                            |v: IdlEnumVariantView| spec_variant(v, style),
                        ),
                    }
                },
            },
        ),
        IdlTypeDefinitionTyView::Unsupported => Err(
            GenErrorView::UnsupportedDefinitionKind(d.name),
        ),
    }
}

/// Synthesize the members of a field list, in field order.
fn synthesize_members(fields: &Vec<IdlField>, style: CaseStyle) -> (r: Vec<Member>)
    ensures
        r.deep_view() == fields.deep_view().map_values(
            |f: IdlFieldView| spec_member(f, style),
        ),
{
    let ghost target = fields.deep_view().map_values(|f: IdlFieldView| spec_member(f, style));
    let mut members: Vec<Member> = Vec::new();
    let mut i: usize = 0;
    while i < fields.len()
        invariant
            i <= fields.len(),
            members.deep_view() =~= fields.deep_view().take(i as int).map_values(
                |f: IdlFieldView| spec_member(f, style),
            ),
        decreases fields.len() - i,
    {
        let f = &fields[i];
        let m = Member { ty: resolve(&f.ty), name: apply_case(style, f.name.as_str()) };
        members.push(m);
        proof {
            fields.deep_view().lemma_map_take_succ(
                |f: IdlFieldView| spec_member(f, style),
                i as int,
            );
        }
        i = i + 1;
    }
    proof {
        assert(fields.deep_view().take(fields.len() as int) =~= fields.deep_view());
    }
    members
}

/// Whether every variant of an enum is a unit variant.
pub fn is_pure_enum(variants: &Vec<IdlEnumVariant>) -> (r: bool)
    ensures
        r == spec_is_pure(variants.deep_view()),
{
    let mut i: usize = 0;
    while i < variants.len()
        invariant
            i <= variants.len(),
            forall|k: int| 0 <= k < i ==> variants.deep_view()[k].fields is None,
        decreases variants.len() - i,
    {
        if variants[i].fields.is_some() {
            proof {
                assert(variants.deep_view()[i as int].fields is Some);
            }
            return false;
        }
        i = i + 1;
    }
    true
}

/// Synthesize one type definition into one emitted declaration.
pub fn synthesize(def: &IdlTypeDefinition, style: CaseStyle) -> (r: Result<Declaration, GenError>)
    ensures
        result_view(r) == spec_synthesize(def.deep_view(), style),
{
    match &def.ty {
        IdlTypeDefinitionTy::Struct { fields } => {
            let members = synthesize_members(fields, style);
            Ok(
                Declaration {
                    name: apply_case(style, def.name.as_str()),
                    body: DeclBody::Record { members },
                },
            )
        },
        IdlTypeDefinitionTy::Enum { variants } => {
            let body = if is_pure_enum(variants) {
                let mut values: Vec<String> = Vec::new();
                let mut i: usize = 0;
                while i < variants.len()
                    invariant
                        i <= variants.len(),
                        values.deep_view() =~= variants.deep_view().take(i as int).map_values(
                            |v: IdlEnumVariantView| v.name,
                        ),
                    decreases variants.len() - i,
                {
                    values.push(variants[i].name.clone());
                    proof {
                        variants.deep_view().lemma_map_take_succ(
                            |v: IdlEnumVariantView| v.name,
                            i as int,
                        );
                    }
                    i = i + 1;
                }
                proof {
                    assert(variants.deep_view().take(variants.len() as int)
                        =~= variants.deep_view());
                }
                DeclBody::Enumeration { values }
            } else {
                let mut arms: Vec<UnionVariant> = Vec::new();
                let mut i: usize = 0;
                while i < variants.len()
                    invariant
                        i <= variants.len(),
                        arms.deep_view() =~= variants.deep_view().take(i as int).map_values(
                            |v: IdlEnumVariantView| spec_variant(v, style),
                        ),
                    decreases variants.len() - i,
                {
                    let v = &variants[i];
                    let members = match &v.fields {
                        Some(fs) => synthesize_members(fs, style),
                        None => Vec::new(),
                    };
                    proof {
                        assert(members.deep_view() =~= spec_variant(
                            v.deep_view(),
                            style,
                        ).members);
                    }
                    arms.push(UnionVariant { name: v.name.clone(), members });
                    proof {
                        variants.deep_view().lemma_map_take_succ(
                            |v: IdlEnumVariantView| spec_variant(v, style),
                            i as int,
                        );
                    }
                    i = i + 1;
                }
                proof {
                    assert(variants.deep_view().take(variants.len() as int)
                        =~= variants.deep_view());
                }
                DeclBody::Union { variants: arms }
            };
            Ok(Declaration { name: apply_case(style, def.name.as_str()), body })
        },
        IdlTypeDefinitionTy::Unsupported => Err(
            GenError::UnsupportedDefinitionKind(def.name.clone()),
        ),
    }
}

} // verus!
