//! The document assembler: synthesizes every account and auxiliary type
//! definition, accounts first and in document order within each group, and
//! wraps the declarations in one namespace named from the document.
//!
//! Before synthesizing it validates the whole document and fails fast, with
//! this precedence: a duplicate declaration name anywhere comes first; then,
//! for the first definition in combined order that is ill-formed, an
//! unsupported definition shape, then direct self-recursion, then the first
//! dangling reference in field order.

use vstd::prelude::*;

use crate::casing::{CaseStyle, apply_case, spec_cased};
use crate::error::{GenError, GenErrorView, result_view};
use crate::idl::{Idl, IdlEnumVariantView, IdlField, IdlFieldView, IdlType, IdlTypeDefinition,
    IdlTypeDefinitionTy, IdlTypeDefinitionTyView, IdlTypeDefinitionView, IdlTypeView, IdlView};
use crate::synth::{Declaration, DeclarationView, spec_synthesize, synthesize};

verus! {

/// A complete output unit: the namespace name (already target-cased) and the
/// ordered declarations it contains.
#[derive(Debug, PartialEq, Eq)]
pub struct Document {
    pub namespace: String,
    pub decls: Vec<Declaration>,
}

/// Ghost view of `Document`.
pub struct DocumentView {
    pub namespace: Seq<char>,
    pub decls: Seq<DeclarationView>,
}

impl DeepView for Document {
    type V = DocumentView;

    open spec fn deep_view(&self) -> DocumentView {
        DocumentView { namespace: self.namespace.deep_view(), decls: self.decls.deep_view() }
    }
}

/// All definitions of the document in processing order: accounts first, then
/// auxiliary types, document order within each group.
pub open spec fn combined_defs(v: IdlView) -> Seq<IdlTypeDefinitionView> {
    v.accounts + v.types
}

/// The declaration names of the definitions, in the same order.
pub open spec fn names_of(defs: Seq<IdlTypeDefinitionView>) -> Seq<Seq<char>> {
    defs.map_values(|d: IdlTypeDefinitionView| d.name)
}

/// The name at position `j` already occurred earlier in the list.
pub open spec fn is_dup_at(names: Seq<Seq<char>>, j: int) -> bool {
    exists|k: int| 0 <= k < j && names[k] == names[j]
}

/// Some name occurs twice in the list.
pub open spec fn has_dup(names: Seq<Seq<char>>) -> bool {
    exists|j: int| 0 <= j < names.len() && is_dup_at(names, j)
}

/// `n` is the name at the earliest position that repeats an earlier name.
pub open spec fn is_first_dup(names: Seq<Seq<char>>, n: Seq<char>) -> bool {
    exists|j: int|
        0 <= j < names.len() && is_dup_at(names, j) && names[j] == n && (forall|j2: int|
            0 <= j2 < j ==> !is_dup_at(names, j2))
}

/// The name the duplicate check reports: the one at the earliest repeating
/// position. Meaningful only when `has_dup` holds.
pub open spec fn first_dup_name(names: Seq<Seq<char>>) -> Seq<char> {
    choose|n: Seq<char>| is_first_dup(names, n)
}

/// At most one name can sit at the earliest repeating position.
proof fn lemma_first_dup_unique(names: Seq<Seq<char>>, n1: Seq<char>, n2: Seq<char>)
    requires
        is_first_dup(names, n1),
        is_first_dup(names, n2),
    ensures
        n1 == n2,
{
    let j1 = choose|j: int|
        0 <= j < names.len() && is_dup_at(names, j) && names[j] == n1 && (forall|j2: int|
            0 <= j2 < j ==> !is_dup_at(names, j2));
    let j2 = choose|j: int|
        0 <= j < names.len() && is_dup_at(names, j) && names[j] == n2 && (forall|j3: int|
            0 <= j3 < j ==> !is_dup_at(names, j3));
    if j1 < j2 {
        assert(!is_dup_at(names, j1));
    } else if j2 < j1 {
        assert(!is_dup_at(names, j2));
    }
}

/// The named references one IDL type carries, in depth-first order.
pub open spec fn type_refs(t: IdlTypeView) -> Seq<Seq<char>>
    decreases t,
{
    match t {
        IdlTypeView::Defined(n) => seq![n],
        IdlTypeView::List(elem) => type_refs(*elem),
        IdlTypeView::Array(elem, _) => type_refs(*elem),
        IdlTypeView::Optional(elem) => type_refs(*elem),
        _ => Seq::empty(),
    }
}

/// The references of a field list, in field order.
pub open spec fn fields_refs(fs: Seq<IdlFieldView>) -> Seq<Seq<char>>
    decreases fs.len(),
{
    if fs.len() == 0 {
        Seq::empty()
    } else {
        fields_refs(fs.drop_last()) + type_refs(fs.last().ty)
    }
}

/// The references one enum variant carries.
pub open spec fn variant_refs(v: IdlEnumVariantView) -> Seq<Seq<char>> {
    match v.fields {
        Some(fs) => fields_refs(fs),
        None => Seq::empty(),
    }
}

/// The references of a variant list, in declaration order.
pub open spec fn variants_refs(vs: Seq<IdlEnumVariantView>) -> Seq<Seq<char>>
    decreases vs.len(),
{
    if vs.len() == 0 {
        Seq::empty()
    } else {
        variants_refs(vs.drop_last()) + variant_refs(vs.last())
    }
}

/// Every named reference one definition makes, in field order.
pub open spec fn def_refs(d: IdlTypeDefinitionView) -> Seq<Seq<char>> {
    match d.ty {
        IdlTypeDefinitionTyView::Struct { fields } => fields_refs(fields),
        IdlTypeDefinitionTyView::Enum { variants } => variants_refs(variants),
        IdlTypeDefinitionTyView::Unsupported => Seq::empty(),
    }
}

/// The first reference in the list that no declaration name matches.
pub open spec fn first_unresolved(names: Seq<Seq<char>>, refs: Seq<Seq<char>>) -> Option<Seq<char>>
    decreases refs.len(),
{
    if refs.len() == 0 {
        None
    } else if !names.contains(refs[0]) {
        Some(refs[0])
    } else {
        first_unresolved(names, refs.drop_first())
    }
}

/// Skipping references that resolve does not change the first unresolved one.
proof fn lemma_first_unresolved_skip(names: Seq<Seq<char>>, refs: Seq<Seq<char>>, i: int)
    requires
        0 <= i <= refs.len(),
        forall|k: int| 0 <= k < i ==> names.contains(#[trigger] refs[k]),
    ensures
        first_unresolved(names, refs) == first_unresolved(names, refs.skip(i)),
    decreases i,
{
    if i > 0 {
        lemma_first_unresolved_skip(names, refs, i - 1);
        assert(refs.skip(i - 1).drop_first() =~= refs.skip(i));
        assert(refs.skip(i - 1)[0] == refs[i - 1]);
    } else {
        assert(refs.skip(0) =~= refs);
    }
}

/// A field whose type is a bare reference to the given name. Containers
/// around a reference mediate it: the emitted member is then a sequence or a
/// nullable handle, not an inline expansion, so only a bare self-reference
/// counts as direct.
pub open spec fn field_mentions_self(f: IdlFieldView, name: Seq<char>) -> bool {
    f.ty == IdlTypeView::Defined(name)
}

/// Some field in the list is a bare reference to the given name.
pub open spec fn fields_mention_self(fs: Seq<IdlFieldView>, name: Seq<char>) -> bool {
    exists|j: int| 0 <= j < fs.len() && field_mentions_self(#[trigger] fs[j], name)
}

/// One variant carries a field that is a bare reference to the given name.
pub open spec fn variant_mentions_self(v: IdlEnumVariantView, name: Seq<char>) -> bool {
    match v.fields {
        Some(fs) => fields_mention_self(fs, name),
        None => false,
    }
}

/// The definition refers to itself without an indirection boundary.
pub open spec fn has_direct_self_recursion(d: IdlTypeDefinitionView) -> bool {
    match d.ty {
        IdlTypeDefinitionTyView::Struct { fields } => fields_mention_self(fields, d.name),
        IdlTypeDefinitionTyView::Enum { variants } => exists|i: int|
            0 <= i < variants.len() && variant_mentions_self(#[trigger] variants[i], d.name),
        IdlTypeDefinitionTyView::Unsupported => false,
    }
}

/// Why one definition is rejected, if it is: an unsupported shape first, then
/// direct self-recursion, then the first dangling reference.
pub open spec fn def_error(d: IdlTypeDefinitionView, names: Seq<Seq<char>>) -> Option<
    GenErrorView,
> {
    if d.ty is Unsupported {
        Some(GenErrorView::UnsupportedDefinitionKind(d.name))
    } else if has_direct_self_recursion(d) {
        Some(GenErrorView::DirectSelfRecursion(d.name))
    } else {
        match first_unresolved(names, def_refs(d)) {
            Some(n) => Some(GenErrorView::UnresolvedReference(n)),
            None => None,
        }
    }
}

/// The error of the first ill-formed definition, in processing order.
pub open spec fn first_def_error(defs: Seq<IdlTypeDefinitionView>, names: Seq<Seq<char>>) -> Option<
    GenErrorView,
>
    decreases defs.len(),
{
    if defs.len() == 0 {
        None
    } else {
        match def_error(defs[0], names) {
            Some(e) => Some(e),
            None => first_def_error(defs.drop_first(), names),
        }
    }
}

/// Skipping well-formed definitions does not change the first reported error.
proof fn lemma_first_def_error_skip(
    defs: Seq<IdlTypeDefinitionView>,
    names: Seq<Seq<char>>,
    i: int,
)
    requires
        0 <= i <= defs.len(),
        forall|k: int| 0 <= k < i ==> def_error(#[trigger] defs[k], names) is None,
    ensures
        first_def_error(defs, names) == first_def_error(defs.skip(i), names),
    decreases i,
{
    if i > 0 {
        lemma_first_def_error_skip(defs, names, i - 1);
        assert(defs.skip(i - 1).drop_first() =~= defs.skip(i));
        assert(defs.skip(i - 1)[0] == defs[i - 1]);
    } else {
        assert(defs.skip(0) =~= defs);
    }
}

/// The document a well-formed IDL assembles to: the namespace named from the
/// document (target-cased) and one declaration per definition, accounts first,
/// document order within each group.
pub open spec fn spec_document(v: IdlView, style: CaseStyle) -> DocumentView {
    DocumentView {
        namespace: spec_cased(style, v.name),
        decls: combined_defs(v).map_values(
            |d: IdlTypeDefinitionView| spec_synthesize(d, style)->Ok_0,
        ),
    }
}

/// What assembling a document yields: the duplicate-name check first, then
/// the first ill-formed definition's error, else the assembled document.
pub open spec fn spec_assemble(v: IdlView, style: CaseStyle) -> Result<DocumentView, GenErrorView> {
    let names = names_of(combined_defs(v));
    if has_dup(names) {
        Err(GenErrorView::DuplicateDeclarationName(first_dup_name(names)))
    } else {
        match first_def_error(combined_defs(v), names) {
            Some(e) => Err(e),
            None => Ok(spec_document(v, style)),
        }
    }
}

/// Clone the declaration names of all definitions, in processing order.
fn collect_names(idl: &Idl) -> (names: Vec<String>)
    ensures
        names.deep_view() == names_of(combined_defs(idl.deep_view())),
{
    let ghost defs = combined_defs(idl.deep_view());
    let mut names: Vec<String> = Vec::new();
    let mut i: usize = 0;
    while i < idl.accounts.len()
        invariant
            i <= idl.accounts@.len(),
            defs == combined_defs(idl.deep_view()),
            names.deep_view() =~= defs.take(i as int).map_values(
                |d: IdlTypeDefinitionView| d.name,
            ),
        decreases idl.accounts.len() - i,
    {
        names.push(idl.accounts[i].name.clone());
        proof {
            assert(defs[i as int] == idl.accounts.deep_view()[i as int]);
            defs.lemma_map_take_succ(|d: IdlTypeDefinitionView| d.name, i as int);
        }
        i = i + 1;
    }
    let mut j: usize = 0;
    while j < idl.types.len()
        invariant
            j <= idl.types@.len(),
            defs == combined_defs(idl.deep_view()),
            names.deep_view() =~= defs.take(
                idl.accounts.deep_view().len() as int + j as int,
            ).map_values(|d: IdlTypeDefinitionView| d.name),
        decreases idl.types.len() - j,
    {
        let ghost k = idl.accounts.deep_view().len() as int + j as int;
        names.push(idl.types[j].name.clone());
        proof {
            assert(defs[k] == idl.types.deep_view()[j as int]);
            defs.lemma_map_take_succ(|d: IdlTypeDefinitionView| d.name, k);
        }
        j = j + 1;
    }
    proof {
        assert(defs.take(defs.len() as int) =~= defs);
    }
    names
}

/// Whether some declaration name matches the given one.
fn contains_name(names: &Vec<String>, n: &String) -> (r: bool)
    ensures
        r == names.deep_view().contains(n.deep_view()),
{
    let mut i: usize = 0;
    while i < names.len()
        invariant
            i <= names.len(),
            forall|k: int| 0 <= k < i ==> names.deep_view()[k] != n.deep_view(),
        decreases names.len() - i,
    {
        if names[i].eq(n) {
            proof {
                assert(names.deep_view()[i as int] == n.deep_view());
            }
            return true;
        }
        i = i + 1;
    }
    false
}

/// Find the name at the earliest position that repeats an earlier name.
fn find_first_dup(names: &Vec<String>) -> (r: Option<String>)
    ensures
        match r {
            Some(n) => has_dup(names.deep_view()) && is_first_dup(names.deep_view(), n.deep_view()),
            None => !has_dup(names.deep_view()),
        },
{
    let ghost dv = names.deep_view();
    let mut j: usize = 1;
    if names.len() == 0 {
        return None;
    }
    while j < names.len()
        invariant
            1 <= j <= names.len(),
            dv == names.deep_view(),
            forall|j2: int| 0 <= j2 < j ==> !is_dup_at(dv, j2),
        decreases names.len() - j,
    {
        let mut k: usize = 0;
        while k < j
            invariant
                j < names.len(),
                k <= j,
                dv == names.deep_view(),
                forall|j2: int| 0 <= j2 < j ==> !is_dup_at(dv, j2),
                forall|k2: int| 0 <= k2 < k ==> dv[k2] != dv[j as int],
            decreases j - k,
        {
            if names[k].eq(&names[j]) {
                proof {
                    assert(dv[k as int] == dv[j as int]);
                    assert(is_dup_at(dv, j as int));
                    assert(has_dup(dv));
                    assert(is_first_dup(dv, dv[j as int]));
                }
                return Some(names[j].clone());
            }
            k = k + 1;
        }
        proof {
            assert(!is_dup_at(dv, j as int));
        }
        j = j + 1;
    }
    proof {
        assert(forall|j2: int| 0 <= j2 < dv.len() ==> !is_dup_at(dv, j2));
    }
    None
}

/// Append the references of one IDL type, in depth-first order.
fn push_type_refs(t: &IdlType, out: &mut Vec<String>)
    ensures
        final(out).deep_view() == old(out).deep_view() + type_refs(t.deep_view()),
    decreases t,
{
    match t {
        IdlType::Defined(n) => {
            out.push(n.clone());
            proof {
                assert(final(out).deep_view() =~= old(out).deep_view() + type_refs(t.deep_view()));
            }
        },
        IdlType::List(elem) => {
            push_type_refs(elem, out);
        },
        IdlType::Array(elem, _) => {
            push_type_refs(elem, out);
        },
        IdlType::Optional(elem) => {
            push_type_refs(elem, out);
        },
        _ => {
            proof {
                assert(final(out).deep_view() =~= old(out).deep_view() + type_refs(t.deep_view()));
            }
        },
    }
}

/// Append the references of a field list, in field order.
fn push_fields_refs(fields: &Vec<IdlField>, out: &mut Vec<String>)
    ensures
        final(out).deep_view() == old(out).deep_view() + fields_refs(fields.deep_view()),
{
    let mut i: usize = 0;
    while i < fields.len()
        invariant
            i <= fields.len(),
            out.deep_view() =~= old(out).deep_view() + fields_refs(
                fields.deep_view().take(i as int),
            ),
        decreases fields.len() - i,
    {
        push_type_refs(&fields[i].ty, out);
        proof {
            let fv = fields.deep_view();
            assert(fv.take(i + 1).drop_last() =~= fv.take(i as int));
            assert(fv.take(i + 1).last() == fv[i as int]);
        }
        i = i + 1;
    }
    proof {
        assert(fields.deep_view().take(fields.len() as int) =~= fields.deep_view());
    }
}

/// Every reference one definition makes, in field order.
fn collect_def_refs(def: &IdlTypeDefinition) -> (refs: Vec<String>)
    ensures
        refs.deep_view() == def_refs(def.deep_view()),
{
    let mut refs: Vec<String> = Vec::new();
    match &def.ty {
        IdlTypeDefinitionTy::Struct { fields } => {
            push_fields_refs(fields, &mut refs);
        },
        IdlTypeDefinitionTy::Enum { variants } => {
            let mut i: usize = 0;
            while i < variants.len()
                invariant
                    i <= variants.len(),
                    refs.deep_view() =~= variants_refs(variants.deep_view().take(i as int)),
                decreases variants.len() - i,
            {
                match &variants[i].fields {
                    Some(fs) => {
                        push_fields_refs(fs, &mut refs);
                    },
                    None => {},
                }
                proof {
                    let vv = variants.deep_view();
                    assert(vv.take(i + 1).drop_last() =~= vv.take(i as int));
                    assert(vv.take(i + 1).last() == vv[i as int]);
                    assert(refs.deep_view() =~= variants_refs(vv.take(i + 1)));
                }
                i = i + 1;
            }
            proof {
                assert(variants.deep_view().take(variants.len() as int)
                    =~= variants.deep_view());
            }
        },
        IdlTypeDefinitionTy::Unsupported => {},
    }
    refs
}

/// The first reference in the list that no declaration name matches.
fn find_first_unresolved(names: &Vec<String>, refs: &Vec<String>) -> (r: Option<String>)
    ensures
        r.deep_view() == first_unresolved(names.deep_view(), refs.deep_view()),
{
    let ghost nv = names.deep_view();
    let ghost rv = refs.deep_view();
    let mut i: usize = 0;
    while i < refs.len()
        invariant
            i <= refs.len(),
            nv == names.deep_view(),
            rv == refs.deep_view(),
            forall|k: int| 0 <= k < i ==> nv.contains(#[trigger] rv[k]),
        decreases refs.len() - i,
    {
        if !contains_name(names, &refs[i]) {
            proof {
                lemma_first_unresolved_skip(nv, rv, i as int);
                assert(rv.skip(i as int)[0] == rv[i as int]);
            }
            return Some(refs[i].clone());
        }
        i = i + 1;
    }
    proof {
        lemma_first_unresolved_skip(nv, rv, rv.len() as int);
        assert(rv.skip(rv.len() as int) =~= Seq::empty());
    }
    None
}

/// Whether the field's type is a bare reference to the given name.
fn field_is_self_ref(f: &IdlField, name: &String) -> (r: bool)
    ensures
        r == field_mentions_self(f.deep_view(), name.deep_view()),
{
    match &f.ty {
        IdlType::Defined(n) => n.eq(name),
        _ => false,
    }
}

/// Whether some field in the list is a bare reference to the given name.
fn fields_have_self_ref(fields: &Vec<IdlField>, name: &String) -> (r: bool)
    ensures
        r == fields_mention_self(fields.deep_view(), name.deep_view()),
{
    let mut i: usize = 0;
    while i < fields.len()
        invariant
            i <= fields.len(),
            forall|k: int| 0 <= k < i ==> !field_mentions_self(
                #[trigger] fields.deep_view()[k],
                name.deep_view(),
            ),
        decreases fields.len() - i,
    {
        if field_is_self_ref(&fields[i], name) {
            proof {
                assert(field_mentions_self(fields.deep_view()[i as int], name.deep_view()));
            }
            return true;
        }
        i = i + 1;
    }
    false
}

/// Whether the definition refers to itself without an indirection boundary.
fn check_self_recursion(def: &IdlTypeDefinition) -> (r: bool)
    ensures
        r == has_direct_self_recursion(def.deep_view()),
{
    match &def.ty {
        IdlTypeDefinitionTy::Struct { fields } => fields_have_self_ref(fields, &def.name),
        IdlTypeDefinitionTy::Enum { variants } => {
            let mut i: usize = 0;
            while i < variants.len()
                invariant
                    i <= variants.len(),
                    (def.deep_view().ty matches IdlTypeDefinitionTyView::Enum { variants: vv }
                        && vv == variants.deep_view()),
                    forall|k: int| 0 <= k < i ==> !variant_mentions_self(
                        #[trigger] variants.deep_view()[k],
                        def.name.deep_view(),
                    ),
                decreases variants.len() - i,
            {
                let v = &variants[i];
                proof {
                    assert(v.deep_view() == variants.deep_view()[i as int]);
                }
                let hit = match &v.fields {
                    Some(fs) => {
                        let h = fields_have_self_ref(fs, &def.name);
                        proof {
                            assert(v.deep_view().fields == Some(fs.deep_view()));
                            assert(h == variant_mentions_self(v.deep_view(), def.name.deep_view()));
                        }
                        h
                    },
                    None => false,
                };
                if hit {
                    proof {
                        let dv = def.deep_view();
                        match dv.ty {
                            IdlTypeDefinitionTyView::Enum { variants: vv } => {
                                assert(vv == variants.deep_view());
                                assert(variant_mentions_self(vv[i as int], dv.name));
                                assert(has_direct_self_recursion(dv));
                            },
                            _ => {
                                assert(false);
                            },
                        }
                    }
                    return true;
                }
                i = i + 1;
            }
            false
        },
        IdlTypeDefinitionTy::Unsupported => false,
    }
}

/// Validate one definition against the document's declaration names.
fn check_def(def: &IdlTypeDefinition, names: &Vec<String>) -> (r: Option<GenError>)
    ensures
        r.deep_view() == def_error(def.deep_view(), names.deep_view()),
{
    if let IdlTypeDefinitionTy::Unsupported = &def.ty {
        return Some(GenError::UnsupportedDefinitionKind(def.name.clone()));
    }
    if check_self_recursion(def) {
        return Some(GenError::DirectSelfRecursion(def.name.clone()));
    }
    let refs = collect_def_refs(def);
    match find_first_unresolved(names, &refs) {
        Some(n) => Some(GenError::UnresolvedReference(n)),
        None => None,
    }
}

/// Assemble a whole document: validate it, synthesize every definition in
/// order, and wrap the declarations in one namespace named from the document.
pub fn assemble(idl: &Idl, style: CaseStyle) -> (r: Result<Document, GenError>)
    ensures
        result_view(r) == spec_assemble(idl.deep_view(), style),
{
    let ghost v = idl.deep_view();
    let ghost defs = combined_defs(v);
    let names = collect_names(idl);
    let ghost nv = names_of(defs);
    match find_first_dup(&names) {
        Some(n) => {
            proof {
                lemma_first_dup_unique(nv, n.deep_view(), first_dup_name(nv));
            }
            return Err(GenError::DuplicateDeclarationName(n));
        },
        None => {},
    }
    let mut decls: Vec<Declaration> = Vec::new();
    let mut i: usize = 0;
    while i < idl.accounts.len()
        invariant
            i <= idl.accounts@.len(),
            v == idl.deep_view(),
            defs == combined_defs(v),
            names.deep_view() == nv,
            nv == names_of(defs),
            !has_dup(nv),
            forall|k: int| 0 <= k < i ==> def_error(#[trigger] defs[k], nv) is None,
            decls.deep_view() =~= defs.take(i as int).map_values(
                |d: IdlTypeDefinitionView| spec_synthesize(d, style)->Ok_0,
            ),
        decreases idl.accounts.len() - i,
    {
        let def = &idl.accounts[i];
        proof {
            assert(def.deep_view() == defs[i as int]);
        }
        match check_def(def, &names) {
            Some(e) => {
                proof {
                    lemma_first_def_error_skip(defs, nv, i as int);
                    assert(defs.skip(i as int).len() > 0);
                    assert(defs.skip(i as int)[0] == defs[i as int]);
                    assert(first_def_error(defs, nv) == Some(e.deep_view()));
                }
                return Err(e);
            },
            None => {},
        }
        match synthesize(def, style) {
            Ok(d) => {
                decls.push(d);
                proof {
                    defs.lemma_map_take_succ(
                        |d: IdlTypeDefinitionView| spec_synthesize(d, style)->Ok_0,
                        i as int,
                    );
                }
            },
            Err(e) => {
                proof {
                    assert(def_error(defs[i as int], nv) is None);
                    assert(false);
                }
                return Err(e);
            },
        }
        i = i + 1;
    }
    let mut j: usize = 0;
    while j < idl.types.len()
        invariant
            j <= idl.types@.len(),
            v == idl.deep_view(),
            defs == combined_defs(v),
            names.deep_view() == nv,
            nv == names_of(defs),
            !has_dup(nv),
            forall|k: int| 0 <= k < v.accounts.len() + j ==> def_error(
                #[trigger] defs[k],
                nv,
            ) is None,
            decls.deep_view() =~= defs.take(v.accounts.len() as int + j as int).map_values(
                |d: IdlTypeDefinitionView| spec_synthesize(d, style)->Ok_0,
            ),
        decreases idl.types.len() - j,
    {
        let ghost di = v.accounts.len() as int + j as int;
        let def = &idl.types[j];
        proof {
            assert(def.deep_view() == defs[di]);
        }
        match check_def(def, &names) {
            Some(e) => {
                proof {
                    lemma_first_def_error_skip(defs, nv, di);
                    assert(defs.skip(di).len() > 0);
                    assert(defs.skip(di)[0] == defs[di]);
                    assert(first_def_error(defs, nv) == Some(e.deep_view()));
                }
                return Err(e);
            },
            None => {},
        }
        match synthesize(def, style) {
            Ok(d) => {
                decls.push(d);
                proof {
                    defs.lemma_map_take_succ(
                        |d: IdlTypeDefinitionView| spec_synthesize(d, style)->Ok_0,
                        di,
                    );
                }
            },
            Err(e) => {
                proof {
                    assert(def_error(defs[di], nv) is None);
                    assert(false);
                }
                return Err(e);
            },
        }
        j = j + 1;
    }
    let namespace = apply_case(style, idl.name.as_str());
    let doc = Document { namespace, decls };
    proof {
        lemma_first_def_error_skip(defs, nv, defs.len() as int);
        assert(defs.skip(defs.len() as int) =~= Seq::empty());
        assert(defs.take(defs.len() as int) =~= defs);
        assert(doc.deep_view().decls =~= spec_document(v, style).decls);
    }
    Ok(doc)
}

} // verus!
