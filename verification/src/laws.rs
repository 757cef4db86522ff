//! The laws of the pipeline, stated and proved over the same spec functions
//! the executable contracts use: determinism of generation, order
//! preservation, enum purity dispatch, reference integrity, and duplicate
//! detection.

use vstd::prelude::*;

use crate::assemble::{combined_defs, def_error, def_refs, first_def_error, first_dup_name,
    first_unresolved, has_direct_self_recursion, has_dup, is_dup_at, is_first_dup, names_of,
    spec_assemble, type_refs};
use crate::casing::{CaseStyle, spec_cased};
use crate::error::GenErrorView;
use crate::idl::{IdlTypeDefinitionTyView, IdlTypeDefinitionView, IdlTypeView, IdlView};
use crate::pipeline::spec_generate;
use crate::resolve::{TypeExprView, spec_resolve};
use crate::synth::{DeclBodyView, spec_is_pure, spec_member, spec_synthesize, spec_variant};

verus! {

/// The declaration names a resolved type expression refers to, in
/// depth-first order.
pub open spec fn expr_refs(e: TypeExprView) -> Seq<Seq<char>>
    decreases e,
{
    match e {
        TypeExprView::Ref(n) => seq![n],
        TypeExprView::Sequence { elem, .. } => expr_refs(*elem),
        TypeExprView::Optional(elem) => expr_refs(*elem),
        _ => Seq::empty(),
    }
}

/// References survive resolution: a resolved type expression refers to
/// exactly the declarations its IDL type named, in the same order. Together
/// with `lemma_generate_ok_iff_well_formed` this carries reference integrity
/// to the emitted members: whatever they refer to exists in the document.
pub proof fn lemma_resolve_preserves_references(t: IdlTypeView)
    ensures
        expr_refs(spec_resolve(t)) == type_refs(t),
    decreases t,
{
    match t {
        IdlTypeView::List(elem) => lemma_resolve_preserves_references(*elem),
        IdlTypeView::Array(elem, _) => lemma_resolve_preserves_references(*elem),
        IdlTypeView::Optional(elem) => lemma_resolve_preserves_references(*elem),
        _ => {},
    }
}

/// Every reference in the list matches some declaration name.
pub open spec fn all_refs_resolve(names: Seq<Seq<char>>, refs: Seq<Seq<char>>) -> bool {
    forall|i: int| 0 <= i < refs.len() ==> names.contains(#[trigger] refs[i])
}

/// One definition is acceptable: a supported shape, no direct
/// self-recursion, and every reference it makes resolves.
pub open spec fn def_well_formed(d: IdlTypeDefinitionView, names: Seq<Seq<char>>) -> bool {
    &&& !(d.ty is Unsupported)
    &&& !has_direct_self_recursion(d)
    &&& all_refs_resolve(names, def_refs(d))
}

/// A whole document is acceptable: no duplicate declaration name and every
/// definition well-formed.
pub open spec fn well_formed(v: IdlView) -> bool {
    &&& !has_dup(names_of(combined_defs(v)))
    &&& forall|i: int|
        0 <= i < combined_defs(v).len() ==> def_well_formed(
            #[trigger] combined_defs(v)[i],
            names_of(combined_defs(v)),
        )
}

/// No reference is reported unresolved exactly when all of them resolve.
proof fn lemma_first_unresolved_none_iff(names: Seq<Seq<char>>, refs: Seq<Seq<char>>)
    ensures
        first_unresolved(names, refs) is None <==> all_refs_resolve(names, refs),
    decreases refs.len(),
{
    if refs.len() > 0 && names.contains(refs[0]) {
        lemma_first_unresolved_none_iff(names, refs.drop_first());
        if all_refs_resolve(names, refs.drop_first()) {
            assert forall|i: int| 0 <= i < refs.len() implies names.contains(
                #[trigger] refs[i],
            ) by {
                if i > 0 {
                    assert(refs.drop_first()[i - 1] == refs[i]);
                }
            }
        } else {
            let i = choose|i: int|
                0 <= i < refs.drop_first().len() && !names.contains(#[trigger] refs.drop_first()[i]);
            assert(refs.drop_first()[i] == refs[i + 1]);
        }
    }
}

/// A reference reported unresolved indeed matches no declaration name.
proof fn lemma_first_unresolved_dangling(names: Seq<Seq<char>>, refs: Seq<Seq<char>>)
    ensures
        match first_unresolved(names, refs) {
            Some(n) => !names.contains(n) && refs.contains(n),
            None => true,
        },
    decreases refs.len(),
{
    if refs.len() > 0 {
        if names.contains(refs[0]) {
            lemma_first_unresolved_dangling(names, refs.drop_first());
            if first_unresolved(names, refs.drop_first()) is Some {
                let n = first_unresolved(names, refs.drop_first())->Some_0;
                let i = choose|i: int| 0 <= i < refs.drop_first().len() && refs.drop_first()[i] == n;
                assert(refs[i + 1] == n);
            }
        }
    }
}

/// No definition error is reported exactly when every definition passes.
proof fn lemma_first_def_error_none_iff(defs: Seq<IdlTypeDefinitionView>, names: Seq<Seq<char>>)
    ensures
        first_def_error(defs, names) is None <==> (forall|i: int|
            0 <= i < defs.len() ==> def_error(#[trigger] defs[i], names) is None),
    decreases defs.len(),
{
    if defs.len() > 0 && def_error(defs[0], names) is None {
        lemma_first_def_error_none_iff(defs.drop_first(), names);
        if forall|i: int|
            0 <= i < defs.drop_first().len() ==> def_error(
                #[trigger] defs.drop_first()[i],
                names,
            ) is None {
            assert forall|i: int| 0 <= i < defs.len() implies def_error(
                #[trigger] defs[i],
                names,
            ) is None by {
                if i > 0 {
                    assert(defs.drop_first()[i - 1] == defs[i]);
                }
            }
        } else {
            let i = choose|i: int|
                0 <= i < defs.drop_first().len() && !(def_error(
                    #[trigger] defs.drop_first()[i],
                    names,
                ) is None);
            assert(defs.drop_first()[i] == defs[i + 1]);
        }
    }
}

/// The error reported for a document is the error of one of its definitions.
proof fn lemma_first_def_error_witness(defs: Seq<IdlTypeDefinitionView>, names: Seq<Seq<char>>)
    ensures
        match first_def_error(defs, names) {
            Some(e) => exists|i: int|
                0 <= i < defs.len() && def_error(#[trigger] defs[i], names) == Some(e),
            None => true,
        },
    decreases defs.len(),
{
    if defs.len() > 0 {
        if def_error(defs[0], names) is Some {
        } else {
            lemma_first_def_error_witness(defs.drop_first(), names);
            if first_def_error(defs.drop_first(), names) is Some {
                let e = first_def_error(defs.drop_first(), names)->Some_0;
                let i = choose|i: int|
                    0 <= i < defs.drop_first().len() && def_error(
                        #[trigger] defs.drop_first()[i],
                        names,
                    ) == Some(e);
                assert(defs.drop_first()[i] == defs[i + 1]);
                assert(def_error(defs[i + 1], names) == Some(e));
            }
        }
    }
}

/// One definition passes validation exactly when it is well-formed.
proof fn lemma_def_error_none_iff(d: IdlTypeDefinitionView, names: Seq<Seq<char>>)
    ensures
        def_error(d, names) is None <==> def_well_formed(d, names),
{
    lemma_first_unresolved_none_iff(names, def_refs(d));
}

/// Determinism: what generation yields is a function of the document's view
/// and the casing policy alone, so repeated runs on structurally equal
/// documents produce byte-identical output.
pub proof fn lemma_generate_deterministic(a: IdlView, b: IdlView, style: CaseStyle)
    requires
        a == b,
    ensures
        spec_generate(a, style) == spec_generate(b, style),
{
}

/// Generation succeeds exactly on well-formed documents: no duplicate
/// declaration name, no unsupported definition shape, no direct
/// self-recursion, and every reference resolved.
pub proof fn lemma_generate_ok_iff_well_formed(v: IdlView, style: CaseStyle)
    ensures
        spec_generate(v, style) is Ok <==> well_formed(v),
{
    let defs = combined_defs(v);
    let names = names_of(defs);
    lemma_first_def_error_none_iff(defs, names);
    assert forall|i: int| 0 <= i < defs.len() implies (def_error(#[trigger] defs[i], names) is None
        <==> def_well_formed(defs[i], names)) by {
        lemma_def_error_none_iff(defs[i], names);
    }
}

/// Duplicate detection: a document in which two definitions share a name is
/// rejected with that name — the one at the earliest repeating position.
pub proof fn lemma_duplicate_rejected(v: IdlView, style: CaseStyle)
    requires
        has_dup(names_of(combined_defs(v))),
    ensures
        spec_generate(v, style) == Err::<Seq<char>, GenErrorView>(
            GenErrorView::DuplicateDeclarationName(first_dup_name(names_of(combined_defs(v)))),
        ),
        is_first_dup(names_of(combined_defs(v)), first_dup_name(names_of(combined_defs(v)))),
{
    let names = names_of(combined_defs(v));
    let j = choose|j: int| 0 <= j < names.len() && is_dup_at(names, j);
    lemma_exists_first_dup(names, j);
    assert(is_first_dup(names, first_dup_name(names)));
}

/// Below any repeating position there is an earliest one.
proof fn lemma_exists_first_dup(names: Seq<Seq<char>>, j: int)
    requires
        0 <= j < names.len(),
        is_dup_at(names, j),
    ensures
        exists|n: Seq<char>| is_first_dup(names, n),
    decreases j,
{
    if forall|j2: int| 0 <= j2 < j ==> !is_dup_at(names, j2) {
        assert(is_first_dup(names, names[j]));
    } else {
        let j2 = choose|j2: int| 0 <= j2 < j && is_dup_at(names, j2);
        lemma_exists_first_dup(names, j2);
    }
}

/// Reference integrity: in a document that is otherwise acceptable, a
/// dangling reference makes generation fail with `UnresolvedReference`, and
/// the reported name indeed matches no declaration.
pub proof fn lemma_dangling_reference_rejected(v: IdlView, style: CaseStyle)
    requires
        !has_dup(names_of(combined_defs(v))),
        forall|i: int|
            0 <= i < combined_defs(v).len() ==> !((#[trigger] combined_defs(v)[i]).ty
                is Unsupported) && !has_direct_self_recursion(combined_defs(v)[i]),
        exists|i: int|
            0 <= i < combined_defs(v).len() && !all_refs_resolve(
                names_of(combined_defs(v)),
                def_refs(#[trigger] combined_defs(v)[i]),
            ),
    ensures
        spec_generate(v, style) matches Err(GenErrorView::UnresolvedReference(n))
            && !names_of(combined_defs(v)).contains(n),
{
    let defs = combined_defs(v);
    let names = names_of(defs);
    let bad = choose|i: int|
        0 <= i < defs.len() && !all_refs_resolve(names, def_refs(#[trigger] defs[i]));
    lemma_def_error_none_iff(defs[bad], names);
    lemma_first_def_error_none_iff(defs, names);
    assert(first_def_error(defs, names) is Some);
    lemma_first_def_error_witness(defs, names);
    let e = first_def_error(defs, names)->Some_0;
    let w = choose|i: int| 0 <= i < defs.len() && def_error(#[trigger] defs[i], names) == Some(e);
    lemma_first_unresolved_dangling(names, def_refs(defs[w]));
}

/// Order preservation: a struct synthesizes to a record whose members stand
/// in field order — member `i` is field `i`'s type resolved and field `i`'s
/// name re-cased.
pub proof fn lemma_struct_order_preserved(d: IdlTypeDefinitionView, style: CaseStyle)
    ensures
        match d.ty {
            IdlTypeDefinitionTyView::Struct { fields } => {
                let r = spec_synthesize(d, style);
                &&& r is Ok
                &&& r->Ok_0.name == spec_cased(style, d.name)
                &&& (r->Ok_0.body matches DeclBodyView::Record { members: ms } && ms.len()
                    == fields.len() && (forall|i: int|
                    0 <= i < fields.len() ==> ms[i] == spec_member(#[trigger] fields[i], style)))
            },
            _ => true,
        },
{
}

/// Enum purity dispatch: an enum whose variants all carry no data becomes a
/// simple enumeration listing variant names in order; an enum with at least
/// one data-carrying variant becomes a tagged union whose arm at discriminant
/// `i` is variant `i`, its fields mapped exactly as in the struct case.
pub proof fn lemma_enum_purity_dispatch(d: IdlTypeDefinitionView, style: CaseStyle)
    ensures
        match d.ty {
            IdlTypeDefinitionTyView::Enum { variants } => {
                let r = spec_synthesize(d, style);
                &&& r is Ok
                &&& r->Ok_0.name == spec_cased(style, d.name)
                &&& (spec_is_pure(variants) ==> (r->Ok_0.body matches DeclBodyView::Enumeration {
                    values,
                } && values.len() == variants.len() && (forall|i: int|
                    0 <= i < variants.len() ==> values[i] == (#[trigger] variants[i]).name)))
                &&& (!spec_is_pure(variants) ==> (r->Ok_0.body matches DeclBodyView::Union {
                    variants: arms,
                } && arms.len() == variants.len() && (forall|i: int|
                    0 <= i < variants.len() ==> arms[i] == spec_variant(
                        #[trigger] variants[i],
                        style,
                    ))))
            },
            _ => true,
        },
{
}

} // verus!
