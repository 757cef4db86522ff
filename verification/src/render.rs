//! The emission backend: turns the assembled document into C# source text.
//! It consumes only the emitted-declaration model, never the original IDL,
//! and rendering is a pure function of its input, so swapping the concrete
//! syntax never touches type resolution or synthesis.

use vstd::prelude::*;
use vstd::string::StringExecFns;

use crate::assemble::{Document, DocumentView};
use crate::resolve::{TypeExpr, TypeExprView};
use crate::synth::{Declaration, DeclarationView, DeclBody, DeclBodyView, Member, MemberView,
    UnionVariant, UnionVariantView};

verus! {

/// The C# spelling of one type expression. A sequence renders as an array
/// whether or not it carries a fixed length; an optional renders as a
/// nullable type.
pub open spec fn spec_type_text(e: TypeExprView) -> Seq<char>
    decreases e,
{
    match e {
        TypeExprView::Int { signed, width } => if signed {
            if width == 8 {
                "sbyte"@
            } else if width == 16 {
                "short"@
            } else if width == 32 {
                "int"@
            } else {
                "long"@
            }
        } else {
            if width == 8 {
                "byte"@
            } else if width == 16 {
                "ushort"@
            } else if width == 32 {
                "uint"@
            } else {
                "ulong"@
            }
        },
        TypeExprView::BigInt => "BigInteger"@,
        TypeExprView::PublicKey => "PublicKey"@,
        TypeExprView::Bool => "bool"@,
        TypeExprView::Text => "string"@,
        TypeExprView::Bytes => "byte[]"@,
        TypeExprView::Ref(name) => name,
        TypeExprView::Sequence { elem, .. } => spec_type_text(*elem) + "[]"@,
        TypeExprView::Optional(elem) => spec_type_text(*elem) + "?"@,
    }
}

/// One member line: an auto-property.
pub open spec fn spec_member_text(m: MemberView) -> Seq<char> {
    "        public "@ + spec_type_text(m.ty) + " "@ + m.name + " { get; set; }\n"@
}

/// The member lines of a record, in member order.
pub open spec fn spec_members_text(ms: Seq<MemberView>) -> Seq<char>
    decreases ms.len(),
{
    if ms.len() == 0 {
        Seq::empty()
    } else {
        spec_members_text(ms.drop_last()) + spec_member_text(ms.last())
    }
}

/// One enumeration value line.
pub open spec fn spec_value_text(v: Seq<char>) -> Seq<char> {
    "        "@ + v + ",\n"@
}

/// The value lines of an enumeration, in declaration order.
pub open spec fn spec_values_text(vs: Seq<Seq<char>>) -> Seq<char>
    decreases vs.len(),
{
    if vs.len() == 0 {
        Seq::empty()
    } else {
        spec_values_text(vs.drop_last()) + spec_value_text(vs.last())
    }
}

/// One arm of a tagged union: a class named after the base and the variant,
/// deriving from the base.
pub open spec fn spec_arm_text(base: Seq<char>, v: UnionVariantView) -> Seq<char> {
    "    public class "@ + base + v.name + " : "@ + base + "\n    {\n"@ + spec_members_text(
        v.members,
    ) + "    }\n"@
}

/// The arms of a tagged union, in discriminant order.
pub open spec fn spec_arms_text(base: Seq<char>, vs: Seq<UnionVariantView>) -> Seq<char>
    decreases vs.len(),
{
    if vs.len() == 0 {
        Seq::empty()
    } else {
        spec_arms_text(base, vs.drop_last()) + spec_arm_text(base, vs.last())
    }
}

/// One declaration: a class for a record, an enum for an enumeration, and an
/// abstract base class followed by one class per arm for a tagged union.
pub open spec fn spec_decl_text(d: DeclarationView) -> Seq<char> {
    match d.body {
        DeclBodyView::Record { members } => "    public class "@ + d.name + "\n    {\n"@
            + spec_members_text(members) + "    }\n"@,
        DeclBodyView::Enumeration { values } => "    public enum "@ + d.name + "\n    {\n"@
            + spec_values_text(values) + "    }\n"@,
        DeclBodyView::Union { variants } => "    public abstract class "@ + d.name
            + "\n    {\n    }\n"@ + spec_arms_text(d.name, variants),
    }
}

/// The declarations of the document, in assembled order.
pub open spec fn spec_decls_text(ds: Seq<DeclarationView>) -> Seq<char>
    decreases ds.len(),
{
    if ds.len() == 0 {
        Seq::empty()
    } else {
        spec_decls_text(ds.drop_last()) + spec_decl_text(ds.last())
    }
}

/// The whole output unit: the namespace wrapping the declarations.
pub open spec fn spec_render(doc: DocumentView) -> Seq<char> {
    "namespace "@ + doc.namespace + "\n{\n"@ + spec_decls_text(doc.decls) + "}\n"@
}

/// The C# spelling of one type expression.
pub fn type_text(e: &TypeExpr) -> (r: String)
    ensures
        r@ == spec_type_text(e.deep_view()),
    decreases e,
{
    match e {
        TypeExpr::Int { signed, width } => {
            if *signed {
                if *width == 8 {
                    "sbyte".to_owned()
                } else if *width == 16 {
                    "short".to_owned()
                } else if *width == 32 {
                    "int".to_owned()
                } else {
                    "long".to_owned()
                }
            } else {
                if *width == 8 {
                    "byte".to_owned()
                } else if *width == 16 {
                    "ushort".to_owned()
                } else if *width == 32 {
                    "uint".to_owned()
                } else {
                    "ulong".to_owned()
                }
            }
        },
        TypeExpr::BigInt => "BigInteger".to_owned(),
        TypeExpr::PublicKey => "PublicKey".to_owned(),
        TypeExpr::Bool => "bool".to_owned(),
        TypeExpr::Text => "string".to_owned(),
        TypeExpr::Bytes => "byte[]".to_owned(),
        TypeExpr::Ref(name) => name.clone(),
        TypeExpr::Sequence { elem, .. } => {
            let mut s = type_text(elem);
            s.append("[]");
            s
        },
        TypeExpr::Optional(elem) => {
            let mut s = type_text(elem);
            s.append("?");
            s
        },
    }
}

/// Render one member line.
pub fn member_text(m: &Member) -> (r: String)
    ensures
        r@ == spec_member_text(m.deep_view()),
{
    let mut s = "        public ".to_owned();
    let t = type_text(&m.ty);
    s.append(t.as_str());
    s.append(" ");
    s.append(m.name.as_str());
    s.append(" { get; set; }\n");
    s
}

/// Render the member lines of a record.
fn members_text(ms: &Vec<Member>) -> (r: String)
    ensures
        r@ == spec_members_text(ms.deep_view()),
{
    let mut out = String::new();
    let mut i: usize = 0;
    while i < ms.len()
        invariant
            i <= ms.len(),
            out@ =~= spec_members_text(ms.deep_view().take(i as int)),
        decreases ms.len() - i,
    {
        let line = member_text(&ms[i]);
        out.append(line.as_str());
        proof {
            assert(ms.deep_view().take(i + 1).drop_last() =~= ms.deep_view().take(i as int));
            assert(ms.deep_view().take(i + 1).last() == ms.deep_view()[i as int]);
        }
        i = i + 1;
    }
    proof {
        assert(ms.deep_view().take(ms.deep_view().len() as int) =~= ms.deep_view());
    }
    out
}

/// Render the value lines of an enumeration.
fn values_text(vs: &Vec<String>) -> (r: String)
    ensures
        r@ == spec_values_text(vs.deep_view()),
{
    let mut out = String::new();
    let mut i: usize = 0;
    while i < vs.len()
        invariant
            i <= vs.len(),
            out@ =~= spec_values_text(vs.deep_view().take(i as int)),
        decreases vs.len() - i,
    {
        out.append("        ");
        out.append(vs[i].as_str());
        out.append(",\n");
        proof {
            assert(vs.deep_view().take(i + 1).drop_last() =~= vs.deep_view().take(i as int));
            assert(vs.deep_view().take(i + 1).last() == vs.deep_view()[i as int]);
            assert(out@ =~= spec_values_text(vs.deep_view().take(i + 1)));
        }
        i = i + 1;
    }
    proof {
        assert(vs.deep_view().take(vs.deep_view().len() as int) =~= vs.deep_view());
    }
    out
}

/// Render one arm of a tagged union.
fn arm_text(base: &String, v: &UnionVariant) -> (r: String)
    ensures
        r@ == spec_arm_text(base.deep_view(), v.deep_view()),
{
    let mut s = "    public class ".to_owned();
    s.append(base.as_str());
    s.append(v.name.as_str());
    s.append(" : ");
    s.append(base.as_str());
    s.append("\n    {\n");
    let ms = members_text(&v.members);
    s.append(ms.as_str());
    s.append("    }\n");
    s
}

/// Render the arms of a tagged union.
fn arms_text(base: &String, vs: &Vec<UnionVariant>) -> (r: String)
    ensures
        r@ == spec_arms_text(base.deep_view(), vs.deep_view()),
{
    let mut out = String::new();
    let mut i: usize = 0;
    while i < vs.len()
        invariant
            i <= vs.len(),
            out@ =~= spec_arms_text(base.deep_view(), vs.deep_view().take(i as int)),
        decreases vs.len() - i,
    {
        let arm = arm_text(base, &vs[i]);
        out.append(arm.as_str());
        proof {
            assert(vs.deep_view().take(i + 1).drop_last() =~= vs.deep_view().take(i as int));
            assert(vs.deep_view().take(i + 1).last() == vs.deep_view()[i as int]);
        }
        i = i + 1;
    }
    proof {
        assert(vs.deep_view().take(vs.deep_view().len() as int) =~= vs.deep_view());
    }
    out
}

/// Render one declaration.
pub fn decl_text(d: &Declaration) -> (r: String)
    ensures
        r@ == spec_decl_text(d.deep_view()),
{
    match &d.body {
        DeclBody::Record { members } => {
            let mut s = "    public class ".to_owned();
            s.append(d.name.as_str());
            s.append("\n    {\n");
            let ms = members_text(members);
            s.append(ms.as_str());
            s.append("    }\n");
            s
        },
        DeclBody::Enumeration { values } => {
            let mut s = "    public enum ".to_owned();
            s.append(d.name.as_str());
            s.append("\n    {\n");
            let vs = values_text(values);
            s.append(vs.as_str());
            s.append("    }\n");
            s
        },
        DeclBody::Union { variants } => {
            let mut s = "    public abstract class ".to_owned();
            s.append(d.name.as_str());
            s.append("\n    {\n    }\n");
            let arms = arms_text(&d.name, variants);
            s.append(arms.as_str());
            s
        },
    }
}

/// Render a whole document as one C# source unit.
pub fn render(doc: &Document) -> (r: String)
    ensures
        r@ == spec_render(doc.deep_view()),
{
    let mut out = "namespace ".to_owned();
    out.append(doc.namespace.as_str());
    out.append("\n{\n");
    let mut i: usize = 0;
    while i < doc.decls.len()
        invariant
            i <= doc.decls@.len(),
            out@ =~= "namespace "@ + doc.namespace.deep_view() + "\n{\n"@ + spec_decls_text(
                doc.decls.deep_view().take(i as int),
            ),
        decreases doc.decls.len() - i,
    {
        let d = decl_text(&doc.decls[i]);
        out.append(d.as_str());
        proof {
            let dv = doc.decls.deep_view();
            assert(dv.take(i + 1).drop_last() =~= dv.take(i as int));
            assert(dv.take(i + 1).last() == dv[i as int]);
        }
        i = i + 1;
    }
    out.append("}\n");
    proof {
        let dv = doc.decls.deep_view();
        assert(dv.take(dv.len() as int) =~= dv);
        assert(out@ =~= spec_render(doc.deep_view()));
    }
    out
}

} // verus!
