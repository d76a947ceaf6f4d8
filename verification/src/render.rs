//! The emitted declarations as source text.

use vstd::prelude::*;
use crate::assemble::{
    arm_views, Expansion, ExpansionView, GeneratedTagType, TagImpl, TagImplView, TagTypeView,
};
use crate::descriptor::{
    optional_text, param_views, texts, variant_views, GenericParam, GenericParamView,
    VariantDescriptor, VariantView,
};
use crate::project::{ArmPattern, ArmPatternView, DispatchArm, DispatchArmView};

verus! {

/// The items with the separator between each two of them.
pub open spec fn join(items: Seq<Seq<char>>, sep: Seq<char>) -> Seq<char>
    decreases items.len(),
{
    if items.len() == 0 {
        Seq::empty()
    } else if items.len() == 1 {
        items[0]
    } else {
        join(items.drop_last(), sep) + sep + items.last()
    }
}

/// `n` wildcards.
pub open spec fn wildcards(n: nat) -> Seq<Seq<char>> {
    Seq::new(n, |i: int| "_"@)
}

/// Each field name bound to a wildcard.
pub open spec fn ignored_fields(keys: Seq<Seq<char>>) -> Seq<Seq<char>> {
    keys.map_values(|k: Seq<char>| k + ": _"@)
}

/// Bounds behind a name: led by a colon, if there are any.
pub open spec fn bounds_text(bounds: Option<Seq<char>>) -> Seq<char> {
    match bounds {
        Some(b) => ": "@ + b,
        None => Seq::empty(),
    }
}

/// The declaration of a generic parameter: `'a: 'b`, `T: Clone` or
/// `const N: usize`.
pub open spec fn param_text(p: GenericParamView) -> Seq<char> {
    match p {
        GenericParamView::Lifetime { name, bounds } => name + bounds_text(bounds),
        GenericParamView::Type { name, bounds } => name + bounds_text(bounds),
        GenericParamView::Const { name, ty } => "const "@ + name + ": "@ + ty,
    }
}

/// The declarations of a list of generic parameters.
pub open spec fn param_texts(params: Seq<GenericParamView>) -> Seq<Seq<char>> {
    params.map_values(|p: GenericParamView| param_text(p))
}

/// A list between angle brackets, or nothing for an empty list.
pub open spec fn angle_list(items: Seq<Seq<char>>) -> Seq<char> {
    if items.len() == 0 {
        Seq::empty()
    } else {
        "<"@ + join(items, ", "@) + ">"@
    }
}

/// A variant declaration: the name, and ` = ` with the discriminant where
/// there is one. Fields are not written: the tag enum has none.
pub open spec fn variant_text(v: VariantView) -> Seq<char> {
    match v.discriminant {
        Some(d) => v.name + " = "@ + d,
        None => v.name,
    }
}

/// A pattern: `V`, `V(_, _)` or `V { a: _, b: _ }`.
pub open spec fn pattern_text(p: ArmPatternView) -> Seq<char> {
    match p {
        ArmPatternView::Bare { variant } => variant,
        ArmPatternView::Positional { variant, ignored } => variant + "("@ + join(
            wildcards(ignored),
            ", "@,
        ) + ")"@,
        ArmPatternView::Keyed { variant, keys } => variant + " { "@ + join(
            ignored_fields(keys),
            ", "@,
        ) + " }"@,
    }
}

/// One line of the tag enum's body.
pub open spec fn variant_line(v: VariantView) -> Seq<char> {
    "    "@ + variant_text(v) + ",\n"@
}

/// One arm of the match, on a line of its own.
pub open spec fn arm_line(a: DispatchArmView) -> Seq<char> {
    "            Self::"@ + pattern_text(a.pattern) + " => Self::Tag::"@ + a.tag + ",\n"@
}

/// The lines of the tag enum's body.
pub open spec fn variant_lines(variants: Seq<VariantView>) -> Seq<char> {
    variants.map_values(|v: VariantView| variant_line(v)).flatten()
}

/// The arms of the match.
pub open spec fn arm_lines(arms: Seq<DispatchArmView>) -> Seq<char> {
    arms.map_values(|a: DispatchArmView| arm_line(a)).flatten()
}

/// A visibility qualifier in front of a declaration: followed by a space,
/// unless it is empty.
pub open spec fn qualifier_text(visibility: Seq<char>) -> Seq<char> {
    if visibility.len() == 0 {
        visibility
    } else {
        visibility + " "@
    }
}

/// A where-clause behind a header: led by a space, if there is one.
pub open spec fn where_text(where_clause: Option<Seq<char>>) -> Seq<char> {
    match where_clause {
        Some(w) => " "@ + w,
        None => Seq::empty(),
    }
}

/// The declaration of the tag enum. It can be copied, cloned, compared and
/// printed, and takes no generic parameters.
pub open spec fn tag_type_text(t: TagTypeView) -> Seq<char> {
    "#[derive(Clone, Copy, Debug, PartialEq, Eq)]\n"@ + qualifier_text(t.visibility) + "enum "@
        + t.name + " {\n"@ + variant_lines(t.variants) + "}\n"@
}

/// The implementation of `TaggedEnum`. Behind `impl` stand the parameters as
/// they are declared, behind the target the arguments. `Tag` is the tag enum,
/// and `tag` is one match on `self` with the arms in their order.
pub open spec fn tag_impl_text(i: TagImplView) -> Seq<char> {
    "impl"@ + angle_list(param_texts(i.parameters)) + " ::enum_tags::TaggedEnum for "@ + i.target
        + angle_list(i.arguments) + where_text(i.where_clause) + " {\n    type Tag = "@
        + i.tag_type
        + ";\n    fn tag(&self) -> Self::Tag {\n        match *self {\n"@ + arm_lines(i.arms)
        + "        }\n    }\n}\n"@
}

/// Both declarations, the tag enum first.
pub open spec fn expansion_text(e: ExpansionView) -> Seq<char> {
    tag_type_text(e.tag_type) + tag_impl_text(e.tag_impl)
}

/// Joining one item more appends the separator and the item, but for the
/// first item, which stands alone.
pub proof fn lemma_join_next(items: Seq<Seq<char>>, sep: Seq<char>, i: int)
    requires
        0 <= i < items.len(),
    ensures
        join(items.take(i + 1), sep) == if i == 0 {
            items[0]
        } else {
            join(items.take(i), sep) + sep + items[i]
        },
{
    assert(items.take(i + 1).drop_last() =~= items.take(i));
}

/// Flattening one item more appends the item.
pub proof fn lemma_flatten_next(items: Seq<Seq<char>>, i: int)
    requires
        0 <= i < items.len(),
    ensures
        items.take(i + 1).flatten() == items.take(i).flatten() + items[i],
{
    items.lemma_take_succ_push(i);
    items.take(i).lemma_flatten_push(items[i]);
}

/// Writes a variant declaration of the tag enum.
pub fn render_variant(v: &VariantDescriptor) -> (out: String)
    ensures
        out@ == variant_text(v@),
{
    let mut out = v.name.clone();
    match &v.discriminant {
        Some(d) => {
            out.append(" = ");
            out.append(d.as_str());
        },
        None => {},
    }
    out
}

/// Writes `n` wildcards, separated by commas, behind `out`.
fn push_wildcards(out: &mut String, n: usize)
    ensures
        final(out)@ == old(out)@ + join(wildcards(n as nat), ", "@),
{
    let ghost head = out@;
    let mut i: usize = 0;
    while i < n
        invariant
            i <= n,
            out@ == head + join(wildcards(i as nat), ", "@),
        decreases n - i,
    {
        proof {
            lemma_join_next(wildcards(n as nat), ", "@, i as int);
            assert(wildcards(n as nat).take(i as int) =~= wildcards(i as nat));
            assert(wildcards(n as nat).take(i + 1) =~= wildcards((i + 1) as nat));
        }
        if i > 0 {
            out.append(", ");
        }
        out.append("_");
        i += 1;
        assert(out@ =~= head + join(wildcards(i as nat), ", "@));
    }
}

/// Writes each field name bound to a wildcard, separated by commas, behind
/// `out`.
fn push_ignored_fields(out: &mut String, keys: &Vec<String>)
    ensures
        final(out)@ == old(out)@ + join(ignored_fields(texts(keys@)), ", "@),
{
    let ghost head = out@;
    let ghost all = ignored_fields(texts(keys@));
    let mut i: usize = 0;
    while i < keys.len()
        invariant
            i <= keys.len(),
            all == ignored_fields(texts(keys@)),
            out@ == head + join(all.take(i as int), ", "@),
        decreases keys.len() - i,
    {
        proof {
            lemma_join_next(all, ", "@, i as int);
        }
        if i > 0 {
            out.append(", ");
        }
        out.append(keys[i].as_str());
        out.append(": _");
        i += 1;
        assert(out@ =~= head + join(all.take(i as int), ", "@));
    }
    assert(all.take(keys.len() as int) =~= all);
}

/// Writes the items, separated by commas, behind `out`.
fn push_joined(out: &mut String, items: &Vec<String>)
    ensures
        final(out)@ == old(out)@ + join(texts(items@), ", "@),
{
    let ghost head = out@;
    let ghost all = texts(items@);
    let mut i: usize = 0;
    while i < items.len()
        invariant
            i <= items.len(),
            all == texts(items@),
            out@ == head + join(all.take(i as int), ", "@),
        decreases items.len() - i,
    {
        proof {
            lemma_join_next(all, ", "@, i as int);
        }
        if i > 0 {
            out.append(", ");
        }
        out.append(items[i].as_str());
        i += 1;
        assert(out@ =~= head + join(all.take(i as int), ", "@));
    }
    assert(all.take(items.len() as int) =~= all);
}

/// Writes the items between angle brackets behind `out`, or nothing if there
/// are none.
fn push_angle_list(out: &mut String, items: &Vec<String>)
    ensures
        final(out)@ == old(out)@ + angle_list(texts(items@)),
{
    let ghost head = out@;
    if items.len() > 0 {
        out.append("<");
        push_joined(out, items);
        out.append(">");
        assert(out@ =~= head + angle_list(texts(items@)));
    } else {
        assert(out@ =~= head + angle_list(texts(items@)));
    }
}

/// Writes the declaration of a generic parameter.
pub fn render_param(p: &GenericParam) -> (out: String)
    ensures
        out@ == param_text(p@),
{
    match p {
        GenericParam::Lifetime { name, bounds } => render_bounded(name, bounds),
        GenericParam::Type { name, bounds } => render_bounded(name, bounds),
        GenericParam::Const { name, ty } => {
            let mut out = String::from_str("const ");
            out.append(name.as_str());
            out.append(": ");
            out.append(ty.as_str());
            out
        },
    }
}

/// Writes a name with its bounds.
fn render_bounded(name: &String, bounds: &Option<String>) -> (out: String)
    ensures
        out@ == name@ + bounds_text(optional_text(*bounds)),
{
    let mut out = name.clone();
    match bounds {
        Some(b) => {
            out.append(": ");
            out.append(b.as_str());
            assert(out@ =~= name@ + bounds_text(optional_text(*bounds)));
        },
        None => {
            assert(out@ =~= name@ + bounds_text(optional_text(*bounds)));
        },
    }
    out
}

/// Writes the declaration of each generic parameter.
fn render_params(params: &Vec<GenericParam>) -> (out: Vec<String>)
    ensures
        texts(out@) == param_texts(param_views(params@)),
{
    let mut out: Vec<String> = Vec::new();
    let mut i: usize = 0;
    while i < params.len()
        invariant
            i <= params.len(),
            out.len() == i,
            forall|j: int| 0 <= j < i ==> (#[trigger] out[j])@ == param_text(params[j]@),
        decreases params.len() - i,
    {
        out.push(render_param(&params[i]));
        i += 1;
    }
    assert(texts(out@) =~= param_texts(param_views(params@)));
    out
}

/// Writes a pattern.
pub fn render_pattern(p: &ArmPattern) -> (out: String)
    ensures
        out@ == pattern_text(p@),
{
    match p {
        ArmPattern::Bare { variant } => variant.clone(),
        ArmPattern::Positional { variant, ignored } => {
            let mut out = variant.clone();
            out.append("(");
            push_wildcards(&mut out, *ignored);
            out.append(")");
            out
        },
        ArmPattern::Keyed { variant, keys } => {
            let mut out = variant.clone();
            out.append(" { ");
            push_ignored_fields(&mut out, keys);
            out.append(" }");
            out
        },
    }
}

/// Writes the lines of the tag enum's body behind `out`.
fn push_variant_lines(out: &mut String, variants: &Vec<VariantDescriptor>)
    ensures
        final(out)@ == old(out)@ + variant_lines(variant_views(variants@)),
{
    let ghost head = out@;
    let ghost lines = variant_views(variants@).map_values(|v: VariantView| variant_line(v));
    let mut i: usize = 0;
    while i < variants.len()
        invariant
            i <= variants.len(),
            lines == variant_views(variants@).map_values(|v: VariantView| variant_line(v)),
            out@ == head + lines.take(i as int).flatten(),
        decreases variants.len() - i,
    {
        proof {
            lemma_flatten_next(lines, i as int);
        }
        let text = render_variant(&variants[i]);
        out.append("    ");
        out.append(text.as_str());
        out.append(",\n");
        i += 1;
        assert(out@ =~= head + lines.take(i as int).flatten());
    }
    assert(lines.take(variants.len() as int) =~= lines);
}

/// Writes the arms of the match behind `out`.
fn push_arm_lines(out: &mut String, arms: &Vec<DispatchArm>)
    ensures
        final(out)@ == old(out)@ + arm_lines(arm_views(arms@)),
{
    let ghost head = out@;
    let ghost lines = arm_views(arms@).map_values(|a: DispatchArmView| arm_line(a));
    let mut i: usize = 0;
    while i < arms.len()
        invariant
            i <= arms.len(),
            lines == arm_views(arms@).map_values(|a: DispatchArmView| arm_line(a)),
            out@ == head + lines.take(i as int).flatten(),
        decreases arms.len() - i,
    {
        proof {
            lemma_flatten_next(lines, i as int);
        }
        let pattern = render_pattern(&arms[i].pattern);
        out.append("            Self::");
        out.append(pattern.as_str());
        out.append(" => Self::Tag::");
        out.append(arms[i].tag.as_str());
        out.append(",\n");
        i += 1;
        assert(out@ =~= head + lines.take(i as int).flatten());
    }
    assert(lines.take(arms.len() as int) =~= lines);
}

/// Writes the declaration of the tag enum.
pub fn render_tag_type(t: &GeneratedTagType) -> (out: String)
    ensures
        out@ == tag_type_text(t@),
{
    let mut out = String::from_str("#[derive(Clone, Copy, Debug, PartialEq, Eq)]\n");
    out.append(t.visibility.as_str());
    if !t.visibility.as_str().is_empty() {
        out.append(" ");
    }
    out.append("enum ");
    out.append(t.name.as_str());
    out.append(" {\n");
    push_variant_lines(&mut out, &t.variants);
    out.append("}\n");
    out
}

/// Writes the implementation of `TaggedEnum`.
pub fn render_tag_impl(i: &TagImpl) -> (out: String)
    ensures
        out@ == tag_impl_text(i@),
{
    let mut out = String::from_str("impl");
    let parameters = render_params(&i.parameters);
    push_angle_list(&mut out, &parameters);
    out.append(" ::enum_tags::TaggedEnum for ");
    out.append(i.target.as_str());
    push_angle_list(&mut out, &i.arguments);
    match &i.where_clause {
        Some(w) => {
            out.append(" ");
            out.append(w.as_str());
        },
        None => {},
    }
    assert(out@ =~= "impl"@ + angle_list(param_texts(param_views(i.parameters@)))
        + " ::enum_tags::TaggedEnum for "@ + i.target@ + angle_list(texts(i.arguments@))
        + where_text(optional_text(i.where_clause)));
    out.append(" {\n    type Tag = ");
    out.append(i.tag_type.as_str());
    out.append(";\n    fn tag(&self) -> Self::Tag {\n        match *self {\n");
    push_arm_lines(&mut out, &i.arms);
    out.append("        }\n    }\n}\n");
    out
}

/// Writes both declarations, the tag enum first.
pub fn render_expansion(e: &Expansion) -> (out: String)
    ensures
        out@ == expansion_text(e@),
{
    let mut out = render_tag_type(&e.tag_type);
    let text = render_tag_impl(&e.tag_impl);
    out.append(text.as_str());
    out
}

} // verus!
