//! The markup backend.
//!
//! The markup is built from elements of the outside svg library: a root
//! container sized to the canvas, a defs section for clip paths and
//! filters, and a content group of path elements.  An element is modelled
//! by its name, its attribute map and its children; the library's own
//! serialisation is a function of that model.

use vstd::prelude::*;
use crate::codec::{path2string, path_text};
use crate::numfmt::{dec_digits, frac256_text, fx_text, fx_to_dec, u64_to_dec, u8_frac256_to_dec};
use crate::operate::{SegModel, Segment, segment_model};
use crate::paint::shader::Shader;
use crate::paint::stroke::{Stroke, StrokeModel, lint_cap_to_string, lint_join_to_string};
use crate::paint::{ClipMask, FillRule, Paint, fill_rule_to_string};
use crate::style_bucket::{clip_model, copy_clip};
use crate::path::{PathData, PathSegment};
use crate::backend::PainterBackend;

verus! {

#[verifier::external_type_specification]
#[verifier::external_body]
pub struct ExElement(svg::node::element::Element);

#[verifier::external_type_specification]
#[verifier::external_body]
pub struct ExStyle(svg::node::element::Style);

/// Mathematical model of a markup element: its tag name, its attribute
/// map and its children, in order.
#[verifier::ext_equal]
pub ghost struct ElemModel {
    pub name: Seq<char>,
    pub attrs: Map<Seq<char>, Seq<char>>,
    pub children: Seq<ElemModel>,
}

/// What a markup element holds.
pub uninterp spec fn elem_model(e: svg::node::element::Element) -> ElemModel;

/// The markup text of an element; it depends on the element's contents
/// alone.
pub uninterp spec fn elem_markup(m: ElemModel) -> Seq<char>;

/// The model of a fresh element with no attributes and no children.
pub open spec fn fresh_elem(name: Seq<char>) -> ElemModel {
    ElemModel { name, attrs: Map::<Seq<char>, Seq<char>>::empty(), children: Seq::<ElemModel>::empty() }
}

/// Relies on svg's Element::new: a fresh element carries the given name
/// and neither attributes nor children.
#[verifier::external_body]
fn elem_new(name: &str) -> (r: svg::node::element::Element)
    ensures
        elem_model(r) == fresh_elem(name@),
{
    svg::node::element::Element::new(name)
}

/// Relies on svg's Node::assign: the attribute is inserted into the
/// element's attribute map; name and children stay.
#[verifier::external_body]
fn elem_assign(e: &mut svg::node::element::Element, k: &str, v: &str)
    ensures
        elem_model(*final(e)) == (ElemModel {
            attrs: elem_model(*old(e)).attrs.insert(k@, v@),
            ..elem_model(*old(e))
        }),
{
    svg::node::Node::assign(e, k, v)
}

/// Relies on svg's Node::append: the child is pushed onto the element's
/// children; name and attributes stay.
#[verifier::external_body]
fn elem_append(e: &mut svg::node::element::Element, child: svg::node::element::Element)
    ensures
        elem_model(*final(e)) == (ElemModel {
            children: elem_model(*old(e)).children.push(elem_model(child)),
            ..elem_model(*old(e))
        }),
{
    svg::node::Node::append(e, child)
}

/// Relies on the derived Clone of svg's Element: the copy holds the same
/// contents.
#[verifier::external_body]
fn elem_clone(e: &svg::node::element::Element) -> (r: svg::node::element::Element)
    ensures
        elem_model(r) == elem_model(*e),
{
    e.clone()
}

/// Relies on the Display rendering of svg's Element: the markup text is a
/// function of the element's contents.
#[verifier::external_body]
fn elem_to_string(e: &svg::node::element::Element) -> (r: String)
    ensures
        r@ == elem_markup(elem_model(*e)),
{
    e.to_string()
}

/// Relies on svg's Style::new to wrap a stylesheet text.
#[verifier::external_body]
pub fn create_style_tag(style: &str) -> (r: svg::node::element::Style)
{
    svg::node::element::Style::new(style)
}

/// An `image` element referencing the given target.
pub fn create_image_tag(href: &str) -> (r: svg::node::element::Element)
    ensures
        elem_model(r) == (ElemModel {
            attrs: Map::<Seq<char>, Seq<char>>::empty().insert("xlink:href"@, href@),
            ..fresh_elem("image"@)
        }),
{
    let mut image = elem_new("image");
    elem_assign(&mut image, "xlink:href", href);
    image
}

/// An empty group element.
pub fn create_group() -> (r: svg::node::element::Element)
    ensures
        elem_model(r) == fresh_elem("g"@),
{
    elem_new("g")
}

/// A group element holding the given elements, in order.
pub fn group(elements: Vec<svg::node::element::Element>) -> (r: svg::node::element::Element)
    ensures
        elem_model(r) == (ElemModel {
            children: elements@.map(|i: int, e: svg::node::element::Element| elem_model(e)),
            ..fresh_elem("g"@)
        }),
{
    let ghost views = elements@.map(|i: int, e: svg::node::element::Element| elem_model(e));
    let mut g = elem_new("g");
    let mut rest = elements;
    let n = rest.len();
    let mut i: usize = 0;
    proof {
        assert(views.take(0) =~= Seq::<ElemModel>::empty());
    }
    while i < n
        invariant
            i <= n,
            rest@.len() == n - i,
            views.len() == n,
            forall|k: int| 0 <= k < n - i ==> #[trigger] elem_model(rest@[k]) == views[i + k],
            elem_model(g) == (ElemModel { children: views.take(i as int), ..fresh_elem("g"@) }),
        decreases n - i,
    {
        let ghost pre = rest@;
        let item = rest.remove(0);
        proof {
            assert(elem_model(pre[0]) == views[i as int]);
            assert(forall|k: int| 0 <= k < n - i - 1
                ==> #[trigger] elem_model(rest@[k]) == elem_model(pre[k + 1]));
        }
        elem_append(&mut g, item);
        proof {
            assert(views.take(i + 1 as int) =~= views.take(i as int).push(views[i as int]));
        }
        i = i + 1;
    }
    proof {
        assert(views.take(n as int) =~= views);
    }
    g
}

/// A `path` element with the given path data and round line caps and
/// joins.
pub fn create_path_tag(d: &str) -> (r: svg::node::element::Element)
    ensures
        elem_model(r) == (ElemModel {
            attrs: Map::<Seq<char>, Seq<char>>::empty()
                .insert("d"@, d@)
                .insert("stroke-linecap"@, "round"@)
                .insert("stroke-linejoin"@, "round"@),
            ..fresh_elem("path"@)
        }),
{
    let mut path_tag = elem_new("path");
    elem_assign(&mut path_tag, "d", d);
    elem_assign(&mut path_tag, "stroke-linecap", "round");
    elem_assign(&mut path_tag, "stroke-linejoin", "round");
    path_tag
}

/// An empty `defs` element.
pub fn create_defs_tag() -> (r: svg::node::element::Element)
    ensures
        elem_model(r) == fresh_elem("defs"@),
{
    elem_new("defs")
}

/// An empty `filter` element.
pub fn create_filter_tag() -> (r: svg::node::element::Element)
    ensures
        elem_model(r) == fresh_elem("filter"@),
{
    elem_new("filter")
}

/// A `use` element referencing the definition with the given identifier.
pub fn create_use_tag(id: String) -> (r: svg::node::element::Element)
    ensures
        elem_model(r) == (ElemModel {
            attrs: Map::<Seq<char>, Seq<char>>::empty().insert("xlink:href"@, "#"@ + id@),
            ..fresh_elem("use"@)
        }),
{
    let mut href = "#".to_owned();
    href.append(id.as_str());
    let mut use_tag = elem_new("use");
    elem_assign(&mut use_tag, "xlink:href", href.as_str());
    use_tag
}

/// A `mask` element with the given identifier holding the given elements,
/// in order.
pub fn create_mask_tag(elements: Vec<svg::node::element::Element>, id: String) -> (r: svg::node::element::Element)
    ensures
        elem_model(r) == (ElemModel {
            attrs: Map::<Seq<char>, Seq<char>>::empty().insert("id"@, id@),
            children: elements@.map(|i: int, e: svg::node::element::Element| elem_model(e)),
            ..fresh_elem("mask"@)
        }),
{
    let ghost views = elements@.map(|i: int, e: svg::node::element::Element| elem_model(e));
    let mut mask_tag = elem_new("mask");
    elem_assign(&mut mask_tag, "id", id.as_str());
    let mut rest = elements;
    let n = rest.len();
    let mut i: usize = 0;
    proof {
        assert(views.take(0) =~= Seq::<ElemModel>::empty());
    }
    while i < n
        invariant
            i <= n,
            rest@.len() == n - i,
            views.len() == n,
            forall|k: int| 0 <= k < n - i ==> #[trigger] elem_model(rest@[k]) == views[i + k],
            elem_model(mask_tag) == (ElemModel {
                attrs: Map::<Seq<char>, Seq<char>>::empty().insert("id"@, id@),
                children: views.take(i as int),
                ..fresh_elem("mask"@)
            }),
        decreases n - i,
    {
        let ghost pre = rest@;
        let element = rest.remove(0);
        proof {
            assert(elem_model(pre[0]) == views[i as int]);
            assert(forall|k: int| 0 <= k < n - i - 1
                ==> #[trigger] elem_model(rest@[k]) == elem_model(pre[k + 1]));
        }
        elem_append(&mut mask_tag, element);
        proof {
            assert(views.take(i + 1 as int) =~= views.take(i as int).push(views[i as int]));
        }
        i = i + 1;
    }
    proof {
        assert(views.take(n as int) =~= views);
    }
    mask_tag
}

/// A `clipPath` element with the given identifier holding the given
/// elements, in order.
pub fn create_clip_tag(elements: Vec<svg::node::element::Element>, id: String) -> (r: svg::node::element::Element)
    ensures
        elem_model(r) == (ElemModel {
            attrs: Map::<Seq<char>, Seq<char>>::empty().insert("id"@, id@),
            children: elements@.map(|i: int, e: svg::node::element::Element| elem_model(e)),
            ..fresh_elem("clipPath"@)
        }),
{
    let ghost views = elements@.map(|i: int, e: svg::node::element::Element| elem_model(e));
    let mut clip_tag = elem_new("clipPath");
    elem_assign(&mut clip_tag, "id", id.as_str());
    let mut rest = elements;
    let n = rest.len();
    let mut i: usize = 0;
    proof {
        assert(views.take(0) =~= Seq::<ElemModel>::empty());
    }
    while i < n
        invariant
            i <= n,
            rest@.len() == n - i,
            views.len() == n,
            forall|k: int| 0 <= k < n - i ==> #[trigger] elem_model(rest@[k]) == views[i + k],
            elem_model(clip_tag) == (ElemModel {
                attrs: Map::<Seq<char>, Seq<char>>::empty().insert("id"@, id@),
                children: views.take(i as int),
                ..fresh_elem("clipPath"@)
            }),
        decreases n - i,
    {
        let ghost pre = rest@;
        let element = rest.remove(0);
        proof {
            assert(elem_model(pre[0]) == views[i as int]);
            assert(forall|k: int| 0 <= k < n - i - 1
                ==> #[trigger] elem_model(rest@[k]) == elem_model(pre[k + 1]));
        }
        elem_append(&mut clip_tag, element);
        proof {
            assert(views.take(i + 1 as int) =~= views.take(i as int).push(views[i as int]));
        }
        i = i + 1;
    }
    proof {
        assert(views.take(n as int) =~= views);
    }
    clip_tag
}


/// The markup keyword of a fill rule, at the model level.
pub open spec fn fill_rule_text(r: FillRule) -> Seq<char> {
    match r {
        FillRule::Nonzero => "nonzero"@,
        FillRule::Evenodd => "evenodd"@,
    }
}

/// The paint reference a path element carries: an exact `rgba(...)` text
/// for a solid color, `transparent` where there is no paint or the paint
/// is a shader the markup backend cannot express.
pub open spec fn paint_url_text(p: Option<Paint>) -> Seq<char> {
    match p {
        Some(paint) => match paint.shader {
            Shader::SolidColor(c) => "rgba("@ + dec_digits(c.r as int) + ", "@
                + dec_digits(c.g as int) + ", "@ + dec_digits(c.b as int) + ", "@
                + frac256_text(c.a as int) + ")"@,
            _ => "transparent"@,
        },
        None => "transparent"@,
    }
}

/// The text of a path in its textual command encoding.
pub open spec fn path_text_of(p: Seq<PathSegment>) -> Seq<char> {
    path_text(p, p.len() as int)
}

/// The identifier minted for the `n`-th definition.
pub open spec fn use_id_text(n: int) -> Seq<char> {
    "use_id_"@ + dec_digits(n)
}

/// The model of the path element that one fill or stroke pass appends:
/// the path data, the fill rule, the fill reference, the stroke
/// parameters when stroking, and the clip reference when clipped.
pub open spec fn path_tag_model(
    path: Seq<PathSegment>, fill: Option<Paint>, stroke: Option<crate::paint::stroke::StrokeModel>,
    rule: FillRule, clipped: bool, clip_id: int,
) -> ElemModel {
    let base = Map::<Seq<char>, Seq<char>>::empty()
        .insert("d"@, path_text_of(path))
        .insert("stroke-linecap"@, "round"@)
        .insert("stroke-linejoin"@, "round"@)
        .insert("fill-rule"@, fill_rule_text(rule))
        .insert("fill"@, paint_url_text(fill));
    let with_stroke = match stroke {
        Some(st) => base
            .insert("stroke"@, paint_url_text(Some(st.paint)))
            .insert("stroke-width"@, fx_text(st.width as int))
            .insert("stroke-linejoin"@, match st.line_join {
                crate::paint::stroke::LineJoin::Miter => "miter"@,
                crate::paint::stroke::LineJoin::Round => "round"@,
                crate::paint::stroke::LineJoin::Bevel => "bevel"@,
            })
            .insert("stroke-linecap"@, match st.line_cap {
                crate::paint::stroke::LineCap::Butt => "butt"@,
                crate::paint::stroke::LineCap::Round => "round"@,
                crate::paint::stroke::LineCap::Square => "square"@,
            })
            .insert("stroke-miterlimit"@, fx_text(st.miter_limit as int)),
        None => base,
    };
    if clipped {
        ElemModel {
            attrs: with_stroke.insert("clip-path"@, "url(#"@ + use_id_text(clip_id) + ")"@),
            ..fresh_elem("path"@)
        }
    } else {
        ElemModel { attrs: with_stroke, ..fresh_elem("path"@) }
    }
}

/// The model of the clip definition one pass appends: a `clipPath` with
/// the minted identifier holding the clip's path element.
pub open spec fn clip_tag_model(clip: (Seq<PathSegment>, FillRule), clip_id: int) -> ElemModel {
    let clip_path = ElemModel {
        attrs: Map::<Seq<char>, Seq<char>>::empty()
            .insert("d"@, path_text_of(clip.0))
            .insert("stroke-linecap"@, "round"@)
            .insert("stroke-linejoin"@, "round"@)
            .insert("fill-rule"@, fill_rule_text(clip.1)),
        ..fresh_elem("path"@)
    };
    ElemModel {
        attrs: Map::<Seq<char>, Seq<char>>::empty().insert("id"@, use_id_text(clip_id)),
        children: seq![clip_path],
        ..fresh_elem("clipPath"@)
    }
}

/// The root container element of a fresh render, sized to the canvas.
pub open spec fn svg_root_model(width: int, height: int) -> ElemModel {
    ElemModel {
        attrs: Map::<Seq<char>, Seq<char>>::empty()
            .insert("width"@, fx_text(width))
            .insert("height"@, fx_text(height))
            .insert("viewBox"@, "0 0 "@ + fx_text(width) + " "@ + fx_text(height))
            .insert("xmlns:xlink"@, "http://www.w3.org/1999/xlink"@),
        ..fresh_elem("svg"@)
    }
}

/// The root container element sized to the canvas, with an explicit view
/// box.
pub open spec fn svg_resized_model(m: ElemModel, width: int, height: int, vb: (i64, i64, i64, i64)) -> ElemModel {
    ElemModel {
        attrs: m.attrs
            .insert("width"@, fx_text(width))
            .insert("height"@, fx_text(height))
            .insert("viewBox"@, fx_text(vb.0 as int) + " "@ + fx_text(vb.1 as int) + " "@
                + fx_text(vb.2 as int) + " "@ + fx_text(vb.3 as int)),
        ..m
    }
}

/// The root `svg` element sized to the canvas, with a view box from the
/// origin.
pub fn create_svg_tag(width: i64, height: i64) -> (r: svg::node::element::Element)
    ensures
        elem_model(r) == svg_root_model(width as int, height as int),
{
    proof {
        reveal_strlit("0 0 ");
        reveal_strlit(" ");
    }
    let mut root = elem_new("svg");
    let w = fx_to_dec(width);
    let h = fx_to_dec(height);
    elem_assign(&mut root, "width", w.as_str());
    elem_assign(&mut root, "height", h.as_str());
    let mut vb = "0 0 ".to_owned();
    vb.append(w.as_str());
    vb.append(" ");
    vb.append(h.as_str());
    elem_assign(&mut root, "viewBox", vb.as_str());
    elem_assign(&mut root, "xmlns:xlink", "http://www.w3.org/1999/xlink");
    root
}

/// Mathematical model of the markup backend's state.
#[verifier::ext_equal]
pub ghost struct SvgModel {
    pub svg: ElemModel,
    pub defs: ElemModel,
    pub content: Seq<ElemModel>,
    pub width: i64,
    pub height: i64,
    pub view_box: (i64, i64, i64, i64),
    pub use_count: int,
}

/// The backend state after one path pass: the path element enters the
/// content group; a clip also mints an identifier and stores a clip
/// definition in the defs section.
pub open spec fn spec_append_path(
    m: SvgModel, path: Seq<PathSegment>, fill: Option<Paint>, stroke: Option<StrokeModel>,
    rule: FillRule, clip: Option<(Seq<PathSegment>, FillRule)>,
) -> SvgModel {
    match clip {
        Some(cm) => SvgModel {
            content: m.content.push(path_tag_model(path, fill, stroke, rule, true, m.use_count + 1)),
            defs: ElemModel {
                children: m.defs.children.push(clip_tag_model(cm, m.use_count + 1)),
                ..m.defs
            },
            use_count: m.use_count + 1,
            ..m
        },
        None => SvgModel {
            content: m.content.push(path_tag_model(path, fill, stroke, rule, false, 0)),
            ..m
        },
    }
}

/// The backend state after one drawn segment: nothing for a raw-pixel
/// segment, which the markup backend cannot express; for a vector
/// segment, the fill pass and then the stroke pass, each as
/// `spec_append_path` says; and nothing when the identifier counter has
/// no room left for the passes' clip definitions.
pub open spec fn spec_draw(m: SvgModel, s: SegModel) -> SvgModel {
    match s {
        SegModel::Pixel(_) => m,
        SegModel::Vector(v) => {
            if m.use_count > 0xFFFF_FFFF_FFFF_0000 {
                m
            } else {
                let after_fill = match v.fill {
                    Some(p) => spec_append_path(m, v.path, Some(p), None, v.fill_rule, v.clip),
                    None => m,
                };
                match v.stroke {
                    Some(st) => spec_append_path(after_fill, v.path, None, Some(st), v.fill_rule, v.clip),
                    None => after_fill,
                }
            }
        },
    }
}

/// The finished document: the root container with the defs section and
/// then the content group appended.
pub open spec fn spec_finish_doc(m: SvgModel) -> ElemModel {
    ElemModel {
        children: m.svg.children.push(m.defs).push(ElemModel {
            children: m.content,
            ..fresh_elem("g"@)
        }),
        ..m.svg
    }
}

/// The markup backend: a root container, a defs section and a content
/// group, grown one path element per fill or stroke pass.
pub struct SvgRender {
    svg: svg::node::element::Element,
    defs: svg::node::element::Element,
    content: Vec<svg::node::element::Element>,
    pub width: i64,
    pub height: i64,
    pub view_box: (i64, i64, i64, i64),
    use_count: u64,
}

impl View for SvgRender {
    type V = SvgModel;

    closed spec fn view(&self) -> SvgModel {
        SvgModel {
            svg: elem_model(self.svg),
            defs: elem_model(self.defs),
            content: self.content@.map(|i: int, e: svg::node::element::Element| elem_model(e)),
            width: self.width,
            height: self.height,
            view_box: self.view_box,
            use_count: self.use_count as int,
        }
    }
}

impl SvgRender {
    /// A fresh render over a canvas of the given raw extent.
    pub fn new(width: i64, height: i64) -> (r: Self)
        ensures
            r@.svg == svg_root_model(width as int, height as int),
            r@.defs == fresh_elem("defs"@),
            r@.content == Seq::<ElemModel>::empty(),
            r@.width == width,
            r@.height == height,
            r@.view_box == (0i64, 0i64, width, height),
            r@.use_count == 0,
    {
        let r = SvgRender {
            svg: create_svg_tag(width, height),
            defs: create_defs_tag(),
            content: Vec::new(),
            width,
            height,
            view_box: (0, 0, width, height),
            use_count: 0,
        };
        proof {
            assert(r@.content =~= Seq::<ElemModel>::empty());
        }
        r
    }

    /// Rebinds the canvas extent and view box, restating the root
    /// container's size attributes.
    pub fn resize_svg(&mut self, size: (i64, i64), view_box: Option<(i64, i64, i64, i64)>)
        ensures
            final(self)@ == (SvgModel {
                svg: svg_resized_model(old(self)@.svg, size.0 as int, size.1 as int,
                    match view_box {
                        Some(vb) => vb,
                        None => (0i64, 0i64, size.0, size.1),
                    }),
                width: size.0,
                height: size.1,
                view_box: match view_box {
                    Some(vb) => vb,
                    None => (0i64, 0i64, size.0, size.1),
                },
                ..old(self)@
            }),
    {
        proof {
            reveal_strlit(" ");
        }
        self.width = size.0;
        self.height = size.1;
        self.view_box = match view_box {
            Some(vb) => vb,
            None => (0, 0, size.0, size.1),
        };
        let w = fx_to_dec(self.width);
        let h = fx_to_dec(self.height);
        elem_assign(&mut self.svg, "width", w.as_str());
        elem_assign(&mut self.svg, "height", h.as_str());
        let mut vb_text = fx_to_dec(self.view_box.0);
        vb_text.append(" ");
        let t1 = fx_to_dec(self.view_box.1);
        vb_text.append(t1.as_str());
        vb_text.append(" ");
        let t2 = fx_to_dec(self.view_box.2);
        vb_text.append(t2.as_str());
        vb_text.append(" ");
        let t3 = fx_to_dec(self.view_box.3);
        vb_text.append(t3.as_str());
        elem_assign(&mut self.svg, "viewBox", vb_text.as_str());
    }

    fn build_paint(paint: Option<&Paint>) -> (r: String)
        ensures
            r@ == paint_url_text(match paint {
                Some(p) => Some(*p),
                None => None,
            }),
    {
        proof {
            reveal_strlit("rgba(");
            reveal_strlit(", ");
            reveal_strlit(")");
            reveal_strlit("transparent");
        }
        match paint {
            Some(p) => match p.shader {
                Shader::SolidColor(c) => {
                    let mut s = "rgba(".to_owned();
                    let rr = u64_to_dec(c.r as u64);
                    s.append(rr.as_str());
                    s.append(", ");
                    let gg = u64_to_dec(c.g as u64);
                    s.append(gg.as_str());
                    s.append(", ");
                    let bb = u64_to_dec(c.b as u64);
                    s.append(bb.as_str());
                    s.append(", ");
                    let aa = u8_frac256_to_dec(c.a);
                    s.append(aa.as_str());
                    s.append(")");
                    s
                }
                _ => "transparent".to_owned(),
            },
            None => "transparent".to_owned(),
        }
    }

    fn create_use_id(&mut self) -> (r: String)
        requires
            old(self)@.use_count < 0xFFFF_FFFF_FFFF_FFFF,
        ensures
            final(self)@ == (SvgModel { use_count: old(self)@.use_count + 1, ..old(self)@ }),
            r@ == use_id_text(final(self)@.use_count),
    {
        proof {
            reveal_strlit("use_id_");
        }
        self.use_count = self.use_count + 1;
        let mut s = "use_id_".to_owned();
        let d = u64_to_dec(self.use_count);
        s.append(d.as_str());
        s
    }

    /// Appends one path element to the content group: the path in its
    /// textual encoding with the given fill, stroke and rule; a clip adds
    /// a definition under a fresh identifier and a reference to it.
    pub fn append_path(&mut self, path_data: &PathData, paint: Option<&Paint>, stroke: Option<&Stroke>, fill_rule: Option<FillRule>, clip: Option<ClipMask>)
        requires
            old(self)@.use_count < 0xFFFF_FFFF_FFFF_FFFF,
        ensures
            final(self)@ == spec_append_path(
                old(self)@,
                path_data@,
                match paint {
                    Some(p) => Some(*p),
                    None => None::<Paint>,
                },
                match stroke {
                    Some(st) => Some(st@),
                    None => None::<StrokeModel>,
                },
                match fill_rule {
                    Some(r) => r,
                    None => FillRule::Nonzero,
                },
                match clip {
                    Some(cm) => Some((cm.path@, cm.fill_rule)),
                    None => None,
                },
            ),
    {
        proof {
            reveal_strlit("url(#");
            reveal_strlit(")");
        }
        let d = path2string(path_data);
        let mut path_tag = create_path_tag(d.as_str());
        let rule = match fill_rule {
            Some(r) => r,
            None => FillRule::Nonzero,
        };
        let rule_text = fill_rule_to_string(rule);
        elem_assign(&mut path_tag, "fill-rule", rule_text.as_str());
        let fill_url = SvgRender::build_paint(paint);
        elem_assign(&mut path_tag, "fill", fill_url.as_str());
        match stroke {
            Some(st) => {
                let stroke_url = SvgRender::build_paint(Some(&st.paint));
                elem_assign(&mut path_tag, "stroke", stroke_url.as_str());
                let wtext = fx_to_dec(st.width);
                elem_assign(&mut path_tag, "stroke-width", wtext.as_str());
                let jtext = lint_join_to_string(st.line_join);
                elem_assign(&mut path_tag, "stroke-linejoin", jtext.as_str());
                let ctext = lint_cap_to_string(st.line_cap);
                elem_assign(&mut path_tag, "stroke-linecap", ctext.as_str());
                let mtext = fx_to_dec(st.miter_limit);
                elem_assign(&mut path_tag, "stroke-miterlimit", mtext.as_str());
            }
            None => {}
        }
        match clip {
            Some(cm) => {
                let cd = path2string(&cm.path);
                let mut clip_path = create_path_tag(cd.as_str());
                let crt = fill_rule_to_string(cm.fill_rule);
                elem_assign(&mut clip_path, "fill-rule", crt.as_str());
                let id = self.create_use_id();
                let mut clip_children = Vec::<svg::node::element::Element>::new();
                clip_children.push(clip_path);
                let id_for_tag = copy_string(&id);
                let clip_tag = create_clip_tag(clip_children, id_for_tag);
                proof {
                    let cmodel = clip_tag_model((cm.path@, cm.fill_rule), old(self)@.use_count + 1);
                    assert(elem_model(clip_tag).name == "clipPath"@);
                    assert(elem_model(clip_tag).attrs =~~= cmodel.attrs);
                    assert(elem_model(clip_tag).children.len() == 1);
                    assert(elem_model(clip_tag).children[0] =~~= cmodel.children[0]);
                    assert(elem_model(clip_tag).children =~= cmodel.children);
                    assert(elem_model(clip_tag)
                        =~~= cmodel);
                }
                let ghost ct = elem_model(clip_tag);
                let mut clip_ref = "url(#".to_owned();
                clip_ref.append(id.as_str());
                clip_ref.append(")");
                elem_assign(&mut path_tag, "clip-path", clip_ref.as_str());
                elem_append(&mut self.defs, clip_tag);
                self.content.push(path_tag);
                proof {
                    assert(self@ =~~= (SvgModel {
                        content: old(self)@.content.push(path_tag_model(
                            path_data@,
                            match paint { Some(p) => Some(*p), None => None::<Paint> },
                            match stroke { Some(s) => Some(s@), None => None::<crate::paint::stroke::StrokeModel> },
                            rule, true, old(self)@.use_count + 1)),
                        defs: ElemModel {
                            children: old(self)@.defs.children.push(
                                clip_tag_model((cm.path@, cm.fill_rule), old(self)@.use_count + 1)),
                            ..old(self)@.defs
                        },
                        use_count: old(self)@.use_count + 1,
                        ..old(self)@
                    }));
                }
            }
            None => {
                self.content.push(path_tag);
                proof {
                    assert(self@ =~~= (SvgModel {
                        content: old(self)@.content.push(path_tag_model(
                            path_data@,
                            match paint { Some(p) => Some(*p), None => None::<Paint> },
                            match stroke { Some(s) => Some(s@), None => None::<crate::paint::stroke::StrokeModel> },
                            rule, false, 0)),
                        ..old(self)@
                    }));
                }
            }
        }
    }

    /// Builds an image reference tag; the recording interface does not
    /// place it in the content group.
    pub fn append_image(&mut self, image_url: &str)
        ensures
            final(self)@ == old(self)@,
    {
        let tag = create_image_tag(image_url);
    }
}

fn copy_string(s: &String) -> (r: String)
    ensures
        r@ == s@,
{
    let mut out = String::new();
    out.append(s.as_str());
    out
}

impl PainterBackend for SvgRender {
    /// Resizing restates the root container's size attributes; the view
    /// box follows the new extent from the origin.
    fn resize(&mut self, size: (u32, u32))
        ensures
            ({
                let w = ((size.0 as int) * 65536) as i64;
                let h = ((size.1 as int) * 65536) as i64;
                final(self)@ == (SvgModel {
                    svg: svg_resized_model(old(self)@.svg, w as int, h as int, (0i64, 0i64, w, h)),
                    width: w,
                    height: h,
                    view_box: (0i64, 0i64, w, h),
                    ..old(self)@
                })
            }),
    {
        let w: i64 = (size.0 as i64) * 65536;
        let h: i64 = (size.1 as i64) * 65536;
        self.resize_svg((w, h), None);
    }

    /// A vector segment appends its fill pass and then its stroke pass,
    /// each exactly as `spec_append_path` says; raw-pixel segments are a
    /// capability the markup backend does not express, and change
    /// nothing, as does a segment arriving once the identifier counter
    /// has no room left.
    fn draw(&mut self, seg: &Segment)
        ensures
            final(self)@ == spec_draw(old(self)@, segment_model(*seg)),
    {
        if self.use_count > 0xFFFF_FFFF_FFFF_0000 {
            return;
        }
        match seg {
            Segment::Pixel(_) => {}
            Segment::Vector(v) => {
                match &v.fill {
                    Some(paint) => {
                        let clip = copy_clip(&v.clip);
                        self.append_path(&v.path, Some(paint), None, Some(v.fill_rule), clip);
                    }
                    None => {}
                }
                match &v.stroke {
                    Some(st) => {
                        let clip = copy_clip(&v.clip);
                        let stroke_copy = st.clone_stroke();
                        self.append_path(&v.path, None, Some(&stroke_copy), Some(v.fill_rule), clip);
                    }
                    None => {}
                }
            }
        }
    }

    /// The markup bytes of the finished document — the root container
    /// with the defs section and the content group appended — leaving the
    /// backend state as it was.
    fn finish(&mut self) -> (r: Vec<u8>)
        ensures
            final(self)@ == old(self)@,
            r@ == vstd::utf8::encode_utf8(elem_markup(spec_finish_doc(old(self)@))),
    {
        let mut root = elem_clone(&self.svg);
        elem_append(&mut root, elem_clone(&self.defs));
        let mut group_elems = Vec::<svg::node::element::Element>::new();
        let mut i: usize = 0;
        while i < self.content.len()
            invariant
                i <= self.content@.len(),
                group_elems@.len() == i,
                forall|k: int| 0 <= k < i
                    ==> elem_model(#[trigger] group_elems@[k]) == self@.content[k],
            decreases self.content@.len() - i,
        {
            group_elems.push(elem_clone(&self.content[i]));
            i = i + 1;
        }
        let g = group(group_elems);
        proof {
            assert(elem_model(g).children =~= self@.content);
            assert(elem_model(g) =~~= (ElemModel { children: self@.content, ..fresh_elem("g"@) }));
        }
        elem_append(&mut root, g);
        proof {
            assert(elem_model(root) =~~= spec_finish_doc(self@));
        }
        let text = elem_to_string(&root);
        string_bytes(&text)
    }
}

fn string_bytes(s: &String) -> (r: Vec<u8>)
    ensures
        r@ == vstd::utf8::encode_utf8(s@),
{
    vstd::slice::slice_to_vec(s.as_str().as_bytes())
}


/// A `rect` element with the given raw extent and position.
pub fn create_rect_tag(width: i64, height: i64, x: i64, y: i64) -> (r: svg::node::element::Element)
    ensures
        elem_model(r) == (ElemModel {
            attrs: Map::<Seq<char>, Seq<char>>::empty()
                .insert("width"@, fx_text(width as int))
                .insert("height"@, fx_text(height as int))
                .insert("x"@, fx_text(x as int))
                .insert("y"@, fx_text(y as int)),
            ..fresh_elem("rect"@)
        }),
{
    let mut rect = elem_new("rect");
    let w = fx_to_dec(width);
    elem_assign(&mut rect, "width", w.as_str());
    let h = fx_to_dec(height);
    elem_assign(&mut rect, "height", h.as_str());
    let xs = fx_to_dec(x);
    elem_assign(&mut rect, "x", xs.as_str());
    let ys = fx_to_dec(y);
    elem_assign(&mut rect, "y", ys.as_str());
    rect
}

/// One gradient stop: its offset keyword, then the color channels run
/// together and the opacity channel, as the markup contract has them.
pub open spec fn gradient_stop_model(key: Seq<char>, c: crate::paint::color::Color) -> ElemModel {
    ElemModel {
        attrs: Map::<Seq<char>, Seq<char>>::empty()
            .insert("offset"@, key)
            .insert("stop-color"@, dec_digits(c.r as int) + dec_digits(c.g as int) + dec_digits(c.b as int))
            .insert("stop-opacity"@, dec_digits(c.a as int)),
        ..fresh_elem("stop"@)
    }
}

/// The model of a linear gradient definition under the given key, with a
/// direction vector in raw per-one units rendered as percentages.
pub open spec fn linear_gradient_model(vector: (i64, i64), stops: Seq<(Seq<char>, crate::paint::color::Color)>, key: Seq<char>) -> ElemModel {
    ElemModel {
        attrs: Map::<Seq<char>, Seq<char>>::empty()
            .insert("id"@, key)
            .insert("x1"@, "0"@)
            .insert("y1"@, "0"@)
            .insert("x2"@, fx_text(100 * vector.0 as int) + "%"@)
            .insert("y2"@, fx_text(100 * vector.1 as int) + "%"@),
        children: stops.map(|i: int, s: (Seq<char>, crate::paint::color::Color)| gradient_stop_model(s.0, s.1)),
        ..fresh_elem("linearGradient"@)
    }
}

/// A `linearGradient` element with the given stops under the given key.
pub fn create_linear_gradient(vector: (i64, i64), stop: Vec<(String, crate::paint::color::Color)>, key: String)
    -> (r: svg::node::element::Element)
    requires
        -0x1_0000_0000_0000 <= vector.0 <= 0x1_0000_0000_0000,
        -0x1_0000_0000_0000 <= vector.1 <= 0x1_0000_0000_0000,
    ensures
        elem_model(r) == linear_gradient_model(vector,
            stop@.map(|i: int, s: (String, crate::paint::color::Color)| (s.0@, s.1)), key@),
{
    proof {
        reveal_strlit("0");
        reveal_strlit("%");
        assert("0"@ =~= seq!['0']);
    }
    let ghost stop_views = stop@.map(|i: int, s: (String, crate::paint::color::Color)| (s.0@, s.1));
    let mut linear_gradient = elem_new("linearGradient");
    elem_assign(&mut linear_gradient, "id", key.as_str());
    elem_assign(&mut linear_gradient, "x1", "0");
    elem_assign(&mut linear_gradient, "y1", "0");
    let mut x2 = fx_to_dec(100 * vector.0);
    x2.append("%");
    elem_assign(&mut linear_gradient, "x2", x2.as_str());
    let mut y2 = fx_to_dec(100 * vector.1);
    y2.append("%");
    elem_assign(&mut linear_gradient, "y2", y2.as_str());
    let mut rest = stop;
    let n = rest.len();
    let mut i: usize = 0;
    let ghost base_model = elem_model(linear_gradient);
    proof {
        assert(stop_views.map(|j: int, s: (Seq<char>, crate::paint::color::Color)| gradient_stop_model(s.0, s.1)).take(0)
            =~= Seq::<ElemModel>::empty());
    }
    while i < n
        invariant
            i <= n,
            rest@.len() == n - i,
            stop_views.len() == n,
            forall|k: int| 0 <= k < n - i ==> (#[trigger] rest@[k]).0@ == stop_views[i + k].0
                && rest@[k].1 == stop_views[i + k].1,
            elem_model(linear_gradient) == (ElemModel {
                children: stop_views.map(|j: int, s: (Seq<char>, crate::paint::color::Color)| gradient_stop_model(s.0, s.1)).take(i as int),
                ..base_model
            }),
            base_model.children == Seq::<ElemModel>::empty(),
        decreases n - i,
    {
        let ghost pre = rest@;
        let (stop_key, value) = rest.remove(0);
        proof {
            assert(pre[0].0@ == stop_views[i as int].0 && pre[0].1 == stop_views[i as int].1);
            assert(forall|k: int| 0 <= k < n - i - 1
                ==> (#[trigger] rest@[k]).0@ == pre[k + 1].0@ && rest@[k].1 == pre[k + 1].1);
        }
        let mut stop_tag = elem_new("stop");
        elem_assign(&mut stop_tag, "offset", stop_key.as_str());
        let mut color_text = u64_to_dec(value.r as u64);
        let g_text = u64_to_dec(value.g as u64);
        color_text.append(g_text.as_str());
        let b_text = u64_to_dec(value.b as u64);
        color_text.append(b_text.as_str());
        elem_assign(&mut stop_tag, "stop-color", color_text.as_str());
        let a_text = u64_to_dec(value.a as u64);
        elem_assign(&mut stop_tag, "stop-opacity", a_text.as_str());
        proof {
            assert(elem_model(stop_tag) =~~= gradient_stop_model(stop_views[i as int].0, stop_views[i as int].1));
        }
        elem_append(&mut linear_gradient, stop_tag);
        proof {
            let mapped = stop_views.map(|j: int, s: (Seq<char>, crate::paint::color::Color)| gradient_stop_model(s.0, s.1));
            assert(mapped.take(i + 1 as int) =~= mapped.take(i as int).push(mapped[i as int]));
        }
        i = i + 1;
    }
    proof {
        let mapped = stop_views.map(|j: int, s: (Seq<char>, crate::paint::color::Color)| gradient_stop_model(s.0, s.1));
        assert(mapped.take(n as int) =~= mapped);
        assert(elem_model(linear_gradient) =~~= linear_gradient_model(vector, stop_views, key@));
    }
    linear_gradient
}

/// The identifier a shadow filter is stored under: the color channels,
/// the raw offsets and the raw blur, run together.
pub open spec fn shadow_id_text(r: int, g: int, b: int, a: int, dx: int, dy: int, blur: int) -> Seq<char> {
    "shadow-"@ + dec_digits(r) + dec_digits(g) + dec_digits(b) + frac256_text(a)
        + fx_text(dx) + fx_text(dy) + fx_text(blur)
}

/// The model of the drop-shadow filter definition: a color matrix over
/// the source alpha, an offset, a blur, and a merge of the blurred shadow
/// under the source.
pub open spec fn shadow_filter_model(r: int, g: int, b: int, a: int, dx: int, dy: int, blur: int) -> ElemModel {
    let matrix = ElemModel {
        attrs: Map::<Seq<char>, Seq<char>>::empty()
            .insert("type"@, "matrix"@)
            .insert("in"@, "SourceAlpha"@)
            .insert("result"@, "matrix"@)
            .insert("color-interpolation-filters"@, "sRGB"@)
            .insert("values"@, " 0 0 0 0 "@ + frac256_text(r) + " 0 0 0 0 "@ + frac256_text(g)
                + " 0 0 0 0 "@ + frac256_text(b) + " 0 0 0 "@ + frac256_text(a) + " 0"@),
        ..fresh_elem("feColorMatrix"@)
    };
    let offset = ElemModel {
        attrs: Map::<Seq<char>, Seq<char>>::empty()
            .insert("dx"@, fx_text(dx))
            .insert("dy"@, fx_text(dy))
            .insert("in"@, "matrix"@)
            .insert("result"@, "offset"@),
        ..fresh_elem("feOffset"@)
    };
    let gaussian = ElemModel {
        attrs: Map::<Seq<char>, Seq<char>>::empty()
            .insert("stdDeviation"@, fx_text(blur))
            .insert("in"@, "offset"@)
            .insert("result"@, "blur"@),
        ..fresh_elem("feGaussianBlur"@)
    };
    let merge_blur = ElemModel {
        attrs: Map::<Seq<char>, Seq<char>>::empty().insert("in"@, "blur"@),
        ..fresh_elem("feMergeNode"@)
    };
    let merge_source = ElemModel {
        attrs: Map::<Seq<char>, Seq<char>>::empty().insert("in"@, "SourceGraphic"@),
        ..fresh_elem("feMergeNode"@)
    };
    let merge = ElemModel {
        children: seq![merge_blur, merge_source],
        ..fresh_elem("feMerge"@)
    };
    ElemModel {
        attrs: Map::<Seq<char>, Seq<char>>::empty()
            .insert("x"@, "-150%"@)
            .insert("y"@, "-150%"@)
            .insert("width"@, "400%"@)
            .insert("height"@, "400%"@)
            .insert("id"@, shadow_id_text(r, g, b, a, dx, dy, blur)),
        children: seq![matrix, offset, gaussian, merge],
        ..fresh_elem("filter"@)
    }
}

/// Stores a drop-shadow filter for the given color, raw offset and raw
/// blur in the defs section, and points the element's filter attribute at
/// it.  The color's channels are rendered as fractions of one, the alpha
/// in 256ths.
pub fn apply_shadow(defs: &mut svg::node::element::Element, element: &mut svg::node::element::Element,
    color: (u8, u8, u8, u8), offset: (i64, i64), blur: i64)
    ensures
        ({
            let id = shadow_id_text(color.0 as int, color.1 as int, color.2 as int, color.3 as int,
                offset.0 as int, offset.1 as int, blur as int);
            &&& elem_model(*final(defs)) == (ElemModel {
                children: elem_model(*old(defs)).children.push(shadow_filter_model(
                    color.0 as int, color.1 as int, color.2 as int, color.3 as int,
                    offset.0 as int, offset.1 as int, blur as int)),
                ..elem_model(*old(defs))
            })
            &&& elem_model(*final(element)) == (ElemModel {
                attrs: elem_model(*old(element)).attrs.insert("filter"@, "url(#"@ + id + ")"@),
                ..elem_model(*old(element))
            })
        }),
{
    proof {
        reveal_strlit(" 0 0 0 0 ");
        reveal_strlit(" 0 0 0 ");
        reveal_strlit(" 0");
        reveal_strlit("shadow-");
        reveal_strlit("url(#");
        reveal_strlit(")");
    }
    let mut filter = create_filter_tag();
    let (r, g, b, a) = color;
    let (dx, dy) = offset;
    let mut id = "shadow-".to_owned();
    let rt = u64_to_dec(r as u64);
    id.append(rt.as_str());
    let gt = u64_to_dec(g as u64);
    id.append(gt.as_str());
    let bt = u64_to_dec(b as u64);
    id.append(bt.as_str());
    let at = u8_frac256_to_dec(a);
    id.append(at.as_str());
    let dxt = fx_to_dec(dx);
    id.append(dxt.as_str());
    let dyt = fx_to_dec(dy);
    id.append(dyt.as_str());
    let blt = fx_to_dec(blur);
    id.append(blt.as_str());

    let mut fe_color_matrix = elem_new("feColorMatrix");
    elem_assign(&mut fe_color_matrix, "type", "matrix");
    elem_assign(&mut fe_color_matrix, "in", "SourceAlpha");
    elem_assign(&mut fe_color_matrix, "result", "matrix");
    elem_assign(&mut fe_color_matrix, "color-interpolation-filters", "sRGB");
    let mut matrix_values = " 0 0 0 0 ".to_owned();
    let rv = u8_frac256_to_dec(r);
    matrix_values.append(rv.as_str());
    matrix_values.append(" 0 0 0 0 ");
    let gv = u8_frac256_to_dec(g);
    matrix_values.append(gv.as_str());
    matrix_values.append(" 0 0 0 0 ");
    let bv = u8_frac256_to_dec(b);
    matrix_values.append(bv.as_str());
    matrix_values.append(" 0 0 0 ");
    let av = u8_frac256_to_dec(a);
    matrix_values.append(av.as_str());
    matrix_values.append(" 0");
    elem_assign(&mut fe_color_matrix, "values", matrix_values.as_str());

    let mut fe_offset = elem_new("feOffset");
    let dxv = fx_to_dec(dx);
    elem_assign(&mut fe_offset, "dx", dxv.as_str());
    let dyv = fx_to_dec(dy);
    elem_assign(&mut fe_offset, "dy", dyv.as_str());
    elem_assign(&mut fe_offset, "in", "matrix");
    elem_assign(&mut fe_offset, "result", "offset");

    let mut fe_gaussian_blur = elem_new("feGaussianBlur");
    let blv = fx_to_dec(blur);
    elem_assign(&mut fe_gaussian_blur, "stdDeviation", blv.as_str());
    elem_assign(&mut fe_gaussian_blur, "in", "offset");
    elem_assign(&mut fe_gaussian_blur, "result", "blur");

    let mut fe_merge = elem_new("feMerge");
    let mut fe_merge_node = elem_new("feMergeNode");
    elem_assign(&mut fe_merge_node, "in", "blur");
    let mut fe_merge_node1 = elem_new("feMergeNode");
    elem_assign(&mut fe_merge_node1, "in", "SourceGraphic");
    let ghost node_blur = elem_model(fe_merge_node);
    let ghost node_source = elem_model(fe_merge_node1);
    elem_append(&mut fe_merge, fe_merge_node);
    elem_append(&mut fe_merge, fe_merge_node1);

    let ghost target = shadow_filter_model(r as int, g as int, b as int, a as int,
        dx as int, dy as int, blur as int);
    proof {
        assert(node_blur =~~= target.children[3].children[0]);
        assert(node_source =~~= target.children[3].children[1]);
        assert(elem_model(fe_merge).children =~= target.children[3].children);
        assert(elem_model(fe_merge) =~~= target.children[3]);
        assert(elem_model(fe_color_matrix) =~~= target.children[0]);
        assert(elem_model(fe_offset) =~~= target.children[1]);
        assert(elem_model(fe_gaussian_blur) =~~= target.children[2]);
    }
    let ghost m_matrix = elem_model(fe_color_matrix);
    let ghost m_offset = elem_model(fe_offset);
    let ghost m_blur = elem_model(fe_gaussian_blur);
    let ghost m_merge = elem_model(fe_merge);
    elem_append(&mut filter, fe_color_matrix);
    elem_append(&mut filter, fe_offset);
    elem_append(&mut filter, fe_gaussian_blur);
    elem_append(&mut filter, fe_merge);

    elem_assign(&mut filter, "x", "-150%");
    elem_assign(&mut filter, "y", "-150%");
    elem_assign(&mut filter, "width", "400%");
    elem_assign(&mut filter, "height", "400%");
    elem_assign(&mut filter, "id", id.as_str());

    proof {
        assert(elem_model(filter).children =~= target.children) by {
            assert(elem_model(filter).children
                =~= seq![m_matrix, m_offset, m_blur, m_merge]);
        }
        assert(elem_model(filter).attrs =~~= target.attrs);
        assert(elem_model(filter) =~~= target);
    }
    elem_append(defs, filter);
    let mut filter_ref = "url(#".to_owned();
    filter_ref.append(id.as_str());
    filter_ref.append(")");
    elem_assign(element, "filter", filter_ref.as_str());
}

} // verus!
