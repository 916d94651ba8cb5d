//! The guarantees the controller gives its embedder, stated and proved once
//! for all inputs: uniqueness of the active option, determinism and
//! non-deduplication of selection, complete suppression of clicks on
//! disabled options, and the layering of style fragments.

use vstd::prelude::*;
use crate::group::RadioProps;
use crate::group::RenderedRadio;
use crate::group::active_at;
use crate::group::rendered_as;
use crate::group::select_spec;

verus! {

/// `frag` occurs contiguously somewhere in `s`.
pub open spec fn has_fragment(s: Seq<char>, frag: Seq<char>) -> bool {
    exists|k: int|
        0 <= k && k + frag.len() <= s.len() && #[trigger] s.subrange(k, k + frag.len()) == frag
}

/// However a list of options is rendered, at most one of them carries the
/// checked mark, and a checked option's value is the selected value.
///
/// The two hypotheses on `out` are exactly what `render` ensures of its
/// result, so the law covers every rendering the library can produce.
pub proof fn lemma_single_active(
    ds: Seq<RadioProps>,
    sel: Seq<char>,
    out: Seq<RenderedRadio>,
    i: int,
    j: int,
)
    requires
        out.len() == ds.len(),
        forall|k: int| 0 <= k < ds.len() ==> rendered_as(ds[k], active_at(ds, sel, k), #[trigger] out[k]),
        0 <= i < out.len(),
        0 <= j < out.len(),
        out[i].checked,
        out[j].checked,
    ensures
        i == j,
        out[i].value@ == sel,
{
    assert(rendered_as(ds[i], active_at(ds, sel, i), out[i]));
    assert(rendered_as(ds[j], active_at(ds, sel, j), out[j]));
    if i < j {
        assert(ds[i].value@ != sel);
    }
    if j < i {
        assert(ds[j].value@ != sel);
    }
}

/// Selection is deterministic and never deduplicated: selecting the same
/// enabled value twice in a row installs that value both times, and each of
/// the two calls reports one notification of it.
pub proof fn lemma_select_repeat(selected: Seq<char>, value: Seq<char>)
    ensures
        select_spec(selected, value, false).0 == value,
        select_spec(selected, value, false).1 == Some(value),
        select_spec(select_spec(selected, value, false).0, value, false).0 == value,
        select_spec(select_spec(selected, value, false).0, value, false).1 == Some(value),
{
}

/// A click on a disabled option has zero observable effect: the selected
/// value stays what it was and neither listener slot fires.
pub proof fn lemma_select_disabled(selected: Seq<char>, value: Seq<char>)
    ensures
        select_spec(selected, value, true).0 == selected,
        select_spec(selected, value, true).1 == None::<Seq<char>>,
{
}

/// Style layering: an option's resolved style always carries its base style
/// as a contiguous fragment; it carries the active style fragment while the
/// option is active, and the disabled style fragment while the option is
/// disabled.
pub proof fn lemma_style_layering(p: RadioProps, active: bool)
    ensures
        has_fragment(p.style_spec(active), p.style@),
        active ==> has_fragment(p.style_spec(active), p.selected_style@),
        p.disabled ==> has_fragment(p.style_spec(active), p.disabled_style@),
{
    let s = p.style_spec(active);
    let a = if active {
        p.selected_style@
    } else {
        Seq::<char>::empty()
    };
    let d = if p.disabled {
        p.disabled_style@
    } else {
        Seq::<char>::empty()
    };
    let sp = " "@;
    let base_off: int = (a.len() + sp.len() + d.len() + sp.len()) as int;
    assert(s.subrange(base_off, base_off + p.style@.len()) =~= p.style@);
    if active {
        assert(s.subrange(0, 0 + p.selected_style@.len() as int) =~= p.selected_style@);
    }
    if p.disabled {
        let d_off: int = (a.len() + sp.len()) as int;
        assert(s.subrange(d_off, d_off + p.disabled_style@.len()) =~= p.disabled_style@);
    }
}

/// Class layering, the same way: the resolved class always carries the base
/// class fragment, the active class fragment while active, and the disabled
/// class fragment while disabled.
pub proof fn lemma_class_layering(p: RadioProps, active: bool)
    ensures
        has_fragment(p.class_spec(active), p.class@),
        active ==> has_fragment(p.class_spec(active), p.selected_class@),
        p.disabled ==> has_fragment(p.class_spec(active), p.disabled_class@),
{
    let s = p.class_spec(active);
    let a = if active {
        p.selected_class@
    } else {
        Seq::<char>::empty()
    };
    let d = if p.disabled {
        p.disabled_class@
    } else {
        Seq::<char>::empty()
    };
    let sp = " "@;
    let base_off: int = (a.len() + sp.len() + d.len() + sp.len()) as int;
    assert(s.subrange(base_off, base_off + p.class@.len()) =~= p.class@);
    if active {
        assert(s.subrange(0, 0 + p.selected_class@.len() as int) =~= p.selected_class@);
    }
    if p.disabled {
        let d_off: int = (a.len() + sp.len()) as int;
        assert(s.subrange(d_off, d_off + p.disabled_class@.len()) =~= p.disabled_class@);
    }
}

/// An enabled option's resolved style is built with an empty disabled slot:
/// the disabled style text cannot reach it. Two enabled options that agree on
/// everything the style reads except their disabled style resolve to the very
/// same style.
pub proof fn lemma_enabled_ignores_disabled_style(p: RadioProps, q: RadioProps, active: bool)
    requires
        !p.disabled,
        !q.disabled,
        p.selected_style@ == q.selected_style@,
        p.style@ == q.style@,
        p.animation_style@ == q.animation_style@,
        p.kind == q.kind,
        p.size == q.size,
    ensures
        p.style_spec(active) == q.style_spec(active),
{
}

} // verus!
