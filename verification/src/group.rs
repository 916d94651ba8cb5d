//! The selection controller: option descriptors, the group that owns the
//! selected value, pure rendering of every option in input order, and the
//! single mutation entry point `select`.

use vstd::prelude::*;
use crate::common::Orientation;
use crate::common::Size;
use crate::common::Type;

verus! {

/// One selectable option of a radio group: its identity, label, optional
/// image, interactivity flag, and the style and class fragments for each
/// visual state. A descriptor is plain data; rendering only reads it.
#[derive(Clone, Debug)]
pub struct RadioProps {
    /// Text shown beside the option.
    pub label: String,
    /// Identity of the option within its group; the option is active exactly
    /// when this equals the group's selected value.
    pub value: String,
    /// Optional image reference; empty means no image.
    pub src: String,
    /// Base inline style of the option's container.
    pub style: String,
    /// Base class of the option's container.
    pub class: String,
    /// Inline style of the label text.
    pub label_style: String,
    /// Class of the label text.
    pub label_class: String,
    /// Inline style of the optional image.
    pub image_style: String,
    /// Class of the optional image.
    pub image_class: String,
    /// Preset or custom padding.
    pub size: Size,
    /// Preset or custom colour scheme.
    pub kind: Type,
    /// A disabled option renders non-interactive and swallows clicks.
    pub disabled: bool,
    /// Style layered on while the option is the group's active one.
    pub selected_style: String,
    /// Class layered on while the option is the group's active one.
    pub selected_class: String,
    /// Style layered on while the option is disabled.
    pub disabled_style: String,
    /// Class layered on while the option is disabled.
    pub disabled_class: String,
    /// Style of the transient hover animation.
    pub animation_style: String,
    /// Class of the transient hover animation.
    pub animation_class: String,
    /// Style of the hidden native input mirroring the option's state.
    pub input_style: String,
    /// Class of the hidden native input.
    pub input_class: String,
}

impl RadioProps {
    /// Resolved inline style of the option at rest: active, disabled, base,
    /// animation, colour and size fragments, space-joined in this fixed
    /// order. The active and disabled slots are empty while the matching
    /// state is off.
    pub open spec fn style_spec(self, active: bool) -> Seq<char> {
        (if active {
            self.selected_style@
        } else {
            Seq::<char>::empty()
        }) + " "@ + (if self.disabled {
            self.disabled_style@
        } else {
            Seq::<char>::empty()
        }) + " "@ + self.style@ + " "@ + self.animation_style@ + " "@ + self.kind.style_spec()
            + " "@ + self.size.style_spec()
    }

    /// Resolved class of the option at rest: active, disabled and base
    /// fragments, space-joined; empty slots for states that are off.
    pub open spec fn class_spec(self, active: bool) -> Seq<char> {
        (if active {
            self.selected_class@
        } else {
            Seq::<char>::empty()
        }) + " "@ + (if self.disabled {
            self.disabled_class@
        } else {
            Seq::<char>::empty()
        }) + " "@ + self.class@
    }

    /// Style worn while the pointer hovers over the option: the same slots as
    /// at rest, but with the size fragment before the colour fragment.
    pub open spec fn hover_style_spec(self, active: bool) -> Seq<char> {
        (if active {
            self.selected_style@
        } else {
            Seq::<char>::empty()
        }) + " "@ + (if self.disabled {
            self.disabled_style@
        } else {
            Seq::<char>::empty()
        }) + " "@ + self.style@ + " "@ + self.animation_style@ + " "@ + self.size.style_spec()
            + " "@ + self.kind.style_spec()
    }

    /// Class worn while the pointer hovers: the resting class with the
    /// animation class appended.
    pub open spec fn hover_class_spec(self, active: bool) -> Seq<char> {
        self.class_spec(active) + " "@ + self.animation_class@
    }

    /// Style restored when the pointer leaves: the hover slots without the
    /// animation fragment.
    pub open spec fn leave_style_spec(self, active: bool) -> Seq<char> {
        (if active {
            self.selected_style@
        } else {
            Seq::<char>::empty()
        }) + " "@ + (if self.disabled {
            self.disabled_style@
        } else {
            Seq::<char>::empty()
        }) + " "@ + self.style@ + " "@ + self.size.style_spec() + " "@ + self.kind.style_spec()
    }

    /// Builds the resting style declaration. `active` says whether the option
    /// is the group's current selection.
    pub fn resolved_style(&self, active: bool) -> (r: String)
        ensures
            r@ == self.style_spec(active),
    {
        let mut s = String::new();
        if active {
            s.append(self.selected_style.as_str());
        }
        s.append(" ");
        if self.disabled {
            s.append(self.disabled_style.as_str());
        }
        s.append(" ");
        s.append(self.style.as_str());
        s.append(" ");
        s.append(self.animation_style.as_str());
        s.append(" ");
        let kind_style = self.kind.to_style();
        s.append(kind_style.as_str());
        s.append(" ");
        let size_style = self.size.to_style();
        s.append(size_style.as_str());
        proof {
            assert(s@ =~= self.style_spec(active));
        }
        s
    }

    /// Builds the resting class attribute.
    pub fn resolved_class(&self, active: bool) -> (r: String)
        ensures
            r@ == self.class_spec(active),
    {
        let mut s = String::new();
        if active {
            s.append(self.selected_class.as_str());
        }
        s.append(" ");
        if self.disabled {
            s.append(self.disabled_class.as_str());
        }
        s.append(" ");
        s.append(self.class.as_str());
        proof {
            assert(s@ =~= self.class_spec(active));
        }
        s
    }

    /// Builds the style declaration applied while the pointer hovers over the
    /// option.
    pub fn hover_style(&self, active: bool) -> (r: String)
        ensures
            r@ == self.hover_style_spec(active),
    {
        let mut s = String::new();
        if active {
            s.append(self.selected_style.as_str());
        }
        s.append(" ");
        if self.disabled {
            s.append(self.disabled_style.as_str());
        }
        s.append(" ");
        s.append(self.style.as_str());
        s.append(" ");
        s.append(self.animation_style.as_str());
        s.append(" ");
        let size_style = self.size.to_style();
        s.append(size_style.as_str());
        s.append(" ");
        let kind_style = self.kind.to_style();
        s.append(kind_style.as_str());
        proof {
            assert(s@ =~= self.hover_style_spec(active));
        }
        s
    }

    /// Builds the class attribute applied while the pointer hovers.
    pub fn hover_class(&self, active: bool) -> (r: String)
        ensures
            r@ == self.hover_class_spec(active),
    {
        let mut s = self.resolved_class(active);
        s.append(" ");
        s.append(self.animation_class.as_str());
        s
    }

    /// Builds the style declaration restored when the pointer leaves the
    /// option: the animation fragment is dropped.
    pub fn leave_style(&self, active: bool) -> (r: String)
        ensures
            r@ == self.leave_style_spec(active),
    {
        let mut s = String::new();
        if active {
            s.append(self.selected_style.as_str());
        }
        s.append(" ");
        if self.disabled {
            s.append(self.disabled_style.as_str());
        }
        s.append(" ");
        s.append(self.style.as_str());
        s.append(" ");
        let size_style = self.size.to_style();
        s.append(size_style.as_str());
        s.append(" ");
        let kind_style = self.kind.to_style();
        s.append(kind_style.as_str());
        proof {
            assert(s@ =~= self.leave_style_spec(active));
        }
        s
    }
}

impl Default for RadioProps {
    /// A blank option: empty identity, label and styling, smallest size, no
    /// colour scheme, enabled, and the hidden-input style that keeps the
    /// native input present but invisible.
    fn default() -> (r: Self)
        ensures
            r.label@ == Seq::<char>::empty(),
            r.value@ == Seq::<char>::empty(),
            r.src@ == Seq::<char>::empty(),
            r.style@ == Seq::<char>::empty(),
            r.class@ == Seq::<char>::empty(),
            r.label_style@ == Seq::<char>::empty(),
            r.label_class@ == Seq::<char>::empty(),
            r.image_style@ == Seq::<char>::empty(),
            r.image_class@ == Seq::<char>::empty(),
            r.size == Size::XSmall,
            r.kind == Type::Plain,
            !r.disabled,
            r.selected_style@ == Seq::<char>::empty(),
            r.selected_class@ == Seq::<char>::empty(),
            r.disabled_style@ == Seq::<char>::empty(),
            r.disabled_class@ == Seq::<char>::empty(),
            r.animation_style@ == Seq::<char>::empty(),
            r.animation_class@ == Seq::<char>::empty(),
            r.input_style@ == "position: absolute; opacity: 0; pointer-events: none;"@,
            r.input_class@ == Seq::<char>::empty(),
    {
        RadioProps {
            label: String::new(),
            value: String::new(),
            src: String::new(),
            style: String::new(),
            class: String::new(),
            label_style: String::new(),
            label_class: String::new(),
            image_style: String::new(),
            image_class: String::new(),
            size: Size::XSmall,
            kind: Type::Plain,
            disabled: false,
            selected_style: String::new(),
            selected_class: String::new(),
            disabled_style: String::new(),
            disabled_class: String::new(),
            animation_style: String::new(),
            animation_class: String::new(),
            input_style: "position: absolute; opacity: 0; pointer-events: none;".to_owned(),
            input_class: String::new(),
        }
    }
}

/// The rendered view of one option: everything the embedding layer needs to
/// draw it — the resolved style and class, the mirrored native input state,
/// the optional image and the label.
#[derive(Clone, Debug)]
pub struct RenderedRadio {
    /// The option's identity, carried through for event wiring.
    pub value: String,
    /// Label text node.
    pub label: String,
    /// Image reference; empty means the image element is omitted.
    pub src: String,
    /// Whether this option is the group's active one; mirrored onto the
    /// hidden native input.
    pub checked: bool,
    /// Whether the option is non-interactive; mirrored onto the input.
    pub disabled: bool,
    /// Resolved, layered inline style of the container.
    pub style: String,
    /// Resolved, layered class of the container.
    pub class: String,
    /// Style of the hidden native input.
    pub input_style: String,
    /// Class of the hidden native input.
    pub input_class: String,
    /// Style of the optional image.
    pub image_style: String,
    /// Class of the optional image.
    pub image_class: String,
    /// Style of the label text.
    pub label_style: String,
    /// Class of the label text.
    pub label_class: String,
}

impl RenderedRadio {
    /// Whether the option shows an image element: it does exactly when the
    /// descriptor carried a non-empty image reference.
    pub fn has_image(&self) -> (r: bool)
        ensures
            r == (self.src@.len() != 0),
    {
        !self.src.as_str().is_empty()
    }
}

/// `out` is the faithful rendering of descriptor `p` with activity `active`:
/// identity, label and image carried through, the checked mark equal to
/// `active`, and the style and class resolved by the fixed slot layering.
pub open spec fn rendered_as(p: RadioProps, active: bool, out: RenderedRadio) -> bool {
    &&& out.value@ == p.value@
    &&& out.label@ == p.label@
    &&& out.src@ == p.src@
    &&& out.checked == active
    &&& out.disabled == p.disabled
    &&& out.style@ == p.style_spec(active)
    &&& out.class@ == p.class_spec(active)
    &&& out.input_style@ == p.input_style@
    &&& out.input_class@ == p.input_class@
    &&& out.image_style@ == p.image_style@
    &&& out.image_class@ == p.image_class@
    &&& out.label_style@ == p.label_style@
    &&& out.label_class@ == p.label_class@
}

/// Renders one option. `active` says whether the option is the group's
/// current selection; activity is derived by the group, never stored in the
/// descriptor.
pub fn Radio(props: &RadioProps, active: bool) -> (r: RenderedRadio)
    ensures
        rendered_as(*props, active, r),
{
    RenderedRadio {
        value: props.value.clone(),
        label: props.label.clone(),
        src: props.src.clone(),
        checked: active,
        disabled: props.disabled,
        style: props.resolved_style(active),
        class: props.resolved_class(active),
        input_style: props.input_style.clone(),
        input_class: props.input_class.clone(),
        image_style: props.image_style.clone(),
        image_class: props.image_class.clone(),
        label_style: props.label_style.clone(),
        label_class: props.label_class.clone(),
    }
}

/// Index `i` holds the group's active option: its value equals the selected
/// value and no earlier option's does. When several options share one value,
/// the first match wins; when no value matches, no index is active.
pub open spec fn active_at(ds: Seq<RadioProps>, sel: Seq<char>, i: int) -> bool {
    &&& ds[i].value@ == sel
    &&& forall|j: int| 0 <= j < i ==> ds[j].value@ != sel
}

/// Renders every option in input order — order is significant and preserved.
/// Exactly the first option whose value equals `selected` (if any) is marked
/// checked; a `selected` value that matches no option marks none, which is a
/// supported state, not an error.
pub fn render(children: &Vec<RadioProps>, selected: &String) -> (r: Vec<RenderedRadio>)
    ensures
        r@.len() == children@.len(),
        forall|i: int|
            0 <= i < children@.len() ==> rendered_as(
                children@[i],
                active_at(children@, selected@, i),
                #[trigger] r@[i],
            ),
{
    let mut out: Vec<RenderedRadio> = Vec::new();
    let mut seen: bool = false;
    let mut i: usize = 0;
    while i < children.len()
        invariant
            i <= children@.len(),
            out@.len() == i as int,
            seen == exists|j: int| 0 <= j < i && (#[trigger] children@[j].value@) == selected@,
            forall|k: int|
                0 <= k < i ==> rendered_as(
                    children@[k],
                    active_at(children@, selected@, k),
                    #[trigger] out@[k],
                ),
        decreases children@.len() - i,
    {
        let p = &children[i];
        let matched = p.value == *selected;
        let active = matched && !seen;
        proof {
            if matched {
                assert(children@[i as int].value@ == selected@);
            }
            assert(active == active_at(children@, selected@, i as int));
        }
        let rendered = Radio(p, active);
        out.push(rendered);
        seen = seen || matched;
        i = i + 1;
    }
    out
}

/// A radio group: the currently selected value, the layout orientation, the
/// container's own style and class, and its option descriptors in visual
/// order. The selected value is the group's only mutable state; it changes
/// through `select` alone.
#[derive(Clone, Debug)]
pub struct GroupProps {
    /// The value of the group's active option; it may match no option, in
    /// which case every option renders inactive.
    pub selected: String,
    /// Layout direction of the container.
    pub orientation: Orientation,
    /// Extra inline style of the container.
    pub style: String,
    /// Class of the container.
    pub class: String,
    /// The option descriptors, in visual and tab order.
    pub children: Vec<RadioProps>,
}

/// The rendered view of a whole group: the container's style and class and
/// the rendered options in input order.
#[derive(Clone, Debug)]
pub struct RenderedGroup {
    /// Container style: the orientation's layout declaration followed by the
    /// group's own style.
    pub style: String,
    /// Container class, carried through unchanged.
    pub class: String,
    /// The rendered options, one per descriptor, in input order.
    pub options: Vec<RenderedRadio>,
}

/// What one click produced: the value to hand to the group's change listener
/// and the value to hand to the raw-click listener. Both are `Some` exactly
/// when the clicked option was enabled; the embedding layer dispatches each
/// to its listener, in an order of its own choosing, and never again.
#[derive(Clone, Debug)]
pub struct SelectOutcome {
    /// New selected value to report to the change listener, if any.
    pub notification: Option<String>,
    /// Clicked value to report to the raw-click listener, if any.
    pub click: Option<String>,
}

/// The selected value and the notification that one `select` call yields: a
/// disabled descriptor changes nothing and notifies nobody; an enabled one
/// installs the clicked value and notifies exactly once.
pub open spec fn select_spec(selected: Seq<char>, value: Seq<char>, disabled: bool) -> (
    Seq<char>,
    Option<Seq<char>>,
) {
    if disabled {
        (selected, None)
    } else {
        (value, Some(value))
    }
}

/// The value a listener slot reports, if it fires.
pub open spec fn reported(o: Option<String>) -> Option<Seq<char>> {
    match o {
        Some(s) => Some(s@),
        None => None,
    }
}

/// Renders the group: the container wears the orientation's layout
/// declaration followed by the group's own style, and every option is
/// rendered in input order with its activity derived from the selected
/// value, first match winning.
pub fn Group(props: &GroupProps) -> (r: RenderedGroup)
    ensures
        r.style@ == props.orientation.style_spec() + " "@ + props.style@,
        r.class@ == props.class@,
        r.options@.len() == props.children@.len(),
        forall|i: int|
            0 <= i < props.children@.len() ==> rendered_as(
                props.children@[i],
                active_at(props.children@, props.selected@, i),
                #[trigger] r.options@[i],
            ),
{
    let mut style = String::from_str(props.orientation.to_style());
    style.append(" ");
    style.append(props.style.as_str());
    let options = render(&props.children, &props.selected);
    RenderedGroup { style, class: props.class.clone(), options }
}

impl GroupProps {
    /// The sole mutation entry point, invoked when a user clicks the option
    /// described by `descriptor` to ask for `value`. A disabled descriptor
    /// makes the whole call a no-op: no state change and no notification.
    /// Otherwise the clicked value becomes the selected value and both
    /// listener slots are told that value, once per call, never coalesced.
    pub fn select(&mut self, value: &str, descriptor: &RadioProps) -> (r: SelectOutcome)
        ensures
            final(self).selected@ == select_spec(
                old(self).selected@,
                value@,
                descriptor.disabled,
            ).0,
            reported(r.notification) == select_spec(
                old(self).selected@,
                value@,
                descriptor.disabled,
            ).1,
            reported(r.click) == select_spec(old(self).selected@, value@, descriptor.disabled).1,
            descriptor.disabled ==> *final(self) == *old(self),
            final(self).orientation == old(self).orientation,
            final(self).style == old(self).style,
            final(self).class == old(self).class,
            final(self).children == old(self).children,
    {
        if descriptor.disabled {
            SelectOutcome { notification: None, click: None }
        } else {
            self.selected = value.to_owned();
            SelectOutcome { notification: Some(value.to_owned()), click: Some(value.to_owned()) }
        }
    }
}

impl Default for GroupProps {
    /// An empty group: nothing selected, vertical layout, no extra styling
    /// and no options.
    fn default() -> (r: Self)
        ensures
            r.selected@ == Seq::<char>::empty(),
            r.orientation == Orientation::Vertical,
            r.style@ == Seq::<char>::empty(),
            r.class@ == Seq::<char>::empty(),
            r.children@.len() == 0,
    {
        GroupProps {
            selected: String::new(),
            orientation: Orientation::Vertical,
            style: String::new(),
            class: String::new(),
            children: Vec::new(),
        }
    }
}

} // verus!
