//! The closed style vocabularies of the widget: the layout orientation of a
//! group and the size and colour presets of a single option, each mapped to
//! one fixed inline style declaration.

use vstd::prelude::*;

verus! {

/// Layout direction of a radio group's container.
#[derive(Clone, Copy, PartialEq, Eq, Structural, Debug)]
pub enum Orientation {
    Horizontal,
    Vertical,
}

impl Orientation {
    /// The flexbox declaration this orientation renders as.
    pub open spec fn style_spec(self) -> Seq<char> {
        match self {
            Orientation::Horizontal => "display: flex; flex-direction: row; gap: 16px;"@,
            Orientation::Vertical => "display: flex; flex-direction: column; gap: 16px;"@,
        }
    }

    /// Maps the orientation to one of exactly two fixed layout declarations.
    pub fn to_style(&self) -> (r: &'static str)
        ensures
            r@ == self.style_spec(),
    {
        match self {
            Orientation::Horizontal => "display: flex; flex-direction: row; gap: 16px;",
            Orientation::Vertical => "display: flex; flex-direction: column; gap: 16px;",
        }
    }
}

impl Default for Orientation {
    /// A group constructed without an explicit orientation lays its options
    /// out vertically.
    fn default() -> (r: Self)
        ensures
            r == Orientation::Vertical,
    {
        Orientation::Vertical
    }
}

/// Size presets for a radio option, plus a caller-supplied escape hatch.
#[derive(Clone, PartialEq, Eq, Debug)]
pub enum Size {
    XSmall,
    Small,
    Medium,
    Large,
    XLarge,
    XXLarge,
    Custom(String),
}

impl Size {
    /// The padding declaration of each preset; a custom size is interpolated
    /// verbatim as both padding and width.
    pub open spec fn style_spec(self) -> Seq<char> {
        match self {
            Size::XSmall => "padding: 5px;"@,
            Size::Small => "padding: 7px;"@,
            Size::Medium => "padding: 10px;"@,
            Size::Large => "padding: 20px;"@,
            Size::XLarge => "padding: 25px;"@,
            Size::XXLarge => "padding: 30px;"@,
            Size::Custom(c) => "padding: "@ + c@ + ";  width: "@ + c@ + ";"@,
        }
    }

    /// The inline style declaration for this size. A custom size string is
    /// trusted and copied into the declaration without any escaping.
    pub fn to_style(&self) -> (r: String)
        ensures
            r@ == self.style_spec(),
    {
        match self {
            Size::XSmall => "padding: 5px;".to_owned(),
            Size::Small => "padding: 7px;".to_owned(),
            Size::Medium => "padding: 10px;".to_owned(),
            Size::Large => "padding: 20px;".to_owned(),
            Size::XLarge => "padding: 25px;".to_owned(),
            Size::XXLarge => "padding: 30px;".to_owned(),
            Size::Custom(c) => {
                let mut s = String::from_str("padding: ");
                s.append(c.as_str());
                s.append(";  width: ");
                s.append(c.as_str());
                s.append(";");
                proof {
                    assert(s@ =~= self.style_spec());
                }
                s
            },
        }
    }
}

impl Default for Size {
    /// Options default to the smallest preset.
    fn default() -> (r: Self)
        ensures
            r == Size::XSmall,
    {
        Size::XSmall
    }
}

/// Colour-scheme presets for a radio option, plus a caller-supplied escape
/// hatch. `Plain` contributes no styling at all.
#[derive(Clone, PartialEq, Eq, Debug)]
pub enum Type {
    Primary,
    Secondary,
    Success,
    Info,
    Warning,
    Danger,
    Plain,
    Custom(String),
}

impl Type {
    /// The background/colour declaration of each preset; a custom colour is
    /// interpolated verbatim.
    pub open spec fn style_spec(self) -> Seq<char> {
        match self {
            Type::Primary => "background-color: #007bff; color: white;"@,
            Type::Secondary => "background-color: #6c757d; color: white;"@,
            Type::Success => "background-color: #28a745; color: white;"@,
            Type::Info => "background-color: #17a2b8; color: white;"@,
            Type::Warning => "background-color: #ffc107; color: white;"@,
            Type::Danger => "background-color: #dc3545; color: white;"@,
            Type::Plain => Seq::<char>::empty(),
            Type::Custom(c) => "background-color: "@ + c@ + "; color: white;"@,
        }
    }

    /// The inline style declaration for this colour scheme. A custom colour
    /// string is trusted and copied into the declaration without escaping.
    pub fn to_style(&self) -> (r: String)
        ensures
            r@ == self.style_spec(),
    {
        match self {
            Type::Primary => "background-color: #007bff; color: white;".to_owned(),
            Type::Secondary => "background-color: #6c757d; color: white;".to_owned(),
            Type::Success => "background-color: #28a745; color: white;".to_owned(),
            Type::Info => "background-color: #17a2b8; color: white;".to_owned(),
            Type::Warning => "background-color: #ffc107; color: white;".to_owned(),
            Type::Danger => "background-color: #dc3545; color: white;".to_owned(),
            Type::Plain => String::new(),
            Type::Custom(c) => {
                let mut s = String::from_str("background-color: ");
                s.append(c.as_str());
                s.append("; color: white;");
                proof {
                    assert(s@ =~= self.style_spec());
                }
                s
            },
        }
    }
}

impl Default for Type {
    /// Options default to carrying no colour scheme.
    fn default() -> (r: Self)
        ensures
            r == Type::Plain,
    {
        Type::Plain
    }
}

} // verus!
