//! Colors, text attributes and the style that combines them.

use vstd::prelude::*;

verus! {

/// A terminal color.
#[derive(Clone, Copy, Debug, PartialEq, Eq)]
pub enum Color {
    Reset,
    Black,
    DarkGrey,
    Red,
    DarkRed,
    Green,
    DarkGreen,
    Yellow,
    DarkYellow,
    Blue,
    DarkBlue,
    Magenta,
    DarkMagenta,
    Cyan,
    DarkCyan,
    White,
    Grey,
    Rgb { r: u8, g: u8, b: u8 },
    AnsiValue(u8),
}

/// A weight or decoration of text. Inline emphasis is rendered with these.
#[derive(Clone, Copy, Debug, PartialEq, Eq)]
pub enum Attribute {
    Bold,
    Dim,
    Italic,
    Underlined,
    Reverse,
    CrossedOut,
}

/// A set of attributes. Its view is the mathematical set it stands for.
#[derive(Clone, Copy, Debug, PartialEq, Eq)]
pub struct Attributes {
    pub bold: bool,
    pub dim: bool,
    pub italic: bool,
    pub underlined: bool,
    pub reverse: bool,
    pub crossed_out: bool,
}

impl View for Attributes {
    type V = Set<Attribute>;

    open spec fn view(&self) -> Set<Attribute> {
        Set::new(|attribute: Attribute| self.holds(attribute))
    }
}

impl Attributes {
    /// Whether `attribute` is in the set.
    pub open spec fn holds(self, attribute: Attribute) -> bool {
        match attribute {
            Attribute::Bold => self.bold,
            Attribute::Dim => self.dim,
            Attribute::Italic => self.italic,
            Attribute::Underlined => self.underlined,
            Attribute::Reverse => self.reverse,
            Attribute::CrossedOut => self.crossed_out,
        }
    }

    /// The set that holds no attribute.
    pub open spec fn empty() -> Attributes {
        Attributes {
            bold: false,
            dim: false,
            italic: false,
            underlined: false,
            reverse: false,
            crossed_out: false,
        }
    }

    /// The set with `attribute` added.
    pub open spec fn inserted(self, attribute: Attribute) -> Attributes {
        match attribute {
            Attribute::Bold => Attributes { bold: true, ..self },
            Attribute::Dim => Attributes { dim: true, ..self },
            Attribute::Italic => Attributes { italic: true, ..self },
            Attribute::Underlined => Attributes { underlined: true, ..self },
            Attribute::Reverse => Attributes { reverse: true, ..self },
            Attribute::CrossedOut => Attributes { crossed_out: true, ..self },
        }
    }

    /// The set with `attribute` taken out.
    pub open spec fn removed(self, attribute: Attribute) -> Attributes {
        match attribute {
            Attribute::Bold => Attributes { bold: false, ..self },
            Attribute::Dim => Attributes { dim: false, ..self },
            Attribute::Italic => Attributes { italic: false, ..self },
            Attribute::Underlined => Attributes { underlined: false, ..self },
            Attribute::Reverse => Attributes { reverse: false, ..self },
            Attribute::CrossedOut => Attributes { crossed_out: false, ..self },
        }
    }

    /// The set with the attributes of both `self` and `other`.
    pub open spec fn union(self, other: Attributes) -> Attributes {
        Attributes {
            bold: self.bold || other.bold,
            dim: self.dim || other.dim,
            italic: self.italic || other.italic,
            underlined: self.underlined || other.underlined,
            reverse: self.reverse || other.reverse,
            crossed_out: self.crossed_out || other.crossed_out,
        }
    }

    /// The empty set.
    pub fn new() -> (attributes: Attributes)
        ensures
            attributes == Attributes::empty(),
            attributes@ == Set::<Attribute>::empty(),
    {
        let attributes = Attributes {
            bold: false,
            dim: false,
            italic: false,
            underlined: false,
            reverse: false,
            crossed_out: false,
        };
        assert(attributes@ =~= Set::<Attribute>::empty());
        attributes
    }

    /// Whether `attribute` is in the set.
    pub fn has(&self, attribute: Attribute) -> (held: bool)
        ensures
            held == self@.contains(attribute),
    {
        match attribute {
            Attribute::Bold => self.bold,
            Attribute::Dim => self.dim,
            Attribute::Italic => self.italic,
            Attribute::Underlined => self.underlined,
            Attribute::Reverse => self.reverse,
            Attribute::CrossedOut => self.crossed_out,
        }
    }

    /// Whether the set holds no attribute.
    pub fn is_empty(&self) -> (empty: bool)
        ensures
            empty == (self@ == Set::<Attribute>::empty()),
    {
        let empty = !(self.bold || self.dim || self.italic || self.underlined || self.reverse
            || self.crossed_out);
        proof {
            if empty {
                assert(self@ =~= Set::<Attribute>::empty());
            } else {
                let witness = if self.bold {
                    Attribute::Bold
                } else if self.dim {
                    Attribute::Dim
                } else if self.italic {
                    Attribute::Italic
                } else if self.underlined {
                    Attribute::Underlined
                } else if self.reverse {
                    Attribute::Reverse
                } else {
                    Attribute::CrossedOut
                };
                assert(self@.contains(witness));
            }
        }
        empty
    }

    /// Puts `attribute` into the set. Setting one that is set changes nothing.
    pub fn set(&mut self, attribute: Attribute)
        ensures
            *final(self) == old(self).inserted(attribute),
            final(self)@ == old(self)@.insert(attribute),
    {
        match attribute {
            Attribute::Bold => self.bold = true,
            Attribute::Dim => self.dim = true,
            Attribute::Italic => self.italic = true,
            Attribute::Underlined => self.underlined = true,
            Attribute::Reverse => self.reverse = true,
            Attribute::CrossedOut => self.crossed_out = true,
        }
        assert(self@ =~= old(self)@.insert(attribute));
    }

    /// Takes `attribute` out of the set. Unsetting one that is not set changes
    /// nothing.
    pub fn unset(&mut self, attribute: Attribute)
        ensures
            *final(self) == old(self).removed(attribute),
            final(self)@ == old(self)@.remove(attribute),
    {
        match attribute {
            Attribute::Bold => self.bold = false,
            Attribute::Dim => self.dim = false,
            Attribute::Italic => self.italic = false,
            Attribute::Underlined => self.underlined = false,
            Attribute::Reverse => self.reverse = false,
            Attribute::CrossedOut => self.crossed_out = false,
        }
        assert(self@ =~= old(self)@.remove(attribute));
    }

    /// The set with the attributes of both `self` and `other`.
    pub fn merged(&self, other: &Attributes) -> (both: Attributes)
        ensures
            both == self.union(*other),
            both@ == self@.union(other@),
    {
        let both = Attributes {
            bold: self.bold || other.bold,
            dim: self.dim || other.dim,
            italic: self.italic || other.italic,
            underlined: self.underlined || other.underlined,
            reverse: self.reverse || other.reverse,
            crossed_out: self.crossed_out || other.crossed_out,
        };
        assert(both@ =~= self@.union(other@));
        both
    }

    /// Two sets of attributes are the same value exactly when they hold the
    /// same attributes.
    pub proof fn lemma_view_injective(self, other: Attributes)
        ensures
            (self@ == other@) <==> (self == other),
    {
        if self@ == other@ {
            assert(self@.contains(Attribute::Bold) == other@.contains(Attribute::Bold));
            assert(self@.contains(Attribute::Dim) == other@.contains(Attribute::Dim));
            assert(self@.contains(Attribute::Italic) == other@.contains(Attribute::Italic));
            assert(self@.contains(Attribute::Underlined) == other@.contains(Attribute::Underlined));
            assert(self@.contains(Attribute::Reverse) == other@.contains(Attribute::Reverse));
            assert(self@.contains(Attribute::CrossedOut) == other@.contains(
                Attribute::CrossedOut,
            ));
        }
    }
}

/// Colors and attributes of a piece of text.
#[derive(Clone, Copy, Debug, PartialEq, Eq)]
pub struct ContentStyle {
    pub foreground_color: Option<Color>,
    pub background_color: Option<Color>,
    pub attributes: Attributes,
}

impl ContentStyle {
    /// This style with `modifiers` laid over its own attributes.
    pub open spec fn layered(self, modifiers: Attributes) -> ContentStyle {
        ContentStyle {
            foreground_color: self.foreground_color,
            background_color: self.background_color,
            attributes: self.attributes.union(modifiers),
        }
    }

    /// The style without colors or attributes.
    pub open spec fn plain() -> ContentStyle {
        ContentStyle {
            foreground_color: None,
            background_color: None,
            attributes: Attributes::empty(),
        }
    }

    /// The style without colors or attributes.
    pub fn new() -> (style: ContentStyle)
        ensures
            style == ContentStyle::plain(),
    {
        ContentStyle {
            foreground_color: None,
            background_color: None,
            attributes: Attributes::new(),
        }
    }

    /// This style with `color` as its foreground.
    pub fn with(self, color: Color) -> (style: ContentStyle)
        ensures
            style == (ContentStyle { foreground_color: Some(color), ..self }),
    {
        ContentStyle { foreground_color: Some(color), ..self }
    }

    /// This style with `color` as its background.
    pub fn on(self, color: Color) -> (style: ContentStyle)
        ensures
            style == (ContentStyle { background_color: Some(color), ..self }),
    {
        ContentStyle { background_color: Some(color), ..self }
    }

    /// This style with `attribute` set.
    pub fn attribute(self, attribute: Attribute) -> (style: ContentStyle)
        ensures
            style == (ContentStyle { attributes: self.attributes.inserted(attribute), ..self }),
            style.attributes@ == self.attributes@.insert(attribute),
    {
        let mut attributes = self.attributes;
        attributes.set(attribute);
        ContentStyle { attributes, ..self }
    }

    /// This style with `modifiers` laid over its own attributes.
    pub fn layer(self, modifiers: &Attributes) -> (style: ContentStyle)
        ensures
            style == self.layered(*modifiers),
    {
        ContentStyle { attributes: self.attributes.merged(modifiers), ..self }
    }
}

} // verus!
