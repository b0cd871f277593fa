use vstd::prelude::*;

verus! {

/// Formatting properties.
#[derive(Debug, Copy, Clone, PartialEq, Eq, Hash, Structural)]
pub struct Formatting {
    /// Set the font style.
    pub font_style: Option<FontStyle>,
    /// Choose normal or small caps.
    pub font_variant: Option<FontVariant>,
    /// Set the font weight.
    pub font_weight: Option<FontWeight>,
    /// Choose underlining.
    pub text_decoration: Option<TextDecoration>,
    /// Choose vertical alignment.
    pub vertical_align: Option<VerticalAlign>,
}

impl Default for Formatting {
    /// No formatting property is set.
    fn default() -> (f: Formatting)
        ensures
            f.font_style is None,
            f.font_variant is None,
            f.font_weight is None,
            f.text_decoration is None,
            f.vertical_align is None,
    {
        Formatting {
            font_style: None,
            font_variant: None,
            font_weight: None,
            text_decoration: None,
            vertical_align: None,
        }
    }
}

/// Font style.
#[derive(Debug, Copy, Clone, PartialEq, Eq, Hash, Structural)]
pub enum FontStyle {
    /// Normal font style.
    Normal,
    /// Italic font style.
    Italic,
}

impl Default for FontStyle {
    fn default() -> (r: FontStyle)
        ensures
            r == FontStyle::Normal,
    {
        FontStyle::Normal
    }
}

/// Font variant.
#[derive(Debug, Copy, Clone, PartialEq, Eq, Hash, Structural)]
pub enum FontVariant {
    /// Normal font variant.
    Normal,
    /// Small caps font variant.
    SmallCaps,
}

impl Default for FontVariant {
    fn default() -> (r: FontVariant)
        ensures
            r == FontVariant::Normal,
    {
        FontVariant::Normal
    }
}

/// Font weight.
#[derive(Debug, Copy, Clone, PartialEq, Eq, Hash, Structural)]
pub enum FontWeight {
    /// Normal font weight.
    Normal,
    /// Bold font weight.
    Bold,
    /// Light font weight.
    Light,
}

impl Default for FontWeight {
    fn default() -> (r: FontWeight)
        ensures
            r == FontWeight::Normal,
    {
        FontWeight::Normal
    }
}

/// Text decoration.
#[derive(Debug, Copy, Clone, PartialEq, Eq, Hash, Structural)]
pub enum TextDecoration {
    /// No text decoration (CSL value `none`).
    NoDecoration,
    /// Underline text decoration.
    Underline,
}

impl Default for TextDecoration {
    fn default() -> (r: TextDecoration)
        ensures
            r == TextDecoration::NoDecoration,
    {
        TextDecoration::NoDecoration
    }
}

/// Vertical alignment.
#[derive(Debug, Copy, Clone, PartialEq, Eq, Hash, Structural)]
pub enum VerticalAlign {
    /// No vertical alignment (CSL value: the empty string).
    NoAlign,
    /// Align on the baseline.
    Baseline,
    /// Superscript vertical alignment.
    Sup,
    /// Subscript vertical alignment.
    Sub,
}

impl Default for VerticalAlign {
    fn default() -> (r: VerticalAlign)
        ensures
            r == VerticalAlign::NoAlign,
    {
        VerticalAlign::NoAlign
    }
}

/// Prefixes and suffixes.
#[derive(Debug, PartialEq, Eq, Hash)]
pub struct Affixes {
    /// The prefix.
    pub prefix: Option<String>,
    /// The suffix.
    pub suffix: Option<String>,
}

impl Default for Affixes {
    /// Neither prefix nor suffix.
    fn default() -> (a: Affixes)
        ensures
            a.prefix is None,
            a.suffix is None,
    {
        Affixes { prefix: None, suffix: None }
    }
}

/// On which layout level to display the citation.
#[derive(Debug, Copy, Clone, PartialEq, Eq, Hash, Structural)]
pub enum Display {
    /// Block stretching from margin to margin.
    Block,
    /// Put in the left margin.
    LeftMargin,
    /// Align on page after `LeftMargin`.
    RightInline,
    /// `Block` and indented.
    Indent,
}

/// How to format text.
#[derive(Debug, Copy, Clone, PartialEq, Eq, Hash, Structural)]
pub enum TextCase {
    /// lowecase.
    Lowercase,
    /// UPPERCASE.
    Uppercase,
    /// Capitalize the first word.
    CapitalizeFirst,
    /// Capitalize All Words.
    CapitalizeAll,
    /// Sentence case. *Deprecated*.
    SentenceCase,
    /// Title case. Only applies to English.
    TitleCase,
}

impl Clone for Affixes {
    fn clone(&self) -> (r: Self)
        ensures
            r == *self,
    {
        Affixes { prefix: self.prefix.clone(), suffix: self.suffix.clone() }
    }
}

} // verus!
