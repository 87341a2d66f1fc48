//! Highlight styles and the table that resolves a style id.

use std::collections::HashMap;
use vstd::prelude::*;

verus! {

/// The colours of a style, each as 0xRRGGBB; `None` where the style
/// leaves the colour to the default.
#[derive(Clone, Copy, Debug, PartialEq, Eq, Structural)]
pub struct Colors {
    pub foreground: Option<u32>,
    pub background: Option<u32>,
    pub special: Option<u32>,
}

/// The visual attributes of a run of text.
#[derive(Clone, Copy, Debug, PartialEq, Eq, Structural)]
pub struct Style {
    pub colors: Colors,
    pub reverse: bool,
    pub italic: bool,
    pub bold: bool,
    pub strikethrough: bool,
    pub underline: bool,
    pub undercurl: bool,
    pub blend: u8,
}

/// The style that has the given colours and no decoration.
pub open spec fn plain(colors: Colors) -> Style {
    Style {
        colors,
        reverse: false,
        italic: false,
        bold: false,
        strikethrough: false,
        underline: false,
        undercurl: false,
        blend: 0,
    }
}

/// Colours that are all left to the default.
pub open spec fn no_colors() -> Colors {
    Colors { foreground: None, background: None, special: None }
}

impl Style {
    /// The style that has the given colours and no decoration.
    pub fn new(colors: Colors) -> (style: Style)
        ensures
            style == plain(colors),
    {
        Style {
            colors,
            reverse: false,
            italic: false,
            bold: false,
            strikethrough: false,
            underline: false,
            undercurl: false,
            blend: 0,
        }
    }
}

/// What a table of styles holds: the default style, and the styles that
/// were defined, by id.
pub struct StylesView {
    pub defaults: Style,
    pub defined: Map<u64, Style>,
}

/// The style that an id stands for: the one defined under it, or the
/// default style where the id is 0 or nothing was defined under it.
pub open spec fn resolved(styles: StylesView, id: u64) -> Style {
    if id != 0 && styles.defined.contains_key(id) {
        styles.defined[id]
    } else {
        styles.defaults
    }
}

/// The table of styles.
pub struct HighlightDefinitions {
    defaults: Style,
    styles: HashMap<u64, Style>,
}

impl View for HighlightDefinitions {
    type V = StylesView;

    closed spec fn view(&self) -> StylesView {
        StylesView { defaults: self.defaults, defined: self.styles@ }
    }
}

impl HighlightDefinitions {
    /// A table in which nothing is defined and the default style is plain,
    /// with no colour of its own.
    pub fn new() -> (table: HighlightDefinitions)
        ensures
            table@ == (StylesView { defaults: plain(no_colors()), defined: Map::empty() }),
    {
        HighlightDefinitions {
            defaults: Style::new(Colors { foreground: None, background: None, special: None }),
            styles: HashMap::new(),
        }
    }

    /// Replaces the default style.
    pub fn set_defaults(&mut self, style: Style)
        ensures
            final(self)@ == (StylesView { defaults: style, ..old(self)@ }),
    {
        self.defaults = style;
    }

    /// Defines the style of an id, in place of what the id stood for.
    pub fn set(&mut self, id: u64, style: Style)
        ensures
            final(self)@ == (StylesView {
                defined: old(self)@.defined.insert(id, style),
                ..old(self)@
            }),
    {
        self.styles.insert(id, style);
    }

    /// The default style.
    pub fn defaults(&self) -> (style: Style)
        ensures
            style == self@.defaults,
    {
        self.defaults
    }

    /// The style that an id stands for.
    pub fn resolve(&self, id: u64) -> (style: Style)
        ensures
            style == resolved(self@, id),
    {
        if id == 0 {
            return self.defaults;
        }
        match self.styles.get(&id) {
            Some(style) => *style,
            None => self.defaults,
        }
    }
}

} // verus!
