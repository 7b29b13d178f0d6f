use vstd::prelude::*;

verus! {

/// How pieces are drawn: glyphs or letters.
#[derive(Clone, Copy, Debug, PartialEq, Eq, Structural)]
pub enum DisplayMode {
    DEFAULT,
    ASCII,
}

impl DisplayMode {
    /// The name under which the mode is stored in the configuration.
    pub fn to_string(&self) -> (r: String)
        ensures
            r@ == match *self {
                DisplayMode::DEFAULT => "DEFAULT"@,
                DisplayMode::ASCII => "ASCII"@,
            },
    {
        match self {
            DisplayMode::DEFAULT => String::from_str("DEFAULT"),
            DisplayMode::ASCII => String::from_str("ASCII"),
        }
    }
}

/// The full-screen views of the application.
#[derive(Clone, Copy, Debug, PartialEq, Eq, Structural)]
pub enum Pages {
    Home,
    Solo,
    Bot,
    Credit,
}

/// The overlays drawn above a page.
#[derive(Clone, Copy, Debug, PartialEq, Eq, Structural)]
pub enum Popups {
    ColorSelection,
    EnginePathError,
    Help,
}

} // verus!
