use vstd::prelude::*;

verus! {

/// The drawing tool that a pointer currently drives.
#[derive(Clone, Copy, Debug, PartialEq, Eq, Structural)]
pub enum Tool {
    Pen,
    Eraser,
}

/// The device that produced the latest pointer position.
#[derive(Clone, Copy, Debug, PartialEq, Eq, Structural)]
pub enum PointerSource {
    Mouse,
    Tablet,
}

impl Default for Tool {
    /// The pen is selected until a pointer says otherwise.
    fn default() -> (t: Tool)
        ensures
            t == Tool::Pen,
    {
        Tool::Pen
    }
}

impl Default for PointerSource {
    /// The mouse is assumed until a tablet reports.
    fn default() -> (s: PointerSource)
        ensures
            s == PointerSource::Mouse,
    {
        PointerSource::Mouse
    }
}

impl Tool {

    /// The upper-case name shown in the heads-up display.
    pub fn label(self) -> (s: &'static str)
        ensures
            self == Tool::Pen ==> s@ == "PEN"@,
            self == Tool::Eraser ==> s@ == "ERASER"@,
    {
        match self {
            Tool::Pen => "PEN",
            Tool::Eraser => "ERASER",
        }
    }
}

impl PointerSource {
    /// The lower-case name shown in the heads-up display.
    pub fn label(self) -> (s: &'static str)
        ensures
            self == PointerSource::Mouse ==> s@ == "mouse"@,
            self == PointerSource::Tablet ==> s@ == "tablet"@,
    {
        match self {
            PointerSource::Mouse => "mouse",
            PointerSource::Tablet => "tablet",
        }
    }
}

} // verus!
