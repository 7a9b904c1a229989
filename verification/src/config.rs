use vstd::prelude::*;

verus! {

/// Where the working area sits on the screen, as configuration strings;
/// `LayoutVertical::from_str` and `LayoutHorizontal::from_str` interpret
/// them, falling back to the centered placement.
pub struct Layout {
    pub vertical: String,
    pub horizontal: String,
}

/// The program's configuration, injected by the surrounding process.
pub struct DooConfig {
    pub layout: Layout,
}

impl Default for DooConfig {
    /// The default placement: vertically centered ("middle" is not a
    /// recognised placement name and falls back to `Center`), horizontally
    /// centered.
    fn default() -> (c: DooConfig)
        ensures
            c.layout.vertical@ == "middle"@,
            c.layout.horizontal@ == "center"@,
    {
        DooConfig {
            layout: Layout { vertical: "middle".to_owned(), horizontal: "center".to_owned() },
        }
    }
}

} // verus!
