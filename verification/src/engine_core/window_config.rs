use vstd::prelude::*;

verus! {

/// Title and size of the window that the engine opens.
pub struct WindowConfig {
    pub(crate) title: String,
    pub(crate) width: u32,
    pub(crate) height: u32,
}

impl WindowConfig {
    /// The title, as a sequence of characters.
    pub closed spec fn title_view(&self) -> Seq<char> {
        self.title@
    }

    /// The width in pixels.
    pub closed spec fn width_view(&self) -> u32 {
        self.width
    }

    /// The height in pixels.
    pub closed spec fn height_view(&self) -> u32 {
        self.height
    }

    /// The window's title.
    pub fn title(&self) -> (title: &String)
        ensures
            title@ == self.title_view(),
    {
        &self.title
    }

    /// The window's width in pixels.
    pub fn width(&self) -> (width: u32)
        ensures
            width == self.width_view(),
    {
        self.width
    }

    /// The window's height in pixels.
    pub fn height(&self) -> (height: u32)
        ensures
            height == self.height_view(),
    {
        self.height
    }
}

/// Builds a window configuration from a title, a height and a width.
pub fn create_window_config(title: String, height: u32, width: u32) -> (config: WindowConfig)
    ensures
        config.title_view() == title@,
        config.height_view() == height,
        config.width_view() == width,
{
    WindowConfig { title, height, width }
}

} // verus!
