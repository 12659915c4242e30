use vstd::prelude::*;

verus! {

/// The layout of the pixels that are handed to a texture.
#[derive(Clone, Copy, Debug, PartialEq, Eq, Structural)]
pub enum ColorFormat {
    RGB,
    RGBA,
    /// 16 bit depth format
    D,
}

/// A decoded image: its dimensions, its pixel format and its pixel bytes.
pub struct PngData {
    pub width: u32,
    pub height: u32,
    pub data: Vec<u8>,
    pub format: ColorFormat,
}

/// What a [`PngData`] holds, with its pixel bytes as a sequence.
pub ghost struct PngDataView {
    pub width: u32,
    pub height: u32,
    pub data: Seq<u8>,
    pub format: ColorFormat,
}

impl View for PngData {
    type V = PngDataView;

    open spec fn view(&self) -> PngDataView {
        PngDataView { width: self.width, height: self.height, data: self.data@, format: self.format }
    }
}

} // verus!
