//! What the system clipboard can hold, as the capture engine sees it.

use vstd::prelude::*;

verus! {

/// A bitmap as the clipboard hands it out: its size and its pixel bytes.
#[derive(Debug, PartialEq, Eq)]
pub struct ImageData {
    pub width: usize,
    pub height: usize,
    pub bytes: Vec<u8>,
}

/// The mathematical value of an [`ImageData`].
pub struct ImageModel {
    pub width: nat,
    pub height: nat,
    pub bytes: Seq<u8>,
}

impl View for ImageData {
    type V = ImageModel;

    open spec fn view(&self) -> ImageModel {
        ImageModel { width: self.width as nat, height: self.height as nat, bytes: self.bytes@ }
    }
}

impl Clone for ImageData {
    fn clone(&self) -> (r: Self)
        ensures
            r@ == self@,
    {
        let mut bytes: Vec<u8> = Vec::new();
        let mut i: usize = 0;
        while i < self.bytes.len()
            invariant
                i <= self.bytes.len(),
                bytes@ == self.bytes@.take(i as int),
            decreases self.bytes.len() - i,
        {
            bytes.push(self.bytes[i]);
            i += 1;
            assert(bytes@ =~= self.bytes@.take(i as int));
        }
        assert(bytes@ =~= self.bytes@);
        ImageData { width: self.width, height: self.height, bytes }
    }
}

/// The content of the clipboard at one moment: text, an image, or nothing
/// that the engine can read.
#[derive(Debug, PartialEq, Eq)]
pub enum ClipboardContent {
    Text(String),
    Image(ImageData),
    Empty,
}

/// The mathematical value of a [`ClipboardContent`].
pub enum ClipboardModel {
    Text(Seq<char>),
    Image(ImageModel),
    Empty,
}

impl View for ClipboardContent {
    type V = ClipboardModel;

    open spec fn view(&self) -> ClipboardModel {
        match self {
            ClipboardContent::Text(t) => ClipboardModel::Text(t@),
            ClipboardContent::Image(i) => ClipboardModel::Image(i@),
            ClipboardContent::Empty => ClipboardModel::Empty,
        }
    }
}

impl Clone for ClipboardContent {
    fn clone(&self) -> (r: Self)
        ensures
            r@ == self@,
    {
        match self {
            ClipboardContent::Text(t) => ClipboardContent::Text(t.clone()),
            ClipboardContent::Image(i) => ClipboardContent::Image(i.clone()),
            ClipboardContent::Empty => ClipboardContent::Empty,
        }
    }
}

/// What two reads of the clipboard, one for text and one for an image, say it
/// holds: text wins over an image, and with neither it counts as empty.
pub open spec fn classified(text: Option<Seq<char>>, image: Option<ImageModel>) -> ClipboardModel {
    match (text, image) {
        (Some(t), _) => ClipboardModel::Text(t),
        (None, Some(i)) => ClipboardModel::Image(i),
        (None, None) => ClipboardModel::Empty,
    }
}

/// The view of an optional text.
pub open spec fn text_view(text: Option<String>) -> Option<Seq<char>> {
    match text {
        Some(t) => Some(t@),
        None => None,
    }
}

/// The view of an optional image.
pub open spec fn image_view(image: Option<ImageData>) -> Option<ImageModel> {
    match image {
        Some(i) => Some(i@),
        None => None,
    }
}

/// Classifies the clipboard from the outcome of reading it as text and as an
/// image, where `None` stands for a read that gave nothing.
pub fn classify(text: Option<String>, image: Option<ImageData>) -> (r: ClipboardContent)
    ensures
        r@ == classified(text_view(text), image_view(image)),
{
    match text {
        Some(t) => ClipboardContent::Text(t),
        None => match image {
            Some(i) => ClipboardContent::Image(i),
            None => ClipboardContent::Empty,
        },
    }
}

} // verus!
