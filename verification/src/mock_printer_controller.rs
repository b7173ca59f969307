use vstd::prelude::*;

verus! {

/// A stand-in for a drone that plays a recorded video and heeds no command.
/// It holds where the video is found and how large its frames are.
pub struct MockPrinterController {
    filename: String,
    height: usize,
    width: usize,
}

impl MockPrinterController {
    /// Where the video is found.
    pub closed spec fn url(&self) -> Seq<char> {
        self.filename@
    }

    /// Height of the video in pixels.
    pub closed spec fn video_height(&self) -> usize {
        self.height
    }

    /// Width of the video in pixels.
    pub closed spec fn video_width(&self) -> usize {
        self.width
    }

    /// A controller for the video at `filename`, whose frames are `width`
    /// by `height` pixels.
    pub fn new(filename: &str, width: usize, height: usize) -> (r: MockPrinterController)
        ensures
            r.url() == filename@,
            r.video_width() == width,
            r.video_height() == height,
    {
        MockPrinterController { filename: filename.to_owned(), height, width }
    }

    /// Height of the video in pixels.
    pub fn get_video_height(&self) -> (r: usize)
        ensures
            r == self.video_height(),
    {
        self.height
    }

    /// Width of the video in pixels.
    pub fn get_video_width(&self) -> (r: usize)
        ensures
            r == self.video_width(),
    {
        self.width
    }

    /// Where the video is found, in a form that a video reader takes.
    pub fn get_opencv_url(&self) -> (r: String)
        ensures
            r@ == self.url(),
    {
        self.filename.clone()
    }
}

} // verus!
