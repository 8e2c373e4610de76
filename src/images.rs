//! Images staged in files for the terminal, and the directives that transmit,
//! animate and place them.

use vstd::prelude::*;
use crate::graphics::{
    Clear, Directive, escape_chars, transmit_fields, first_frame_fields, append_fields,
    animate_fields, place_fields, delete_fields, base64_of, move_to_chars,
};

verus! {

/// Width and height in pixels.
pub trait Size {
    spec fn spec_size(&self) -> (u32, u32);

    fn size(&self) -> (r: (u32, u32))
        ensures
            r == self.spec_size(),
    ;
}

/// Why an image could not be staged.
#[derive(Clone, Debug)]
pub enum LoadError {
    /// The file's format could not be recognised.
    UnknownFormat,
    /// A frame could not be staged; the files of the frames that were staged
    /// are listed, to be removed.
    InvalidFrame(Vec<String>),
    /// The image has no frames.
    NoFrames,
}

/// A still image: one file of raw 32-bit pixels.
pub struct StaticImage {
    id: u32,
    width: u32,
    height: u32,
    path: String,
}

impl StaticImage {
    pub closed spec fn spec_id(&self) -> u32 {
        self.id
    }

    pub closed spec fn spec_path(&self) -> Seq<char> {
        self.path@
    }

    pub closed spec fn spec_dims(&self) -> (u32, u32) {
        (self.width, self.height)
    }

    pub fn id(&self) -> (r: u32)
        ensures
            r == self.spec_id(),
    {
        self.id
    }

    /// An image `id` of the given size whose pixels were staged at `path`.
    pub fn new(id: u32, width: u32, height: u32, path: String) -> (r: StaticImage)
        ensures
            r.spec_id() == id,
            r.spec_dims() == (width, height),
            r.spec_path() == path@,
    {
        StaticImage { id, width, height, path }
    }

    /// The transmit directive.
    pub open spec fn chars(&self) -> Seq<char> {
        escape_chars(
            transmit_fields(self.spec_id(), self.spec_dims().0, self.spec_dims().1),
            base64_of(self.spec_path()),
        )
    }

    /// Appends the transmit directive.
    pub fn write_ansi(&self, s: &mut String)
        ensures
            final(s)@ == old(s)@ + self.chars(),
    {
        let d = Directive::Transmit {
            id: self.id,
            width: self.width,
            height: self.height,
            path: self.path.clone(),
        };
        d.render_into(s);
    }

    /// The files this image owns.
    pub fn staged_files(&self) -> (r: Vec<String>)
        ensures
            r@.len() == 1,
            r@[0]@ == self.spec_path(),
    {
        vec![self.path.clone()]
    }
}

impl Size for StaticImage {
    open spec fn spec_size(&self) -> (u32, u32) {
        self.spec_dims()
    }

    fn size(&self) -> (r: (u32, u32)) {
        (self.width, self.height)
    }
}

/// The paths of the frames that were staged, in order.
pub open spec fn staged_paths(staged: Seq<Option<(String, u32)>>) -> Seq<Seq<char>>
    decreases staged.len(),
{
    if staged.len() == 0 {
        Seq::empty()
    } else {
        match staged.last() {
            Some(f) => staged_paths(staged.drop_last()).push(f.0@),
            None => staged_paths(staged.drop_last()),
        }
    }
}

/// An animation: one staged file and one delay in milliseconds per frame.
pub struct AnimatedImage {
    id: u32,
    width: u32,
    height: u32,
    frames: Vec<(String, u32)>,
}

/// The directives after the first: one append per frame.
pub open spec fn appended_chars(id: u32, width: u32, height: u32, frames: Seq<(Seq<char>, u32)>) -> Seq<char>
    decreases frames.len(),
{
    if frames.len() == 0 {
        Seq::empty()
    } else {
        appended_chars(id, width, height, frames.drop_last()) + escape_chars(
            append_fields(id, width, height, frames.last().1),
            base64_of(frames.last().0),
        )
    }
}

impl AnimatedImage {
    pub closed spec fn spec_id(&self) -> u32 {
        self.id
    }

    pub closed spec fn spec_dims(&self) -> (u32, u32) {
        (self.width, self.height)
    }

    pub fn id(&self) -> (r: u32)
        ensures
            r == self.spec_id(),
    {
        self.id
    }

    /// Each frame's file and delay.
    pub closed spec fn spec_frames(&self) -> Seq<(Seq<char>, u32)> {
        self.frames@.map_values(|f: (String, u32)| (f.0@, f.1))
    }

    pub closed spec fn wf(&self) -> bool {
        self.frames@.len() > 0
    }

    /// An animation `id` of the given size from the outcome of staging each
    /// frame, in order (`None` where a frame could not be staged).
    pub fn new(id: u32, width: u32, height: u32, staged: Vec<Option<(String, u32)>>) -> (r: Result<
        AnimatedImage,
        LoadError,
    >)
        ensures
            (exists|i: int| 0 <= i < staged@.len() && staged@[i] is None) ==> (r matches Err(
                LoadError::InvalidFrame(paths),
            ) && paths@.map_values(|p: String| p@) == staged_paths(staged@)),
            (forall|i: int| 0 <= i < staged@.len() ==> staged@[i] is Some) && staged@.len() == 0
                ==> r matches Err(LoadError::NoFrames),
            (forall|i: int| 0 <= i < staged@.len() ==> staged@[i] is Some) && staged@.len() > 0
                ==> (r matches Ok(a) && a.wf() && a.spec_id() == id && a.spec_dims() == (
                width,
                height,
            ) && a.spec_frames() == staged@.map_values(
                |f: Option<(String, u32)>| (f.unwrap().0@, f.unwrap().1),
            )),
    {
        let mut frames: Vec<(String, u32)> = Vec::new();
        let mut paths: Vec<String> = Vec::new();
        let mut failed = false;
        let mut i: usize = 0;
        while i < staged.len()
            invariant
                i <= staged@.len(),
                paths@.map_values(|p: String| p@) == staged_paths(staged@.take(i as int)),
                failed == exists|j: int| 0 <= j < i && staged@[j] is None,
                !failed ==> frames@.map_values(|f: (String, u32)| (f.0@, f.1))
                    == staged@.take(i as int).map_values(
                    |f: Option<(String, u32)>| (f.unwrap().0@, f.unwrap().1),
                ),
            decreases staged@.len() - i,
        {
            assert(staged@.take(i + 1).drop_last() =~= staged@.take(i as int));
            match &staged[i] {
                Some(f) => {
                    let p = f.0.clone();
                    let q = f.0.clone();
                    paths.push(p);
                    frames.push((q, f.1));
                    assert(paths@.map_values(|p: String| p@) =~= staged_paths(
                        staged@.take(i + 1),
                    ));
                    if !failed {
                        let ghost a = frames@.map_values(|f: (String, u32)| (f.0@, f.1));
                        let ghost b = staged@.take(i + 1).map_values(
                            |f: Option<(String, u32)>| (f.unwrap().0@, f.unwrap().1),
                        );
                        let ghost c = staged@.take(i as int).map_values(
                            |f: Option<(String, u32)>| (f.unwrap().0@, f.unwrap().1),
                        );
                        assert forall|k: int| 0 <= k < i implies a[k] == b[k] by {
                            assert(a[k] == c[k]);
                            assert(staged@.take(i + 1)[k] == staged@.take(i as int)[k]);
                        }
                        assert(a.len() == b.len());
                        assert(a[i as int] == b[i as int]);
                        assert(frames@.map_values(|f: (String, u32)| (f.0@, f.1))
                            =~= staged@.take(i + 1).map_values(
                            |f: Option<(String, u32)>| (f.unwrap().0@, f.unwrap().1),
                        ));
                    }
                },
                None => {
                    failed = true;
                    assert(paths@.map_values(|p: String| p@) =~= staged_paths(
                        staged@.take(i + 1),
                    ));
                },
            }
            i = i + 1;
        }
        assert(staged@.take(staged@.len() as int) =~= staged@);
        if failed {
            Err(LoadError::InvalidFrame(paths))
        } else if frames.len() == 0 {
            Err(LoadError::NoFrames)
        } else {
            Ok(AnimatedImage { id, width, height, frames })
        }
    }

    /// The directives: the first frame transmitted as a still image, its
    /// delay, one append per further frame, then the start of an endless
    /// loop.
    pub open spec fn chars(&self) -> Seq<char> {
        let fs = self.spec_frames();
        let (w, h) = self.spec_dims();
        escape_chars(transmit_fields(self.spec_id(), w, h), base64_of(fs[0].0)) + escape_chars(
            first_frame_fields(self.spec_id(), fs[0].1),
            Seq::empty(),
        ) + appended_chars(self.spec_id(), w, h, fs.drop_first()) + escape_chars(
            animate_fields(self.spec_id()),
            Seq::empty(),
        )
    }

    /// Appends the animation's directives.
    pub fn write_ansi(&self, s: &mut String)
        requires
            self.wf(),
        ensures
            final(s)@ == old(s)@ + self.chars(),
    {
        let ghost fs = self.spec_frames();
        let d = Directive::Transmit {
            id: self.id,
            width: self.width,
            height: self.height,
            path: self.frames[0].0.clone(),
        };
        d.render_into(s);
        let d = Directive::FirstFrame { id: self.id, delay: self.frames[0].1 };
        d.render_into(s);
        proof {
            assert(fs[0].0 == self.frames@[0].0@);
        }
        let ghost start = s@;
        let mut i: usize = 1;
        while i < self.frames.len()
            invariant
                self.wf(),
                fs == self.spec_frames(),
                1 <= i <= self.frames@.len(),
                s@ == start + appended_chars(
                    self.id,
                    self.width,
                    self.height,
                    fs.drop_first().take(i - 1),
                ),
            decreases self.frames@.len() - i,
        {
            let d = Directive::AppendFrame {
                id: self.id,
                width: self.width,
                height: self.height,
                delay: self.frames[i].1,
                path: self.frames[i].0.clone(),
            };
            d.render_into(s);
            assert(fs.drop_first().take(i as int).drop_last() =~= fs.drop_first().take(i - 1));
            assert(fs.drop_first().take(i as int).last() == fs[i as int]);
            i = i + 1;
        }
        assert(fs.drop_first().take(self.frames@.len() - 1) =~= fs.drop_first());
        let d = Directive::Animate { id: self.id };
        d.render_into(s);
        assert(final(s)@ =~= old(s)@ + self.chars());
    }

    /// The files this image owns.
    pub fn staged_files(&self) -> (r: Vec<String>)
        ensures
            r@.map_values(|p: String| p@) == self.spec_frames().map_values(
                |f: (Seq<char>, u32)| f.0,
            ),
    {
        let mut r: Vec<String> = Vec::new();
        let mut i: usize = 0;
        while i < self.frames.len()
            invariant
                i <= self.frames@.len(),
                r@.map_values(|p: String| p@) == self.spec_frames().take(i as int).map_values(
                    |f: (Seq<char>, u32)| f.0,
                ),
            decreases self.frames@.len() - i,
        {
            let p = self.frames[i].0.clone();
            r.push(p);
            proof {
                let a = r@.map_values(|p: String| p@);
                let b = self.spec_frames().take(i + 1).map_values(|f: (Seq<char>, u32)| f.0);
                let c = self.spec_frames().take(i as int).map_values(|f: (Seq<char>, u32)| f.0);
                assert(self.spec_frames().len() == self.frames@.len());
                assert(c.len() == i);
                assert(r@.len() == i + 1);
                assert(a.len() == i + 1);
                assert(b.len() == i + 1);
                assert forall|k: int| 0 <= k < i implies a[k] == b[k] by {
                    assert(a[k] == c[k]);
                    assert(b[k] == c[k]);
                }
                assert(a[i as int] == b[i as int]);
                assert(a =~= b);
            }
            i = i + 1;
        }
        assert(self.spec_frames().take(i as int) =~= self.spec_frames());
        r
    }
}

impl Size for AnimatedImage {
    open spec fn spec_size(&self) -> (u32, u32) {
        self.spec_dims()
    }

    fn size(&self) -> (r: (u32, u32)) {
        (self.width, self.height)
    }
}

/// An image ready to transmit: a still image or an animation.
pub enum Load {
    Static(StaticImage),
    Animated(AnimatedImage),
}

/// The image formats that decide how a file is decoded.
#[derive(Clone, Copy, Debug, PartialEq, Eq, Structural)]
pub enum Format {
    WebP,
    Gif,
    Other,
}

/// How a file is decoded: into one still image or into frames.
#[derive(Clone, Copy, Debug, PartialEq, Eq, Structural)]
pub enum Decoding {
    Still,
    Frames,
}

impl Load {
    pub open spec fn wf(&self) -> bool {
        match self {
            Load::Static(_) => true,
            Load::Animated(a) => a.wf(),
        }
    }

    pub open spec fn spec_id(&self) -> u32 {
        match self {
            Load::Static(s) => s.spec_id(),
            Load::Animated(a) => a.spec_id(),
        }
    }

    /// How a file of the guessed `format` is decoded; `animated` tells
    /// whether a WebP file holds an animation. Formats with more than one
    /// frame are decoded into frames, all others into one still image.
    pub fn decoding(format: Option<Format>, animated: bool) -> (r: Result<Decoding, LoadError>)
        ensures
            format is None <==> r matches Err(LoadError::UnknownFormat),
            format == Some(Format::Gif) ==> r == Ok::<Decoding, LoadError>(Decoding::Frames),
            format == Some(Format::WebP) ==> r == Ok::<Decoding, LoadError>(
                if animated { Decoding::Frames } else { Decoding::Still },
            ),
            format == Some(Format::Other) ==> r == Ok::<Decoding, LoadError>(Decoding::Still),
    {
        match format {
            None => Err(LoadError::UnknownFormat),
            Some(Format::WebP) => if animated {
                Ok(Decoding::Frames)
            } else {
                Ok(Decoding::Still)
            },
            Some(Format::Gif) => Ok(Decoding::Frames),
            Some(Format::Other) => Ok(Decoding::Still),
        }
    }

    pub open spec fn chars(&self) -> Seq<char> {
        match self {
            Load::Static(s) => s.chars(),
            Load::Animated(a) => a.chars(),
        }
    }

    /// Appends the directives that transmit the image.
    pub fn write_ansi(&self, s: &mut String)
        requires
            self.wf(),
        ensures
            final(s)@ == old(s)@ + self.chars(),
    {
        match self {
            Load::Static(i) => i.write_ansi(s),
            Load::Animated(a) => a.write_ansi(s),
        }
    }

    pub open spec fn spec_staged(&self) -> Seq<Seq<char>> {
        match self {
            Load::Static(s) => seq![s.spec_path()],
            Load::Animated(a) => a.spec_frames().map_values(|f: (Seq<char>, u32)| f.0),
        }
    }

    /// The files this image owns.
    pub fn staged_files(&self) -> (r: Vec<String>)
        ensures
            r@.map_values(|p: String| p@) == self.spec_staged(),
    {
        match self {
            Load::Static(i) => {
                let r = i.staged_files();
                assert(r@.map_values(|p: String| p@) =~= self.spec_staged());
                r
            },
            Load::Animated(a) => a.staged_files(),
        }
    }
}

impl Size for Load {
    open spec fn spec_size(&self) -> (u32, u32) {
        match self {
            Load::Static(s) => s.spec_size(),
            Load::Animated(a) => a.spec_size(),
        }
    }

    fn size(&self) -> (r: (u32, u32)) {
        match self {
            Load::Static(s) => s.size(),
            Load::Animated(a) => a.size(),
        }
    }
}

/// An emote found in a message: the image it shows, the placement that shows
/// it, and the z-layer that keeps overlapping emotes apart.
#[derive(Clone, Copy, Debug, PartialEq, Eq, Structural)]
pub struct EmoteData {
    pub id: u32,
    pub pid: u32,
    pub layer: u16,
}

/// How many cells wide an image `pixels` wide is shown, for cells
/// `cell_width` pixels wide: enough cells to hold it, at least one.
pub open spec fn columns_for(pixels: u32, cell_width: u16) -> u16 {
    let cw: int = if cell_width == 0 { 1 } else { cell_width as int };
    let n: int = (pixels as int + cw - 1) / cw;
    if n == 0 {
        1
    } else if n > u16::MAX {
        u16::MAX
    } else {
        n as u16
    }
}

pub fn emote_columns(pixels: u32, cell_width: u16) -> (r: u16)
    ensures
        r == columns_for(pixels, cell_width),
{
    let cw: u64 = if cell_width == 0 { 1 } else { cell_width as u64 };
    let n: u64 = (pixels as u64 + cw - 1) / cw;
    if n == 0 {
        1
    } else if n > u16::MAX as u64 {
        u16::MAX
    } else {
        n as u16
    }
}

/// The placement id for the cell at column `x`, row `y`: one placement per
/// cell, so a new emote at a cell replaces the one shown there. Never zero,
/// which the protocol reserves.
pub fn placement_id(x: u16, y: u16) -> (r: u32)
    ensures
        r as nat == if x == 0 && y == 0 { 1nat } else { y as nat * 65536 + x as nat },
{
    if x == 0 && y == 0 {
        1
    } else {
        y as u32 * 65536 + x as u32
    }
}

/// A placement of a loaded image at a cell of the screen.
#[derive(Clone, Copy, Debug, PartialEq, Eq, Structural)]
pub struct Display {
    pub x: u16,
    pub y: u16,
    pub id: u32,
    pub pid: u32,
    pub width: u16,
    pub offset: u16,
    pub layer: u16,
}

impl Display {
    pub fn new(origin: (u16, u16), emote: &EmoteData, width: u16, offset: u16) -> (r: Display)
        ensures
            r == (Display {
                x: origin.0,
                y: origin.1,
                id: emote.id,
                pid: emote.pid,
                width,
                offset,
                layer: emote.layer,
            }),
    {
        Display {
            x: origin.0,
            y: origin.1,
            id: emote.id,
            pid: emote.pid,
            width,
            offset,
            layer: emote.layer,
        }
    }

    /// The cursor move to the cell, then the placement directive.
    pub open spec fn chars(&self) -> Seq<char> {
        move_to_chars(self.x, self.y) + escape_chars(
            place_fields(self.id, self.pid, self.width, self.offset, self.layer),
            Seq::empty(),
        )
    }

    pub fn write_ansi(&self, s: &mut String)
        ensures
            final(s)@ == old(s)@ + self.chars(),
    {
        let d = Directive::Place {
            x: self.x,
            y: self.y,
            id: self.id,
            pid: self.pid,
            columns: self.width,
            offset: self.offset,
            layer: self.layer,
        };
        d.render_into(s);
    }
}

impl Clear {
    pub open spec fn chars(&self) -> Seq<char> {
        escape_chars(delete_fields(*self), Seq::empty())
    }

    pub fn write_ansi(&self, s: &mut String)
        ensures
            final(s)@ == old(s)@ + self.chars(),
    {
        let d = Directive::Delete(*self);
        d.render_into(s);
    }
}

} // verus!
