//! The canvas shared between the packet backend and the viewers.
//!
//! Draws and snapshots go through a reader-writer lock around the whole grid:
//! a snapshot never sees a pixel half written, and a compressor only ever reads
//! a private copy.

use std::sync::Arc;
use vstd::prelude::*;
use vstd::rwlock::{RwLock, RwLockPredicate};
use crate::canvas::{grid, png_encodable, png_fast, size_fits, Canvas};
use crate::settings::CanvasSettings;
use crate::utils::Color;

verus! {

/// What holds of the canvas in the lock: it keeps the dimensions it was made with.
pub struct CanvasPred {
    pub width: u32,
    pub height: u32,
}

impl RwLockPredicate<Canvas> for CanvasPred {
    open spec fn inv(self, c: Canvas) -> bool {
        &&& c.wf()
        &&& c.width() == self.width
        &&& c.height() == self.height
    }
}

/// Relies on `Arc`'s `Clone`: the new pointer shares the same lock.
#[verifier::external_body]
fn share_lock(a: &Arc<RwLock<Canvas, CanvasPred>>) -> (r: Arc<RwLock<Canvas, CanvasPred>>)
    ensures
        r == *a,
{
    Arc::clone(a)
}

/// A handle to the shared canvas; clones share one canvas.
pub struct SharedImageHandle {
    data: Arc<RwLock<Canvas, CanvasPred>>,
    width: u32,
    height: u32,
}

impl SharedImageHandle {
    pub closed spec fn wf(&self) -> bool {
        self.data.pred() == (CanvasPred { width: self.width, height: self.height })
    }

    /// The width and height of the shared canvas, which never change.
    pub closed spec fn dims(&self) -> (u32, u32) {
        (self.width, self.height)
    }

    pub fn new(data: Canvas) -> (h: SharedImageHandle)
        requires
            data.wf(),
        ensures
            h.wf(),
            h.dims() == (data.width(), data.height()),
    {
        let (width, height) = data.dimensions();
        let pred = Ghost(CanvasPred { width, height });
        SharedImageHandle { data: Arc::new(RwLock::new(data, pred)), width, height }
    }

    /// Another handle to the same canvas.
    pub fn share(&self) -> (h: SharedImageHandle)
        ensures
            h == *self,
    {
        SharedImageHandle { data: share_lock(&self.data), width: self.width, height: self.height }
    }

    /// Draws at `(x, y)` as `Canvas::put` does, under the write lock.
    pub fn put(&self, x: u32, y: u32, color: Color, big: bool)
        requires
            self.wf(),
    {
        let (mut canvas, handle) = self.data.acquire_write();
        canvas.put(x, y, color, big);
        handle.release_write(canvas);
    }

    pub fn get_dimensions(&self) -> (r: (u32, u32))
        ensures
            r == self.dims(),
    {
        (self.width, self.height)
    }

    /// A private copy of the whole canvas, taken under the read lock. It holds
    /// every draw that finished before the call began.
    pub fn snapshot(&self) -> (c: Canvas)
        requires
            self.wf(),
        ensures
            c.wf(),
            (c.width(), c.height()) == self.dims(),
    {
        let handle = self.data.acquire_read();
        let copy = handle.borrow().snapshot();
        handle.release_read();
        copy
    }

    /// The canvas as a PNG file, encoded from a snapshot after the lock is
    /// released: the frame shows one state of the whole grid, never a buffer
    /// that a draw is changing.
    pub fn encode_frame(&self) -> (r: Option<Vec<u8>>)
        requires
            self.wf(),
        ensures
            r matches Some(bytes) ==> exists|px: Map<(u32, u32), Seq<u8>>| #[trigger] png_fast(px, self.dims()) == bytes@ && px.dom() == grid(self.dims().0, self.dims().1),
            png_encodable(self.dims()) ==> r is Some,
    {
        let copy = self.snapshot();
        let r = copy.encode_png();
        proof {
            if r is Some {
                assert(png_fast(copy.pixels(), self.dims()) == r->Some_0@);
            }
        }
        r
    }
}

impl Clone for SharedImageHandle {
    fn clone(&self) -> Self {
        self.share()
    }
}

/// Why a canvas could not be set up.
#[derive(Debug, Clone, Copy, PartialEq, Eq, Structural)]
pub enum PlaceError {
    /// No file name is set to keep the canvas in.
    EmptyFilename,
    /// The stored image does not have the configured size.
    DimensionMismatch { found_width: u32, found_height: u32, expected: u32 },
}

/// The dimensions of a stored canvas, if there is one.
pub open spec fn stored_dims(stored: Option<Canvas>) -> Option<(u32, u32)> {
    match stored {
        Some(c) => Some((c.width(), c.height())),
        None => None,
    }
}

/// Whether a canvas of `size` × `size` can be kept in a file whose name has
/// `filename_len` characters, given the dimensions of what the file holds.
pub open spec fn open_outcome(filename_len: nat, size: u32, stored: Option<(u32, u32)>) -> Result<(), PlaceError> {
    if filename_len == 0 {
        Err(PlaceError::EmptyFilename)
    } else {
        match stored {
            Some(found) => if found != (size, size) {
                Err(PlaceError::DimensionMismatch { found_width: found.0, found_height: found.1, expected: size })
            } else {
                Ok(())
            },
            None => Ok(()),
        }
    }
}

/// A square canvas of a configured size fits in memory.
proof fn lemma_canvas_fits(size: u32)
    requires
        size <= 4096,
    ensures
        size_fits(size, size),
{
    assert(size as int * size as int * 4 <= 4096 * 4096 * 4) by (nonlinear_arith)
        requires
            size <= 4096,
    ;
}

/// The canvas of the service and the file it is kept in.
pub struct Place {
    pub image: SharedImageHandle,
    pub path: String,
}

impl Place {
    /// A canvas of the configured size in the background color, kept nowhere.
    pub fn new_memory(settings: &CanvasSettings) -> (r: Result<Place, PlaceError>)
        ensures
            r is Ok,
            r matches Ok(p) ==> p.image.wf() && p.path@.len() == 0,
            r matches Ok(p) ==> p.image.dims() == (settings.size.value() as u32, settings.size.value() as u32),
    {
        let size = settings.size.get() as u32;
        proof {
            lemma_canvas_fits(size);
        }
        let canvas = Canvas::new(size, size, settings.background_color);
        Ok(Place { image: SharedImageHandle::new(canvas), path: String::new() })
    }

    /// The canvas kept in the configured file: `stored` is the file's image when
    /// it exists, and `None` gives a blank canvas in the background color (which
    /// the caller then writes out).
    pub fn open(settings: &CanvasSettings, stored: Option<Canvas>) -> (r: Result<Place, PlaceError>)
        requires
            stored matches Some(c) ==> c.wf(),
        ensures
            r is Ok <==> open_outcome(settings.filename@.len(), settings.size.value() as u32, stored_dims(stored)) is Ok,
            r matches Err(e) ==> open_outcome(settings.filename@.len(), settings.size.value() as u32, stored_dims(stored)) == Err::<(), PlaceError>(e),
            r matches Ok(p) ==> p.path@ == settings.filename@,
            r matches Ok(p) ==> p.image.wf() && p.image.dims() == (settings.size.value() as u32, settings.size.value() as u32),
    {
        if settings.filename.unicode_len() == 0 {
            return Err(PlaceError::EmptyFilename);
        }
        let size = settings.size.get() as u32;
        proof {
            lemma_canvas_fits(size);
        }
        let canvas = match stored {
            Some(c) => {
                let (w, h) = c.dimensions();
                if w != size || h != size {
                    return Err(PlaceError::DimensionMismatch { found_width: w, found_height: h, expected: size });
                }
                c
            },
            None => Canvas::new(size, size, settings.background_color),
        };
        Ok(Place { image: SharedImageHandle::new(canvas), path: settings.filename.clone() })
    }
}

} // verus!
