//! Per-frame vertex batching with an explicit begin/end protocol.
//!
//! A batch is `Idle` between frames and `Accumulating` between
//! `begin_frame` and `end_frame`. Primitives append triangle-list vertices;
//! `end_frame` checks the accumulated count against the capacity of the
//! upload buffer and hands back the range to draw. Surface resizes are
//! staged and take effect at the next `begin_frame`, so every vertex of one
//! frame is projected with the same surface size.
use vstd::prelude::*;

verus! {

/// Why a frame operation was refused.
#[derive(Debug, Clone, Copy, PartialEq, Eq, Structural)]
pub enum RenderError {
    /// More vertices were accumulated than the upload buffer holds.
    CapacityExceeded { count: usize, max_vertices: usize },
    /// A primitive or `end_frame` was issued outside `begin_frame`/`end_frame`.
    NotInFrame,
}

/// Mathematical model of a [`FrameBatch`].
pub struct BatchModel<V> {
    pub vertices: Seq<V>,
    pub max_vertices: nat,
    pub in_frame: bool,
    /// The surface size that the current (or last) frame projects with.
    pub size: (u32, u32),
    /// The surface size that the next frame will project with.
    pub pending: (u32, u32),
}

/// The six vertices of a rectangle: two triangles sharing the diagonal from
/// the top-left to the bottom-right corner, each wound counter-clockwise in
/// device coordinates (Y up).
pub open spec fn quad<V>(top_left: V, top_right: V, bottom_left: V, bottom_right: V) -> Seq<V> {
    seq![top_left, bottom_left, bottom_right, top_left, bottom_right, top_right]
}

/// The number of rim points of a circle of `segments` segments.
pub open spec fn rim_points(segments: nat) -> nat {
    if segments == 0 {
        0
    } else {
        segments + 1
    }
}

/// The number of rim points a circle of `segments` segments needs: one more
/// than the segments (the last closes the circle), and none for zero
/// segments.
pub fn circle_rim_len(segments: usize) -> (r: usize)
    requires
        segments < usize::MAX,
    ensures
        r == rim_points(segments as nat),
{
    if segments == 0 {
        0
    } else {
        segments + 1
    }
}

/// The number of fan segments spanned by `rim` (one fewer than its points).
pub open spec fn fan_segments<V>(rim: Seq<V>) -> nat {
    if rim.len() == 0 {
        0
    } else {
        (rim.len() - 1) as nat
    }
}

/// The first `n` triangles of a fan around `center`: triangle `i` is
/// `center, rim[i], rim[i + 1]`.
pub open spec fn fan_prefix<V>(center: V, rim: Seq<V>, n: nat) -> Seq<V> {
    Seq::new(
        3 * n,
        |j: int|
            if j % 3 == 0 {
                center
            } else if j % 3 == 1 {
                rim[j / 3]
            } else {
                rim[j / 3 + 1]
            },
    )
}

/// The whole triangle fan spanned by `rim` around `center`.
pub open spec fn fan<V>(center: V, rim: Seq<V>) -> Seq<V> {
    fan_prefix(center, rim, fan_segments(rim))
}

impl<V> BatchModel<V> {
    /// The model after a primitive that emits `emitted` was issued.
    pub open spec fn after_emit(self, emitted: Seq<V>) -> BatchModel<V> {
        if self.in_frame {
            BatchModel { vertices: self.vertices + emitted, ..self }
        } else {
            self
        }
    }

    /// The model after a resize notification.
    pub open spec fn after_resize(self, width: u32, height: u32) -> BatchModel<V> {
        if width == 0 || height == 0 {
            self
        } else {
            BatchModel { pending: (width, height), ..self }
        }
    }

    /// The model after `begin_frame`.
    pub open spec fn after_begin(self) -> BatchModel<V> {
        BatchModel { vertices: Seq::empty(), in_frame: true, size: self.pending, ..self }
    }

    /// The model after `end_frame`.
    pub open spec fn after_end(self) -> BatchModel<V> {
        BatchModel { in_frame: false, ..self }
    }

    /// What `end_frame` reports in this state.
    pub open spec fn end_result(self) -> Result<usize, RenderError> {
        if !self.in_frame {
            Err(RenderError::NotInFrame)
        } else if self.vertices.len() > self.max_vertices {
            Err(
                RenderError::CapacityExceeded {
                    count: self.vertices.len() as usize,
                    max_vertices: self.max_vertices as usize,
                },
            )
        } else {
            Ok(self.vertices.len() as usize)
        }
    }
}

/// Every primitive emits a fixed number of vertices: six for a rectangle,
/// three for a triangle, and three per segment for a circle whose rim holds
/// `rim_points(segments)` points.
pub proof fn lemma_primitive_vertex_counts<V>(a: V, b: V, c: V, d: V, rim: Seq<V>, segments: nat)
    requires
        rim.len() == rim_points(segments),
    ensures
        quad(a, b, c, d).len() == 6,
        seq![a, b, c].len() == 3,
        fan(a, rim).len() == 3 * segments,
{
}

/// A frame that accumulated more vertices than the buffer holds ends with
/// `CapacityExceeded` and yields no vertex range to upload or draw; the batch
/// is idle afterwards.
pub proof fn lemma_over_capacity_not_drawn<V>(m: BatchModel<V>)
    requires
        m.in_frame,
        m.vertices.len() > m.max_vertices,
    ensures
        m.end_result() == Err::<usize, RenderError>(
            RenderError::CapacityExceeded {
                count: m.vertices.len() as usize,
                max_vertices: m.max_vertices as usize,
            },
        ),
        !(m.end_result() is Ok),
        !m.after_end().in_frame,
{
}

/// A resize observed while a frame is accumulating leaves that frame's
/// projection size unchanged through any further primitives and the end of
/// the frame; the next `begin_frame` projects with the new size.
pub proof fn lemma_resize_applies_next_frame<V>(
    m: BatchModel<V>,
    width: u32,
    height: u32,
    emitted: Seq<V>,
)
    requires
        width > 0,
        height > 0,
    ensures
        m.after_resize(width, height).size == m.size,
        m.after_resize(width, height).after_emit(emitted).size == m.size,
        m.after_resize(width, height).after_emit(emitted).after_end().size == m.size,
        m.after_resize(width, height).after_emit(emitted).after_end().after_begin().size == (
            width,
            height,
        ),
{
}

/// The vertex accumulator of a renderer, generic over the vertex payload.
pub struct FrameBatch<V> {
    vertices: Vec<V>,
    max_vertices: usize,
    in_frame: bool,
    size: (u32, u32),
    pending: (u32, u32),
}

impl<V> View for FrameBatch<V> {
    type V = BatchModel<V>;

    closed spec fn view(&self) -> BatchModel<V> {
        BatchModel {
            vertices: self.vertices@,
            max_vertices: self.max_vertices as nat,
            in_frame: self.in_frame,
            size: self.size,
            pending: self.pending,
        }
    }
}

impl<V: Copy> FrameBatch<V> {
    /// An idle, empty batch for a surface of `width` x `height` pixels whose
    /// upload buffer holds `max_vertices` vertices.
    pub fn new(width: u32, height: u32, max_vertices: usize) -> (r: FrameBatch<V>)
        ensures
            r@.vertices == Seq::<V>::empty(),
            r@.max_vertices == max_vertices,
            !r@.in_frame,
            r@.size == (width, height),
            r@.pending == (width, height),
    {
        FrameBatch {
            vertices: Vec::new(),
            max_vertices,
            in_frame: false,
            size: (width, height),
            pending: (width, height),
        }
    }

    /// Starts a frame: drops the vertices of the previous one and adopts the
    /// latest surface size.
    pub fn begin_frame(&mut self)
        ensures
            final(self)@ == old(self)@.after_begin(),
    {
        self.vertices.clear();
        self.in_frame = true;
        self.size = self.pending;
    }

    /// Records a new surface size for the next frame; a size with a zero
    /// dimension is ignored.
    pub fn resize(&mut self, width: u32, height: u32)
        ensures
            final(self)@ == old(self)@.after_resize(width, height),
    {
        if width != 0 && height != 0 {
            self.pending = (width, height);
        }
    }

    /// Appends one triangle, in the given order.
    pub fn push_triangle(&mut self, a: V, b: V, c: V) -> (r: Result<(), RenderError>)
        ensures
            final(self)@ == old(self)@.after_emit(seq![a, b, c]),
            r == if old(self)@.in_frame {
                Ok::<(), RenderError>(())
            } else {
                Err(RenderError::NotInFrame)
            },
    {
        if !self.in_frame {
            return Err(RenderError::NotInFrame);
        }
        self.vertices.push(a);
        self.vertices.push(b);
        self.vertices.push(c);
        assert(self.vertices@ =~= old(self).vertices@ + seq![a, b, c]);
        Ok(())
    }

    /// Appends a rectangle as two triangles sharing the diagonal between the
    /// top-left and bottom-right corners.
    pub fn push_rectangle(
        &mut self,
        top_left: V,
        top_right: V,
        bottom_left: V,
        bottom_right: V,
    ) -> (r: Result<(), RenderError>)
        ensures
            final(self)@ == old(self)@.after_emit(
                quad(top_left, top_right, bottom_left, bottom_right),
            ),
            r == if old(self)@.in_frame {
                Ok::<(), RenderError>(())
            } else {
                Err(RenderError::NotInFrame)
            },
    {
        if !self.in_frame {
            return Err(RenderError::NotInFrame);
        }
        self.vertices.push(top_left);
        self.vertices.push(bottom_left);
        self.vertices.push(bottom_right);
        self.vertices.push(top_left);
        self.vertices.push(bottom_right);
        self.vertices.push(top_right);
        assert(self.vertices@ =~= old(self).vertices@ + quad(
            top_left,
            top_right,
            bottom_left,
            bottom_right,
        ));
        Ok(())
    }

    /// Appends a triangle fan around `center`: one triangle per consecutive
    /// pair of `rim` points, so `rim.len() - 1` triangles (none for a rim of
    /// fewer than two points).
    pub fn push_fan(&mut self, center: V, rim: &Vec<V>) -> (r: Result<(), RenderError>)
        ensures
            final(self)@ == old(self)@.after_emit(fan(center, rim@)),
            r == if old(self)@.in_frame {
                Ok::<(), RenderError>(())
            } else {
                Err(RenderError::NotInFrame)
            },
    {
        if !self.in_frame {
            return Err(RenderError::NotInFrame);
        }
        let ghost start = self.vertices@;
        let mut i: usize = 0;
        while i < rim.len() && i + 1 < rim.len()
            invariant
                i <= fan_segments(rim@),
                self@ == (BatchModel { vertices: self.vertices@, ..old(self)@ }),
                self.vertices@ == start + fan_prefix(center, rim@, i as nat),
            decreases rim@.len() - i,
        {
            let a = rim[i];
            let b = rim[i + 1];
            self.vertices.push(center);
            self.vertices.push(a);
            self.vertices.push(b);
            assert(fan_prefix(center, rim@, (i + 1) as nat) =~= fan_prefix(
                center,
                rim@,
                i as nat,
            ) + seq![center, a, b]);
            i = i + 1;
        }
        assert(self.vertices@ =~= start + fan(center, rim@));
        Ok(())
    }

    /// Ends the frame. Reports `NotInFrame` outside a frame; otherwise the
    /// frame is closed and either the number of vertices to upload and draw
    /// is returned, or `CapacityExceeded` when they do not fit the buffer,
    /// in which case nothing is to be uploaded or drawn.
    pub fn end_frame(&mut self) -> (r: Result<usize, RenderError>)
        ensures
            r == old(self)@.end_result(),
            final(self)@ == old(self)@.after_end(),
    {
        if !self.in_frame {
            return Err(RenderError::NotInFrame);
        }
        self.in_frame = false;
        let count = self.vertices.len();
        if count > self.max_vertices {
            Err(RenderError::CapacityExceeded { count, max_vertices: self.max_vertices })
        } else {
            Ok(count)
        }
    }

    /// The vertices accumulated so far in this (or the last) frame.
    pub fn vertices(&self) -> (r: &Vec<V>)
        ensures
            r@ == self@.vertices,
    {
        &self.vertices
    }

    pub fn vertex_count(&self) -> (r: usize)
        ensures
            r == self@.vertices.len(),
    {
        self.vertices.len()
    }

    pub fn max_vertices(&self) -> (r: usize)
        ensures
            r == self@.max_vertices,
    {
        self.max_vertices
    }

    pub fn in_frame(&self) -> (r: bool)
        ensures
            r == self@.in_frame,
    {
        self.in_frame
    }

    /// The surface size that primitives of the current frame are projected with.
    pub fn surface_size(&self) -> (r: (u32, u32))
        ensures
            r == self@.size,
    {
        self.size
    }
}

} // verus!
