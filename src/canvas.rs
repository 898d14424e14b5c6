use vstd::prelude::*;

use crate::images::Image;
use crate::mesh::Mesh;

verus! {

/// Something that produces a view-projection matrix of type `M`, such as a
/// camera. The recorder depends on this capability only.
pub trait CameraMatrix<M> {
    fn to_view_projection_matrix(&self) -> M;
}

/// A camera whose matrix never changes.
#[derive(Clone, Copy, Debug)]
pub struct FixedCamera<M> {
    pub matrix: M,
}

impl<M: Copy> CameraMatrix<M> for FixedCamera<M> {
    fn to_view_projection_matrix(&self) -> M {
        self.matrix
    }
}

/// How a shape is painted: a color and, optionally, an image to sample.
#[derive(Clone, Debug)]
pub struct DrawStyle<C> {
    pub color: C,
    pub image: Option<Image>,
}

impl<C> DrawStyle<C> {
    pub fn new(color: C) -> (r: Self)
        ensures
            r.color == color,
            r.image is None,
    {
        Self { color, image: None }
    }

    pub fn with_image(self, image: Image) -> (r: Self)
        ensures
            r.color == self.color,
            r.image == Some(image),
    {
        Self { color: self.color, image: Some(image) }
    }

    pub fn with_color(self, color: C) -> (r: Self)
        ensures
            r.color == color,
            r.image == self.image,
    {
        Self { color, image: self.image }
    }
}

/// One recorded draw, fully resolved: its camera matrix is the value the
/// camera had when the draw was recorded.
#[derive(Clone, Debug)]
pub enum DrawCommand<V, M, T, C> {
    DrawMesh2D { mesh: Mesh<V>, camera_matrix: M, transform: T, style: DrawStyle<C> },
}

impl<V, M, T, C> DrawCommand<V, M, T, C> {
    /// The identity of the image this draw samples, if any.
    pub open spec fn image_path(&self) -> Option<Seq<char>> {
        match self {
            DrawCommand::DrawMesh2D { style, .. } => match style.image {
                Some(img) => Some(img.path@),
                None => None,
            },
        }
    }

    /// The number of indices of the mesh this draw paints.
    pub open spec fn index_count(&self) -> nat {
        match self {
            DrawCommand::DrawMesh2D { mesh, .. } => mesh.indices@.len(),
        }
    }
}

/// Records one frame: an ordered list of draws and a background color. The
/// order of the draws is the order in which they are painted.
#[derive(Clone, Debug)]
pub struct Canvas<V, M, T, C> {
    draw_commands: Vec<DrawCommand<V, M, T, C>>,
    bg_color: C,
}

impl<V, M, T, C> View for Canvas<V, M, T, C> {
    type V = Seq<DrawCommand<V, M, T, C>>;

    closed spec fn view(&self) -> Seq<DrawCommand<V, M, T, C>> {
        self.draw_commands@
    }
}

impl<V, M, T, C> Canvas<V, M, T, C> {
    /// The background color of the frame.
    pub closed spec fn background(&self) -> C {
        self.bg_color
    }

    /// An empty frame with the given background.
    pub fn new(bg_color: C) -> (r: Self)
        ensures
            r@ == Seq::<DrawCommand<V, M, T, C>>::empty(),
            r.background() == bg_color,
    {
        Self { draw_commands: Vec::new(), bg_color }
    }

    /// Starts a new frame: drops every recorded draw and sets the background.
    pub fn clear(&mut self, bg_color: C)
        ensures
            final(self)@ == Seq::<DrawCommand<V, M, T, C>>::empty(),
            final(self).background() == bg_color,
    {
        self.draw_commands.clear();
        self.bg_color = bg_color;
    }

    /// Records a draw of `mesh` after the ones already recorded, with the
    /// camera's matrix as it is now. The command holds that matrix by value,
    /// whatever the camera does afterwards.
    pub fn draw_mesh<Cam: CameraMatrix<M>>(
        &mut self,
        camera: &Cam,
        transform: T,
        mesh: Mesh<V>,
        style: DrawStyle<C>,
    )
        ensures
            exists|m: M|
                final(self)@ == old(self)@.push(
                    DrawCommand::DrawMesh2D { mesh, camera_matrix: m, transform, style },
                ),
            final(self).background() == old(self).background(),
    {
        let camera_matrix = camera.to_view_projection_matrix();
        self.record(camera_matrix, transform, mesh, style);
    }

    /// Records a draw of `mesh` after the ones already recorded, with the
    /// given camera matrix.
    pub fn record(&mut self, camera_matrix: M, transform: T, mesh: Mesh<V>, style: DrawStyle<C>)
        ensures
            final(self)@ == old(self)@.push(
                DrawCommand::DrawMesh2D { mesh, camera_matrix, transform, style },
            ),
            final(self).background() == old(self).background(),
    {
        self.draw_commands.push(DrawCommand::DrawMesh2D { mesh, camera_matrix, transform, style });
    }

    /// The recorded draws, in the order they were recorded.
    pub fn to_frame(&self) -> (r: &[DrawCommand<V, M, T, C>])
        ensures
            r@ == self@,
    {
        self.draw_commands.as_slice()
    }

    /// The background color of the frame.
    pub fn bg_color(&self) -> (r: &C)
        ensures
            *r == self.background(),
    {
        &self.bg_color
    }
}

} // verus!
