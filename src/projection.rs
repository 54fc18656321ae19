//! Pairs each projected point with the color its texture coordinate selects.
//!
//! The camera SDK projects every depth sample, invalid (zero) depth
//! included, into one vertex and one texture coordinate, in the depth grid's
//! row-major order. Every vertex is kept: a zero-depth sample stays in the
//! cloud as a degenerate point at the origin, and a point without texture
//! coverage stays in it, black.

use crate::texture::{get_texcolor, tex_coord_of, ColorImage, Rgb};
use vstd::prelude::*;

verus! {

/// The colored cloud for `vertices` and their raw texture coordinates:
/// pairs in input order, as many as both sequences provide.
pub open spec fn colored_points<V>(
    vertices: Seq<V>,
    coords: Seq<[i32; 2]>,
    texture: ColorImage,
) -> Seq<(V, Rgb)> {
    let n = if vertices.len() <= coords.len() { vertices.len() } else { coords.len() };
    Seq::new(n, |i: int| (vertices[i], texture.spec_sample(tex_coord_of(coords[i]))))
}

/// Colors each vertex by sampling `texture` at its texture coordinate.
pub fn process_point_cloud<V: Copy>(
    vertices: &Vec<V>,
    coords: &Vec<[i32; 2]>,
    texture: &ColorImage,
) -> (r: Vec<(V, Rgb)>)
    requires
        texture.wf(),
    ensures
        r@ == colored_points(vertices@, coords@, *texture),
{
    let n: usize = if vertices.len() <= coords.len() {
        vertices.len()
    } else {
        coords.len()
    };
    let mut points: Vec<(V, Rgb)> = Vec::with_capacity(n);
    let mut i: usize = 0;
    while i < n
        invariant
            i <= n,
            n == if vertices@.len() <= coords@.len() { vertices@.len() } else { coords@.len() },
            texture.wf(),
            points@ == colored_points(vertices@, coords@, *texture).subrange(0, i as int),
        decreases n - i,
    {
        let color = get_texcolor(texture, &coords[i]);
        points.push((vertices[i], color));
        i = i + 1;
        assert(points@ =~= colored_points(vertices@, coords@, *texture).subrange(0, i as int));
    }
    assert(points@ =~= colored_points(vertices@, coords@, *texture));
    points
}

/// Projecting the same frames twice yields the same colored points in the
/// same order: the result depends only on the vertices, the coordinates and
/// the color buffer's layout and bytes.
pub proof fn lemma_projection_reproducible<V>(
    vertices: Seq<V>,
    coords: Seq<[i32; 2]>,
    first: ColorImage,
    second: ColorImage,
)
    requires
        first.spec_width() == second.spec_width(),
        first.spec_height() == second.spec_height(),
        first.spec_bytes_per_pixel() == second.spec_bytes_per_pixel(),
        first.spec_stride() == second.spec_stride(),
        first.spec_data() == second.spec_data(),
    ensures
        colored_points(vertices, coords, first) == colored_points(vertices, coords, second),
{
    assert(colored_points(vertices, coords, first) =~= colored_points(vertices, coords, second));
}

} // verus!
