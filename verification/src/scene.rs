//! The scene: spheres, their materials, one light.
//!
//! The scene is built once and never edited. It is a function of the number
//! of spheres and of the frame's dimensions alone: the spheres stand on a
//! line, each further along the negative x axis than the one before, and
//! their materials run through a palette of five.

use vstd::prelude::*;

verus! {

/// A sphere.
#[derive(Clone, Copy, Debug, PartialEq, Eq)]
pub struct Sphere {
    pub center: [i64; 3],
    pub radius: i64,
}

/// How the surface of a sphere answers light. The fourth channel of each
/// colour is handed to the kernel as it is.
#[derive(Clone, Copy, Debug, PartialEq, Eq)]
pub struct Material {
    pub specular: [i64; 4],
    pub albedo: [i64; 4],
}

/// A light that shines from one direction. The fourth component is handed to
/// the kernel as it is.
#[derive(Clone, Copy, Debug, PartialEq, Eq)]
pub struct DirectionalLight {
    pub direction: [i64; 4],
}

/// The number of materials in the palette.
pub const PALETTE_LEN: u32 = 5;

/// The `k`-th material of the palette: red, green, blue, a dark blue with a
/// lighter albedo, and a violet. Past the end the palette stays violet.
pub open spec fn palette(k: int) -> Material {
    if k == 0 {
        Material { specular: [1000i64, 0i64, 0i64, 0i64], albedo: [1000i64, 0i64, 0i64, 0i64] }
    } else if k == 1 {
        Material { specular: [0i64, 1000i64, 0i64, 0i64], albedo: [0i64, 1000i64, 0i64, 0i64] }
    } else if k == 2 {
        Material { specular: [0i64, 0i64, 1000i64, 0i64], albedo: [0i64, 0i64, 1000i64, 0i64] }
    } else if k == 3 {
        Material { specular: [0i64, 0i64, 400i64, 0i64], albedo: [0i64, 0i64, 800i64, 0i64] }
    } else {
        Material { specular: [400i64, 0i64, 400i64, 0i64], albedo: [600i64, 0i64, 600i64, 0i64] }
    }
}

/// The `i`-th sphere: half a unit in radius, centred at `y = -1` and
/// `z = -1`. The first stands at `x = 0`, the `i`-th after it at
/// `x = -1 - 1.5 * i`.
pub open spec fn sphere_at(i: int) -> Sphere {
    Sphere { center: [sphere_x(i), -1000i64, -1000i64], radius: 500 }
}

/// The x coordinate of the `i`-th sphere.
pub open spec fn sphere_x(i: int) -> i64 {
    if i == 0 {
        0
    } else {
        (-1000 - 1500 * i) as i64
    }
}

/// The material of the `i`-th sphere: the palette starts again after its
/// last entry.
pub open spec fn material_at(i: int) -> Material {
    palette(i % (PALETTE_LEN as int))
}

/// The light of every scene.
pub open spec fn sun() -> DirectionalLight {
    DirectionalLight { direction: [500i64, 1000i64, 0i64, 500i64] }
}

/// A scene as a mathematical value.
pub struct SceneView {
    pub spheres: Seq<Sphere>,
    pub materials: Seq<Material>,
    pub sun: DirectionalLight,
    pub width: u32,
    pub height: u32,
}

impl SceneView {
    /// Every sphere has its material.
    pub open spec fn wf(self) -> bool {
        self.spheres.len() == self.materials.len()
    }
}

/// The `j`-th word of the block that holds the spheres of `scene`: first,
/// for each sphere, its centre and its radius; then, for each sphere, its
/// specular colour; then, for each sphere, its albedo.
pub open spec fn sphere_block_word(scene: SceneView, j: int) -> i64 {
    let n = scene.spheres.len() as int;
    if j < 4 * n {
        if j % 4 == 3 {
            scene.spheres[j / 4].radius
        } else {
            scene.spheres[j / 4].center[j % 4]
        }
    } else if j < 8 * n {
        scene.materials[(j - 4 * n) / 4].specular[(j - 4 * n) % 4]
    } else {
        scene.materials[(j - 8 * n) / 4].albedo[(j - 8 * n) % 4]
    }
}

/// The block that holds the spheres of `scene`: twelve words for each sphere.
pub open spec fn sphere_block_of(scene: SceneView) -> Seq<i64> {
    Seq::new(12 * scene.spheres.len(), |j: int| sphere_block_word(scene, j))
}

/// The scene of `count` spheres for a frame of `width` by `height` pixels.
pub open spec fn scene_of(count: nat, width: u32, height: u32) -> SceneView {
    SceneView {
        spheres: Seq::new(count, |i: int| sphere_at(i)),
        materials: Seq::new(count, |i: int| material_at(i)),
        sun: sun(),
        width,
        height,
    }
}

/// The scene that the kernel renders.
#[derive(Debug)]
pub struct SceneDescriptor {
    spheres: Vec<Sphere>,
    materials: Vec<Material>,
    sun: DirectionalLight,
    width: u32,
    height: u32,
}

impl View for SceneDescriptor {
    type V = SceneView;

    closed spec fn view(&self) -> SceneView {
        SceneView {
            spheres: self.spheres@,
            materials: self.materials@,
            sun: self.sun,
            width: self.width,
            height: self.height,
        }
    }
}

/// The `k`-th material of the palette; the last one for every `k` past the end.
pub fn palette_entry(k: u32) -> (material: Material)
    ensures
        material == palette(k as int),
{
    if k == 0 {
        Material { specular: [1000, 0, 0, 0], albedo: [1000, 0, 0, 0] }
    } else if k == 1 {
        Material { specular: [0, 1000, 0, 0], albedo: [0, 1000, 0, 0] }
    } else if k == 2 {
        Material { specular: [0, 0, 1000, 0], albedo: [0, 0, 1000, 0] }
    } else if k == 3 {
        Material { specular: [0, 0, 400, 0], albedo: [0, 0, 800, 0] }
    } else {
        Material { specular: [400, 0, 400, 0], albedo: [600, 0, 600, 0] }
    }
}

/// Builds the scene of `sphere_count` spheres for a frame of `width` by
/// `height` pixels. The same arguments give the same scene, always.
pub fn build_scene(sphere_count: u32, width: u32, height: u32) -> (scene: SceneDescriptor)
    ensures
        scene@ == scene_of(sphere_count as nat, width, height),
        scene@.wf(),
{
    let mut spheres: Vec<Sphere> = Vec::new();
    let mut materials: Vec<Material> = Vec::new();
    let mut i: u32 = 0;
    while i < sphere_count
        invariant
            i <= sphere_count,
            spheres@.len() == i,
            materials@.len() == i,
            forall|j: int| 0 <= j < i ==> spheres@[j] == sphere_at(j),
            forall|j: int| 0 <= j < i ==> materials@[j] == material_at(j),
        decreases sphere_count - i,
    {
        let x: i64 = if i == 0 {
            0
        } else {
            -1000 - 1500 * (i as i64)
        };
        spheres.push(Sphere { center: [x, -1000, -1000], radius: 500 });
        materials.push(palette_entry(i % PALETTE_LEN));
        i += 1;
    }
    let scene = SceneDescriptor {
        spheres,
        materials,
        sun: DirectionalLight { direction: [500, 1000, 0, 500] },
        width,
        height,
    };
    proof {
        let model = scene_of(sphere_count as nat, width, height);
        assert(scene@.spheres =~= model.spheres);
        assert(scene@.materials =~= model.materials);
    }
    scene
}

/// The same arguments give the same scene: two scenes built for the same
/// number of spheres and the same frame have the same spheres, the same
/// materials, the same light and the same dimensions.
pub proof fn lemma_scene_is_determined(
    first: SceneView,
    second: SceneView,
    count: nat,
    width: u32,
    height: u32,
)
    requires
        first == scene_of(count, width, height),
        second == scene_of(count, width, height),
    ensures
        first == second,
        first.spheres.len() == count,
        first.materials.len() == count,
        forall|i: int| 0 <= i < count ==> first.spheres[i] == second.spheres[i],
        forall|i: int| 0 <= i < count ==> first.materials[i] == second.materials[i],
        first.sun == second.sun,
        first.width == second.width && first.height == second.height,
{
}

impl SceneDescriptor {
    #[verifier::type_invariant]
    spec fn inv(&self) -> bool {
        self.spheres@.len() == self.materials@.len()
    }

    /// The spheres, in order.
    pub fn spheres(&self) -> (spheres: &Vec<Sphere>)
        ensures
            spheres@ == self@.spheres,
    {
        &self.spheres
    }

    /// The materials; the `i`-th belongs to the `i`-th sphere.
    pub fn materials(&self) -> (materials: &Vec<Material>)
        ensures
            materials@ == self@.materials,
            materials@.len() == self@.spheres.len(),
    {
        proof {
            use_type_invariant(self);
        }
        &self.materials
    }

    /// The spheres and their materials as the kernel reads them, word by
    /// word.
    pub fn sphere_block(&self) -> (block: Vec<i64>)
        ensures
            block@ == sphere_block_of(self@),
    {
        proof {
            use_type_invariant(self);
        }
        let n = self.spheres.len();
        let mut block: Vec<i64> = Vec::new();
        let mut i: usize = 0;
        while i < n
            invariant
                i <= n,
                n == self.spheres@.len(),
                block@.len() == 4 * i,
                forall|j: int| 0 <= j < 4 * i ==> block@[j] == sphere_block_word(self@, j),
            decreases n - i,
        {
            let sphere = self.spheres[i];
            block.push(sphere.center[0]);
            block.push(sphere.center[1]);
            block.push(sphere.center[2]);
            block.push(sphere.radius);
            i += 1;
        }
        i = 0;
        while i < n
            invariant
                i <= n,
                n == self.spheres@.len(),
                n == self.materials@.len(),
                block@.len() == 4 * n + 4 * i,
                forall|j: int| 0 <= j < 4 * n + 4 * i ==> block@[j] == sphere_block_word(self@, j),
            decreases n - i,
        {
            let material = self.materials[i];
            block.push(material.specular[0]);
            block.push(material.specular[1]);
            block.push(material.specular[2]);
            block.push(material.specular[3]);
            i += 1;
        }
        i = 0;
        while i < n
            invariant
                i <= n,
                n == self.spheres@.len(),
                n == self.materials@.len(),
                block@.len() == 8 * n + 4 * i,
                forall|j: int| 0 <= j < 8 * n + 4 * i ==> block@[j] == sphere_block_word(self@, j),
            decreases n - i,
        {
            let material = self.materials[i];
            block.push(material.albedo[0]);
            block.push(material.albedo[1]);
            block.push(material.albedo[2]);
            block.push(material.albedo[3]);
            i += 1;
        }
        assert(block@ =~= sphere_block_of(self@));
        block
    }

    pub fn sun(&self) -> (sun: DirectionalLight)
        ensures
            sun == self@.sun,
    {
        self.sun
    }

    /// The frame's width in pixels, as the kernel is told it.
    pub fn width(&self) -> (width: u32)
        ensures
            width == self@.width,
    {
        self.width
    }

    /// The frame's height in pixels, as the kernel is told it.
    pub fn height(&self) -> (height: u32)
        ensures
            height == self@.height,
    {
        self.height
    }
}

} // verus!
