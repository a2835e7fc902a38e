//! The mesh renderer's state and the plan of one rendered frame.

use vstd::prelude::*;

verus! {

/// How the model turns, or the camera moves, as time passes.
#[derive(Clone, Copy, Debug, PartialEq, Eq, Structural)]
pub enum RotationMode {
    Static,
    AxisX,
    AxisY,
    AxisZ,
    Tumble,
    Orbit,
}

impl RotationMode {
    /// The mode's label.
    pub open spec fn label(self) -> Seq<char> {
        match self {
            RotationMode::Static => "Static"@,
            RotationMode::AxisX => "X Axis"@,
            RotationMode::AxisY => "Y Axis"@,
            RotationMode::AxisZ => "Z Axis"@,
            RotationMode::Tumble => "Tumble"@,
            RotationMode::Orbit => "Orbit"@,
        }
    }

    /// Every mode, in the order in which they are offered.
    pub open spec fn every() -> Seq<RotationMode> {
        seq![
            RotationMode::Static,
            RotationMode::AxisX,
            RotationMode::AxisY,
            RotationMode::AxisZ,
            RotationMode::Tumble,
            RotationMode::Orbit,
        ]
    }

    /// The mode's label.
    pub fn name(&self) -> (s: &'static str)
        ensures
            s@ == self.label(),
    {
        match self {
            RotationMode::Static => "Static",
            RotationMode::AxisX => "X Axis",
            RotationMode::AxisY => "Y Axis",
            RotationMode::AxisZ => "Z Axis",
            RotationMode::Tumble => "Tumble",
            RotationMode::Orbit => "Orbit",
        }
    }

    /// Every mode, in the order in which they are offered.
    pub fn all() -> (modes: &'static [RotationMode])
        ensures
            modes@ == RotationMode::every(),
    {
        &[
            RotationMode::Static,
            RotationMode::AxisX,
            RotationMode::AxisY,
            RotationMode::AxisZ,
            RotationMode::Tumble,
            RotationMode::Orbit,
        ]
    }

    /// What the mode does to the model and to the camera.
    pub open spec fn motion(self) -> Motion {
        match self {
            RotationMode::Static => Motion { spin: Spin::Still, camera: Camera::Fixed },
            RotationMode::AxisX => Motion { spin: Spin::AboutX, camera: Camera::Fixed },
            RotationMode::AxisY => Motion { spin: Spin::AboutY, camera: Camera::Fixed },
            RotationMode::AxisZ => Motion { spin: Spin::AboutZ, camera: Camera::Fixed },
            RotationMode::Tumble => Motion { spin: Spin::Tumble, camera: Camera::Fixed },
            RotationMode::Orbit => Motion { spin: Spin::Still, camera: Camera::Orbit },
        }
    }
}

impl Default for RotationMode {
    fn default() -> (mode: RotationMode)
        ensures
            mode == RotationMode::AxisY,
    {
        RotationMode::AxisY
    }
}

/// How a fragment's colour comes from its normal, the light and the vertex
/// colour.
#[derive(Clone, Copy, Debug, PartialEq, Eq, Structural)]
pub enum LightingMode {
    /// The vertex colour alone.
    Flat,
    /// Lambertian shading.
    Diffuse,
    /// Diffuse shading and a highlight.
    Specular,
    /// Diffuse shading in a few steps.
    Toon,
    /// A tint by height.
    Gradient,
    /// The normal shown as a colour.
    Normals,
}

impl LightingMode {
    /// The mode's label.
    pub open spec fn label(self) -> Seq<char> {
        match self {
            LightingMode::Flat => "Flat"@,
            LightingMode::Diffuse => "Diffuse"@,
            LightingMode::Specular => "Specular"@,
            LightingMode::Toon => "Toon"@,
            LightingMode::Gradient => "Gradient"@,
            LightingMode::Normals => "Normals"@,
        }
    }

    /// Every mode, in the order in which they are offered.
    pub open spec fn every() -> Seq<LightingMode> {
        seq![
            LightingMode::Flat,
            LightingMode::Diffuse,
            LightingMode::Specular,
            LightingMode::Toon,
            LightingMode::Gradient,
            LightingMode::Normals,
        ]
    }

    /// The number by which the shading stage knows the mode.
    pub open spec fn selector(self) -> u32 {
        match self {
            LightingMode::Flat => 0,
            LightingMode::Diffuse => 1,
            LightingMode::Specular => 2,
            LightingMode::Toon => 3,
            LightingMode::Gradient => 4,
            LightingMode::Normals => 5,
        }
    }

    /// The mode's label.
    pub fn name(&self) -> (s: &'static str)
        ensures
            s@ == self.label(),
    {
        match self {
            LightingMode::Flat => "Flat",
            LightingMode::Diffuse => "Diffuse",
            LightingMode::Specular => "Specular",
            LightingMode::Toon => "Toon",
            LightingMode::Gradient => "Gradient",
            LightingMode::Normals => "Normals",
        }
    }

    /// Every mode, in the order in which they are offered.
    pub fn all() -> (modes: &'static [LightingMode])
        ensures
            modes@ == LightingMode::every(),
    {
        &[
            LightingMode::Flat,
            LightingMode::Diffuse,
            LightingMode::Specular,
            LightingMode::Toon,
            LightingMode::Gradient,
            LightingMode::Normals,
        ]
    }

    /// The number by which the shading stage knows the mode.
    pub fn to_u32(self) -> (selector: u32)
        ensures
            selector == self.selector(),
    {
        match self {
            LightingMode::Flat => 0,
            LightingMode::Diffuse => 1,
            LightingMode::Specular => 2,
            LightingMode::Toon => 3,
            LightingMode::Gradient => 4,
            LightingMode::Normals => 5,
        }
    }
}

impl Default for LightingMode {
    fn default() -> (mode: LightingMode)
        ensures
            mode == LightingMode::Diffuse,
    {
        LightingMode::Diffuse
    }
}

/// The selector of a lighting mode is its place in the list of all modes,
/// so no two modes share one.
pub proof fn lemma_selector_is_position(mode: LightingMode)
    ensures
        0 <= mode.selector() < LightingMode::every().len(),
        LightingMode::every()[mode.selector() as int] == mode,
{
}

/// How the model is turned for a frame.
#[derive(Clone, Copy, Debug, PartialEq, Eq, Structural)]
pub enum Spin {
    /// Not at all.
    Still,
    /// About the X axis, by time times speed.
    AboutX,
    /// About the Y axis, by time times speed.
    AboutY,
    /// About the Z axis, by time times speed.
    AboutZ,
    /// About Y, then X, then Z, by time times speed weighted 0.7, 0.5 and
    /// 0.3.
    Tumble,
    /// By a given yaw about Y, then a given pitch about X.
    YawPitch,
}

/// Where the camera stands for a frame. It always looks at the origin.
#[derive(Clone, Copy, Debug, PartialEq, Eq, Structural)]
pub enum Camera {
    /// On the Z axis, four units from the origin.
    Fixed,
    /// On a circle of radius four at height one and a half, at the angle
    /// time times speed times one half.
    Orbit,
    /// On the Z axis, at a given distance from the origin.
    Zoom,
}

/// The model's turn and the camera's place for a frame.
#[derive(Clone, Copy, Debug, PartialEq, Eq, Structural)]
pub struct Motion {
    pub spin: Spin,
    pub camera: Camera,
}

/// What the colour target holds when the mesh pass begins.
#[derive(Clone, Copy, Debug, PartialEq, Eq, Structural)]
pub enum ColorLoad {
    /// The fixed dark clear colour.
    ClearDark,
    /// What the skybox pass left there.
    Keep,
}

/// The command sequence of one frame: an optional skybox pass without depth
/// test, then the mesh pass with depth test, which clears the depth target
/// and draws every index.
#[derive(Clone, Copy, Debug, PartialEq, Eq, Structural)]
pub struct FramePlan {
    /// The model's turn and the camera's place.
    pub motion: Motion,
    /// The lighting selector handed to the shading stage.
    pub lighting: u32,
    /// Whether a full-screen skybox pass comes first.
    pub skybox_pass: bool,
    /// How the mesh pass finds the colour target.
    pub color_load: ColorLoad,
    /// How many indices the mesh pass draws.
    pub index_count: u32,
}

/// How the bytes of a skybox image are laid out for upload: four bytes to a
/// pixel, row after row.
#[derive(Clone, Copy, Debug, PartialEq, Eq, Structural)]
pub struct SkyboxUpload {
    pub width: u32,
    pub height: u32,
    pub bytes_per_row: u32,
    pub rows_per_image: u32,
}

/// Why a skybox was not attached.
#[derive(Clone, Copy, Debug, PartialEq, Eq, Structural)]
pub enum SkyboxError {
    /// The image could not be decoded.
    Undecodable,
    /// A row of the image has more bytes than an upload can describe.
    TooWide,
}

/// What the mesh renderer has been told, as contracts see it.
pub struct GpuState {
    pub width: u32,
    pub height: u32,
    pub index_count: u32,
    pub skybox: bool,
    pub name: Seq<char>,
}

/// The number of indices of the cube that is drawn until a mesh is loaded.
pub const CUBE_INDEX_COUNT: u32 = 36;

/// The state of the off-screen mesh renderer: the size of its colour and
/// depth images, how much geometry it draws, and whether a skybox is
/// attached.
#[derive(Debug)]
pub struct HeadlessGpu {
    width: u32,
    height: u32,
    num_indices: u32,
    gpu_name: String,
    skybox: bool,
}

impl View for HeadlessGpu {
    type V = GpuState;

    closed spec fn view(&self) -> GpuState {
        GpuState {
            width: self.width,
            height: self.height,
            index_count: self.num_indices,
            skybox: self.skybox,
            name: self.gpu_name@,
        }
    }
}

/// The frame that a renderer in the given state records.
pub open spec fn frame_plan(state: GpuState, motion: Motion, lighting: LightingMode) -> FramePlan {
    FramePlan {
        motion,
        lighting: lighting.selector(),
        skybox_pass: state.skybox,
        color_load: if state.skybox {
            ColorLoad::Keep
        } else {
            ColorLoad::ClearDark
        },
        index_count: state.index_count,
    }
}

/// What a request to attach a skybox comes to, given the size of the
/// decoded image, if decoding succeeded.
pub open spec fn skybox_outcome(decoded: Option<(u32, u32)>) -> Result<SkyboxUpload, SkyboxError> {
    match decoded {
        None => Err(SkyboxError::Undecodable),
        Some((width, height)) => if 4 * width > u32::MAX {
            Err(SkyboxError::TooWide)
        } else {
            Ok(
                SkyboxUpload {
                    width,
                    height,
                    bytes_per_row: (4 * width) as u32,
                    rows_per_image: height,
                },
            )
        },
    }
}

impl HeadlessGpu {
    /// A renderer on the named GPU that draws into images of the given
    /// size. It starts with the built-in cube and without a skybox.
    pub fn new(width: u32, height: u32, gpu_name: String) -> (gpu: Self)
        ensures
            gpu@ == (GpuState {
                width,
                height,
                index_count: CUBE_INDEX_COUNT,
                skybox: false,
                name: gpu_name@,
            }),
    {
        HeadlessGpu { width, height, num_indices: CUBE_INDEX_COUNT, gpu_name, skybox: false }
    }

    /// The GPU's name.
    pub fn gpu_name(&self) -> (name: &str)
        ensures
            name@ == self@.name,
    {
        self.gpu_name.as_str()
    }

    /// Sets the size of the colour and depth images. Returns whether they
    /// have to be allocated anew, which is when the size changes; with the
    /// size unchanged nothing at all changes.
    pub fn resize(&mut self, width: u32, height: u32) -> (reallocate: bool)
        ensures
            reallocate == (width != old(self)@.width || height != old(self)@.height),
            final(self)@ == (GpuState { width, height, ..old(self)@ }),
            !reallocate ==> final(self)@ == old(self)@,
    {
        if width == self.width && height == self.height {
            return false;
        }
        self.width = width;
        self.height = height;
        true
    }

    /// Replaces the mesh by one with so many indices.
    pub fn set_geometry(&mut self, index_count: u32)
        ensures
            final(self)@ == (GpuState { index_count, ..old(self)@ }),
    {
        self.num_indices = index_count;
    }

    /// Attaches a skybox, given the width and height of the decoded image,
    /// or `None` where the image could not be decoded. On success the
    /// skybox is attached and the layout of the upload is returned; on
    /// failure nothing changes, so a skybox attached before stays.
    pub fn set_skybox(&mut self, decoded: Option<(u32, u32)>) -> (outcome: Result<
        SkyboxUpload,
        SkyboxError,
    >)
        ensures
            outcome == skybox_outcome(decoded),
            outcome is Ok ==> final(self)@ == (GpuState { skybox: true, ..old(self)@ }),
            outcome is Err ==> final(self)@ == old(self)@,
    {
        match decoded {
            None => Err(SkyboxError::Undecodable),
            Some((width, height)) => {
                if width > u32::MAX / 4 {
                    Err(SkyboxError::TooWide)
                } else {
                    self.skybox = true;
                    Ok(
                        SkyboxUpload {
                            width,
                            height,
                            bytes_per_row: 4 * width,
                            rows_per_image: height,
                        },
                    )
                }
            },
        }
    }

    /// Detaches the skybox: frames are drawn on the clear colour again.
    pub fn clear_skybox(&mut self)
        ensures
            final(self)@ == (GpuState { skybox: false, ..old(self)@ }),
    {
        self.skybox = false;
    }

    /// The frame for a rotation mode: the model turns, or the camera
    /// orbits, as the mode says.
    pub fn render_with_rotation(&self, mode: RotationMode, lighting: LightingMode) -> (plan:
        FramePlan)
        ensures
            plan == frame_plan(self@, mode.motion(), lighting),
    {
        let motion = match mode {
            RotationMode::Static => Motion { spin: Spin::Still, camera: Camera::Fixed },
            RotationMode::AxisX => Motion { spin: Spin::AboutX, camera: Camera::Fixed },
            RotationMode::AxisY => Motion { spin: Spin::AboutY, camera: Camera::Fixed },
            RotationMode::AxisZ => Motion { spin: Spin::AboutZ, camera: Camera::Fixed },
            RotationMode::Tumble => Motion { spin: Spin::Tumble, camera: Camera::Fixed },
            RotationMode::Orbit => Motion { spin: Spin::Still, camera: Camera::Orbit },
        };
        self.plan(motion, lighting)
    }

    /// The frame under manual control: the model is turned by yaw, then
    /// pitch, and the camera stands at the zoom distance.
    pub fn render_manual(&self, lighting: LightingMode) -> (plan: FramePlan)
        ensures
            plan == frame_plan(
                self@,
                Motion { spin: Spin::YawPitch, camera: Camera::Zoom },
                lighting,
            ),
    {
        self.plan(Motion { spin: Spin::YawPitch, camera: Camera::Zoom }, lighting)
    }

    fn plan(&self, motion: Motion, lighting: LightingMode) -> (plan: FramePlan)
        ensures
            plan == frame_plan(self@, motion, lighting),
    {
        FramePlan {
            motion,
            lighting: lighting.to_u32(),
            skybox_pass: self.skybox,
            color_load: if self.skybox {
                ColorLoad::Keep
            } else {
                ColorLoad::ClearDark
            },
            index_count: self.num_indices,
        }
    }

    /// The size of the colour and depth images in pixels.
    pub fn render_size(&self) -> (size: (u32, u32))
        ensures
            size == (self@.width, self@.height),
    {
        (self.width, self.height)
    }
}

/// A frame has a skybox pass exactly when a skybox is attached, and exactly
/// then the mesh pass keeps the colour target instead of clearing it.
pub proof fn lemma_skybox_decides_background(
    state: GpuState,
    motion: Motion,
    lighting: LightingMode,
)
    ensures
        frame_plan(state, motion, lighting).skybox_pass == state.skybox,
        frame_plan(state, motion, lighting).color_load == ColorLoad::Keep <==> state.skybox,
{
}

} // verus!
