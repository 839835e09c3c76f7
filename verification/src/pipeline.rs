use crate::disk::{ComponentSpec, Source};
use crate::error::Error;
use crate::tool::Location;
use vstd::prelude::*;

verus! {

impl<'a> ComponentSpec<'a> {
    /// A partition `partition_name` of `size` zero bytes.
    pub open spec fn blank_spec(size: u64, partition_name: &'a str) -> ComponentSpec<'a> {
        ComponentSpec { source: Source::Blank(size), partition_name }
    }

    /// A partition `partition_name` that holds the raw image `image`.
    pub open spec fn file_spec(image: &'a str, partition_name: &'a str) -> ComponentSpec<'a> {
        ComponentSpec { source: Source::File(image), partition_name }
    }

    /// A partition `partition_name` of `size` zero bytes.
    pub fn blank(size: u64, partition_name: &'a str) -> (component: ComponentSpec<'a>)
        ensures
            component == Self::blank_spec(size, partition_name),
    {
        ComponentSpec { source: Source::Blank(size), partition_name }
    }

    /// A partition `partition_name` that holds the raw image `image`.
    pub fn file(image: &'a str, partition_name: &'a str) -> (component: ComponentSpec<'a>)
        ensures
            component == Self::file_spec(image, partition_name),
    {
        ComponentSpec { source: Source::File(image), partition_name }
    }
}

/// The components of the system image, in the order of their partitions.
pub open spec fn system_components_spec() -> Seq<ComponentSpec<'static>> {
    seq![
        ComponentSpec::blank_spec(1048576, "misc"),
        ComponentSpec::file_spec("boot.img", "boot_a"),
        ComponentSpec::file_spec("boot.img", "boot_b"),
        ComponentSpec::file_spec("init_boot.img", "init_boot_a"),
        ComponentSpec::file_spec("init_boot.img", "init_boot_b"),
        ComponentSpec::file_spec("vendor_boot.img", "vendor_boot_a"),
        ComponentSpec::file_spec("vendor_boot.img", "vendor_boot_b"),
        ComponentSpec::file_spec("vbmeta.img", "vbmeta_a"),
        ComponentSpec::file_spec("vbmeta.img", "vbmeta_b"),
        ComponentSpec::file_spec("vbmeta_system.img", "vbmeta_system_a"),
        ComponentSpec::file_spec("vbmeta_system.img", "vbmeta_system_b"),
        ComponentSpec::file_spec("vbmeta_vendor_dlkm.img", "vbmeta_vendor_dlkm_a"),
        ComponentSpec::file_spec("vbmeta_vendor_dlkm.img", "vbmeta_vendor_dlkm_b"),
        ComponentSpec::file_spec("vbmeta_system_dlkm.img", "vbmeta_system_dlkm_a"),
        ComponentSpec::file_spec("vbmeta_system_dlkm.img", "vbmeta_system_dlkm_b"),
        ComponentSpec::file_spec("super.img", "super"),
        ComponentSpec::file_spec("userdata.img", "userdata"),
        ComponentSpec::blank_spec(67108864, "metadata"),
    ]
}

/// The components of the system image, in the order of their partitions.
pub fn system_components() -> (components: Vec<ComponentSpec<'static>>)
    ensures
        components@ == system_components_spec(),
{
    let mut components: Vec<ComponentSpec<'static>> = Vec::new();
    components.push(ComponentSpec::blank(1048576, "misc"));
    components.push(ComponentSpec::file("boot.img", "boot_a"));
    components.push(ComponentSpec::file("boot.img", "boot_b"));
    components.push(ComponentSpec::file("init_boot.img", "init_boot_a"));
    components.push(ComponentSpec::file("init_boot.img", "init_boot_b"));
    components.push(ComponentSpec::file("vendor_boot.img", "vendor_boot_a"));
    components.push(ComponentSpec::file("vendor_boot.img", "vendor_boot_b"));
    components.push(ComponentSpec::file("vbmeta.img", "vbmeta_a"));
    components.push(ComponentSpec::file("vbmeta.img", "vbmeta_b"));
    components.push(ComponentSpec::file("vbmeta_system.img", "vbmeta_system_a"));
    components.push(ComponentSpec::file("vbmeta_system.img", "vbmeta_system_b"));
    components.push(ComponentSpec::file("vbmeta_vendor_dlkm.img", "vbmeta_vendor_dlkm_a"));
    components.push(ComponentSpec::file("vbmeta_vendor_dlkm.img", "vbmeta_vendor_dlkm_b"));
    components.push(ComponentSpec::file("vbmeta_system_dlkm.img", "vbmeta_system_dlkm_a"));
    components.push(ComponentSpec::file("vbmeta_system_dlkm.img", "vbmeta_system_dlkm_b"));
    components.push(ComponentSpec::file("super.img", "super"));
    components.push(ComponentSpec::file("userdata.img", "userdata"));
    components.push(ComponentSpec::blank(67108864, "metadata"));
    assert(components@ =~= system_components_spec());
    components
}

/// The components of a properties image, in the order of their partitions.
pub open spec fn properties_components_spec() -> Seq<ComponentSpec<'static>> {
    seq![
        ComponentSpec::file_spec("uboot_env.img", "uboot_env"),
        ComponentSpec::file_spec("vbmeta.img", "vbmeta"),
        ComponentSpec::blank_spec(1048576, "frp"),
        ComponentSpec::file_spec("bootconfig", "bootconfig"),
    ]
}

/// The components of a properties image, in the order of their partitions.
pub fn properties_components() -> (components: Vec<ComponentSpec<'static>>)
    ensures
        components@ == properties_components_spec(),
{
    let mut components: Vec<ComponentSpec<'static>> = Vec::new();
    components.push(ComponentSpec::file("uboot_env.img", "uboot_env"));
    components.push(ComponentSpec::file("vbmeta.img", "vbmeta"));
    components.push(ComponentSpec::blank(1048576, "frp"));
    components.push(ComponentSpec::file("bootconfig", "bootconfig"));
    assert(components@ =~= properties_components_spec());
    components
}

/// The disk images that the pipeline produces.
#[derive(Debug, Clone, Copy, PartialEq, Eq, Structural)]
pub enum ImageKind {
    /// The large image, assembled from the source images.
    System,
    /// The small image of generated artifacts, for software rendering.
    Properties,
    /// The small image of generated artifacts, for accelerated rendering.
    PropertiesVirgl,
}

impl ImageKind {
    /// The components of an image of this kind.
    pub open spec fn components_spec(self) -> Seq<ComponentSpec<'static>> {
        match self {
            ImageKind::System => system_components_spec(),
            ImageKind::Properties | ImageKind::PropertiesVirgl => properties_components_spec(),
        }
    }

    /// Where the source image `image` of an image of this kind is found:
    /// the system image is made of files in the component directory, the
    /// properties images of files in the scratch directory.
    pub open spec fn locate_spec<'a>(self, image: &'a str) -> Location<'a> {
        match self {
            ImageKind::System => Location::Component(image),
            ImageKind::Properties | ImageKind::PropertiesVirgl => Location::Scratch(image),
        }
    }

    /// The components of an image of this kind, in the order of their
    /// partitions.
    pub fn components(&self) -> (components: Vec<ComponentSpec<'static>>)
        ensures
            components@ == self.components_spec(),
    {
        match self {
            ImageKind::System => system_components(),
            ImageKind::Properties | ImageKind::PropertiesVirgl => properties_components(),
        }
    }

    /// Where the source image `image` of an image of this kind is found.
    pub fn locate<'a>(&self, image: &'a str) -> (location: Location<'a>)
        ensures
            location == self.locate_spec(image),
    {
        match self {
            ImageKind::System => Location::Component(image),
            ImageKind::Properties | ImageKind::PropertiesVirgl => Location::Scratch(image),
        }
    }
}

/// The stages of the pipeline.
#[derive(Debug, Clone, Copy, PartialEq, Eq, Structural)]
pub enum Stage {
    /// The sparse source images are made raw.
    TransformSparse,
    /// The image of this kind is assembled.
    DiskImage(ImageKind),
    /// The partition table of the image of this kind, assembled in the
    /// stage before, is written into it.
    Partitions(ImageKind),
    /// The scratch directory is made.
    ScratchDirectory,
    /// The environment image is generated.
    Uboot,
    /// The verification metadata image is generated.
    Vbmeta,
    /// The boot configuration image is generated, for accelerated rendering
    /// where `virgl` is set.
    Bootconfig { virgl: bool },
}

/// The stages in the order in which they are run.
pub open spec fn stages() -> Seq<Stage> {
    seq![
        Stage::TransformSparse,
        Stage::DiskImage(ImageKind::System),
        Stage::Partitions(ImageKind::System),
        Stage::ScratchDirectory,
        Stage::Uboot,
        Stage::Vbmeta,
        Stage::Bootconfig { virgl: false },
        Stage::DiskImage(ImageKind::Properties),
        Stage::Partitions(ImageKind::Properties),
        Stage::Bootconfig { virgl: true },
        Stage::DiskImage(ImageKind::PropertiesVirgl),
        Stage::Partitions(ImageKind::PropertiesVirgl),
    ]
}

/// The position of `stage` in the pipeline. A boot configuration for
/// accelerated rendering that would go into the first properties image has
/// no place in it, nor one for software rendering in the second.
pub open spec fn stage_index(stage: Stage) -> int {
    match stage {
        Stage::TransformSparse => 0,
        Stage::DiskImage(ImageKind::System) => 1,
        Stage::Partitions(ImageKind::System) => 2,
        Stage::ScratchDirectory => 3,
        Stage::Uboot => 4,
        Stage::Vbmeta => 5,
        Stage::Bootconfig { virgl: false } => 6,
        Stage::DiskImage(ImageKind::Properties) => 7,
        Stage::Partitions(ImageKind::Properties) => 8,
        Stage::Bootconfig { virgl: true } => 9,
        Stage::DiskImage(ImageKind::PropertiesVirgl) => 10,
        Stage::Partitions(ImageKind::PropertiesVirgl) => 11,
    }
}

/// The stage that follows `stage`, where one does.
pub open spec fn next_stage(stage: Stage) -> Option<Stage> {
    if stage_index(stage) + 1 < stages().len() {
        Some(stages()[stage_index(stage) + 1])
    } else {
        None
    }
}

/// Every stage stands in the pipeline, at its index and nowhere else.
pub proof fn lemma_stage_index(stage: Stage)
    ensures
        0 <= stage_index(stage) < stages().len(),
        stages()[stage_index(stage)] == stage,
        forall|i: int| 0 <= i < stages().len() && stages()[i] == stage ==> i == stage_index(stage),
{
}

/// A failure of the pipeline: the stage that failed and why.
#[derive(Debug, Clone, PartialEq, Eq)]
pub struct PipelineError {
    pub stage: Stage,
    pub cause: Error,
}

/// How the pipeline goes on.
#[derive(Debug, Clone, PartialEq, Eq)]
pub enum Progress {
    /// This stage is run next.
    Run(Stage),
    /// Every stage went through.
    Finished,
    /// A stage failed, and none is run after it.
    Failed(PipelineError),
}

/// How the pipeline goes on when `stage` ended with `outcome`.
pub open spec fn create_disk_images_spec(stage: Stage, outcome: Result<(), Error>) -> Progress {
    match outcome {
        Err(cause) => Progress::Failed(PipelineError { stage, cause }),
        Ok(_) => match next_stage(stage) {
            Some(next) => Progress::Run(next),
            None => Progress::Finished,
        },
    }
}

impl Stage {
    /// The stage that the pipeline starts with.
    pub fn first() -> (stage: Stage)
        ensures
            stage == stages()[0],
    {
        Stage::TransformSparse
    }
}

/// Decides how the pipeline goes on when `stage` ended with `outcome`. The
/// stages are run in the order of [`stages`]: the sparse images are made
/// raw, the system image is assembled and partitioned, the three artifacts
/// are generated, the properties image is assembled and partitioned, the
/// boot configuration is generated again for accelerated rendering, and the
/// second properties image is assembled and partitioned. A stage that fails
/// ends the pipeline with its failure.
pub fn create_disk_images(stage: Stage, outcome: Result<(), Error>) -> (progress: Progress)
    ensures
        progress == create_disk_images_spec(stage, outcome),
{
    match outcome {
        Err(cause) => Progress::Failed(PipelineError { stage, cause }),
        Ok(_) => {
            let next = match stage {
                Stage::TransformSparse => Some(Stage::DiskImage(ImageKind::System)),
                Stage::DiskImage(kind) => Some(Stage::Partitions(kind)),
                Stage::Partitions(ImageKind::System) => Some(Stage::ScratchDirectory),
                Stage::ScratchDirectory => Some(Stage::Uboot),
                Stage::Uboot => Some(Stage::Vbmeta),
                Stage::Vbmeta => Some(Stage::Bootconfig { virgl: false }),
                Stage::Bootconfig { virgl: false } => Some(Stage::DiskImage(ImageKind::Properties)),
                Stage::Partitions(ImageKind::Properties) => Some(Stage::Bootconfig { virgl: true }),
                Stage::Bootconfig { virgl: true } => Some(
                    Stage::DiskImage(ImageKind::PropertiesVirgl),
                ),
                Stage::Partitions(ImageKind::PropertiesVirgl) => None,
            };
            match next {
                Some(next) => Progress::Run(next),
                None => Progress::Finished,
            }
        },
    }
}

} // verus!
