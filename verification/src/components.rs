use crate::tool::{Arg, Location, Step, StepView, Tool, ToolCall};
use vstd::prelude::*;
use vstd::string::StringExecFns;

verus! {

/// The processor architecture of the source images.
#[derive(Debug, Clone, Copy, PartialEq, Eq, PartialOrd, Ord, Structural)]
pub enum Arch {
    X86_64,
    Aarch64,
}

/// The first four bytes of an image in the sparse container format.
pub const SPARSE_MAGIC: [u8; 4] = [0x3A, 0xFF, 0x26, 0xED];

/// Tells from the first four bytes of an image whether it is sparse. An
/// image that is not sparse is raw.
pub fn is_sparse(header: &[u8; 4]) -> (sparse: bool)
    ensures
        sparse == (header@ == SPARSE_MAGIC@),
{
    let sparse = header[0] == SPARSE_MAGIC[0] && header[1] == SPARSE_MAGIC[1] && header[2]
        == SPARSE_MAGIC[2] && header[3] == SPARSE_MAGIC[3];
    proof {
        if sparse {
            assert(header@ =~= SPARSE_MAGIC@);
        }
    }
    sparse
}

/// The images that may arrive in the sparse container format.
#[derive(Debug, Clone, Copy, PartialEq, Eq, Structural)]
pub enum SparseImage {
    Super,
    Userdata,
}

/// The image's file, in the component directory.
pub open spec fn sparse_image_file(image: SparseImage) -> &'static str {
    match image {
        SparseImage::Super => "super.img",
        SparseImage::Userdata => "userdata.img",
    }
}

/// The file beside the image that receives its raw form.
pub open spec fn sparse_image_temporary(image: SparseImage) -> &'static str {
    match image {
        SparseImage::Super => "super.tmp",
        SparseImage::Userdata => "userdata.tmp",
    }
}

impl SparseImage {
    /// The image's file.
    pub fn file(&self) -> (file: Location<'static>)
        ensures
            file == Location::Component(sparse_image_file(*self)),
    {
        match self {
            SparseImage::Super => Location::Component("super.img"),
            SparseImage::Userdata => Location::Component("userdata.img"),
        }
    }

    /// The file beside the image that receives its raw form.
    pub fn temporary(&self) -> (file: Location<'static>)
        ensures
            file == Location::Component(sparse_image_temporary(*self)),
    {
        match self {
            SparseImage::Super => Location::Component("super.tmp"),
            SparseImage::Userdata => Location::Component("userdata.tmp"),
        }
    }
}

/// The steps that turn a sparse image into a raw one.
pub open spec fn simg2img_plan(image: SparseImage) -> Seq<StepView<'static>> {
    seq![
        StepView::Run {
            tool: Tool::Simg2img,
            args: seq![
                Arg::File(Location::Component(sparse_image_file(image))),
                Arg::File(Location::Component(sparse_image_temporary(image))),
            ],
        },
        StepView::Rename {
            from: Location::Component(sparse_image_temporary(image)),
            to: Location::Component(sparse_image_file(image)),
        },
    ]
}

/// Plans the conversion of a sparse image: the converter writes the raw form
/// to a file beside the image, which then takes the image's place.
pub fn call_simg2img(image: SparseImage) -> (plan: Vec<Step<'static>>)
    ensures
        plan.deep_view() == simg2img_plan(image),
{
    let mut args: Vec<Arg<'static>> = Vec::new();
    args.push(Arg::File(image.file()));
    args.push(Arg::File(image.temporary()));
    assert(args@ =~= seq![
        Arg::File(Location::Component(sparse_image_file(image))),
        Arg::File(Location::Component(sparse_image_temporary(image))),
    ]);
    let mut plan: Vec<Step<'static>> = Vec::new();
    plan.push(Step::Run(ToolCall { tool: Tool::Simg2img, args }));
    plan.push(Step::Rename { from: image.temporary(), to: image.file() });
    assert(plan.deep_view() =~= simg2img_plan(image));
    plan
}

/// Where the normalising of the sparse images stands: what is to be done
/// next.
#[derive(Debug, Clone, Copy, PartialEq, Eq, Structural)]
pub enum Normalizing {
    /// Read the first four bytes of the image and report them.
    Probe(SparseImage),
    /// Carry out the plan of [`call_simg2img`] for the image and report its
    /// completion.
    Convert(SparseImage),
    /// Every image is raw.
    Done,
}

/// What was observed in carrying out the last request.
#[derive(Debug, Clone, Copy, PartialEq, Eq)]
pub enum NormalizeEvent {
    /// The first four bytes of the probed image.
    Header([u8; 4]),
    /// The conversion went through.
    Converted,
}

/// What follows once `image` is known to be raw.
pub open spec fn after_image(image: SparseImage) -> Normalizing {
    match image {
        SparseImage::Super => Normalizing::Probe(SparseImage::Userdata),
        SparseImage::Userdata => Normalizing::Done,
    }
}

/// The next request: a probed image is converted where its header shows the
/// sparse format and passed over where it does not; after a conversion the
/// next image is probed. An event that does not answer the request leaves it
/// standing.
pub open spec fn transform_sparse_images_spec(at: Normalizing, event: NormalizeEvent) -> Normalizing {
    match (at, event) {
        (Normalizing::Probe(image), NormalizeEvent::Header(header)) => if header@
            == SPARSE_MAGIC@ {
            Normalizing::Convert(image)
        } else {
            after_image(image)
        },
        (Normalizing::Convert(image), NormalizeEvent::Converted) => after_image(image),
        _ => at,
    }
}

impl Normalizing {
    /// The first request: `super.img` is probed.
    pub fn start() -> (at: Normalizing)
        ensures
            at == Normalizing::Probe(SparseImage::Super),
    {
        Normalizing::Probe(SparseImage::Super)
    }
}

/// Advances the normalising of the sparse images, `super.img` and then
/// `userdata.img`, by one observation. Each image is probed, and converted
/// only where it is sparse.
pub fn transform_sparse_images(at: Normalizing, event: NormalizeEvent) -> (next: Normalizing)
    ensures
        next == transform_sparse_images_spec(at, event),
{
    match at {
        Normalizing::Probe(image) => match event {
            NormalizeEvent::Header(header) => {
                if is_sparse(&header) {
                    Normalizing::Convert(image)
                } else {
                    next_image(image)
                }
            },
            NormalizeEvent::Converted => at,
        },
        Normalizing::Convert(image) => match event {
            NormalizeEvent::Converted => next_image(image),
            NormalizeEvent::Header(_) => at,
        },
        Normalizing::Done => at,
    }
}

fn next_image(image: SparseImage) -> (next: Normalizing)
    ensures
        next == after_image(image),
{
    match image {
        SparseImage::Super => Normalizing::Probe(SparseImage::Userdata),
        SparseImage::Userdata => Normalizing::Done,
    }
}

/// Normalising leaves a raw image alone: where the header of the probed
/// image is not the sparse magic, no conversion is asked for, and the next
/// image is turned to.
pub proof fn lemma_raw_image_left_alone(image: SparseImage, header: [u8; 4])
    requires
        header@ != SPARSE_MAGIC@,
    ensures
        transform_sparse_images_spec(Normalizing::Probe(image), NormalizeEvent::Header(header))
            == after_image(image),
        !(after_image(image) is Convert),
{
}

/// Size in bytes of a partition that carries a hash footer.
pub const HASH_FOOTER_PARTITION_SIZE: u64 = 73728;

/// The algorithm every signature is made with.
pub const SIGNING_ALGORITHM: &'static str = "SHA256_RSA4096";

/// The private key every signature is made with.
pub const SIGNING_KEY: &'static str = "etc/cvd_avb_testkey.pem";

/// The public key by which chained partitions are identified.
pub const PUBLIC_KEY: &'static str = "etc/cvd.avbpubkey";

/// The arguments with which the signing tool appends a hash footer to
/// `image`, for the partition `partition_name`.
pub open spec fn hash_footer_args<'a>(image: Location<'a>, partition_name: &'a str) -> Seq<Arg<'a>> {
    seq![
        Arg::Text("add_hash_footer"),
        Arg::Text("--image"),
        Arg::File(image),
        Arg::Text("--partition_size"),
        Arg::Number(HASH_FOOTER_PARTITION_SIZE),
        Arg::Text("--partition_name"),
        Arg::Text(partition_name),
        Arg::Text("--key"),
        Arg::File(Location::Component(SIGNING_KEY)),
        Arg::Text("--algorithm"),
        Arg::Text(SIGNING_ALGORITHM),
    ]
}

/// The run of the signing tool that appends a hash footer to `image`.
fn add_hash_footer<'a>(image: Location<'a>, partition_name: &'a str) -> (call: ToolCall<'a>)
    ensures
        call.tool == Tool::Avbtool,
        call.args@ == hash_footer_args(image, partition_name),
{
    let mut args: Vec<Arg<'a>> = Vec::new();
    args.push(Arg::Text("add_hash_footer"));
    args.push(Arg::Text("--image"));
    args.push(Arg::File(image));
    args.push(Arg::Text("--partition_size"));
    args.push(Arg::Number(HASH_FOOTER_PARTITION_SIZE));
    args.push(Arg::Text("--partition_name"));
    args.push(Arg::Text(partition_name));
    args.push(Arg::Text("--key"));
    args.push(Arg::File(Location::Component(SIGNING_KEY)));
    args.push(Arg::Text("--algorithm"));
    args.push(Arg::Text(SIGNING_ALGORITHM));
    assert(args@ =~= hash_footer_args(image, partition_name));
    ToolCall { tool: Tool::Avbtool, args }
}

/// The boot arguments that the environment image is packed from.
pub const UBOOT_ENVIRONMENT: &'static str =
    "uenvcmd=setenv bootargs \"$cbootargs console=hvc0 earlycon=pl011,mmio32,0x9000000 \" && run bootcmd_android";

/// The environment image, in the scratch directory.
pub const UBOOT_ENV_IMAGE: &'static str = "uboot_env.img";

/// The file that the environment image is packed from, in the scratch
/// directory.
pub const UBOOT_ENV_INPUT: &'static str = "uboot_env_input";

/// The partition that holds the environment image.
pub const UBOOT_ENV_PARTITION: &'static str = "uboot_env";

/// The steps that produce the environment image.
pub open spec fn uboot_plan() -> Seq<StepView<'static>> {
    seq![
        StepView::Write { to: Location::Scratch(UBOOT_ENV_INPUT), text: UBOOT_ENVIRONMENT@ },
        StepView::Run {
            tool: Tool::Mkenvimage,
            args: seq![
                Arg::Text("-output_path"),
                Arg::File(Location::Scratch(UBOOT_ENV_IMAGE)),
                Arg::Text("-input_path"),
                Arg::File(Location::Scratch(UBOOT_ENV_INPUT)),
            ],
        },
        StepView::Run {
            tool: Tool::Avbtool,
            args: hash_footer_args(Location::Scratch(UBOOT_ENV_IMAGE), UBOOT_ENV_PARTITION),
        },
    ]
}

/// Plans the environment image: the boot arguments are written to the input
/// file, the packer turns them into the image, and the signing tool appends
/// a hash footer for the partition `uboot_env`.
pub fn create_uboot() -> (plan: Vec<Step<'static>>)
    ensures
        plan.deep_view() == uboot_plan(),
{
    let text = String::from_str(UBOOT_ENVIRONMENT);
    let mut pack: Vec<Arg<'static>> = Vec::new();
    pack.push(Arg::Text("-output_path"));
    pack.push(Arg::File(Location::Scratch(UBOOT_ENV_IMAGE)));
    pack.push(Arg::Text("-input_path"));
    pack.push(Arg::File(Location::Scratch(UBOOT_ENV_INPUT)));
    assert(pack@ =~= seq![
        Arg::Text("-output_path"),
        Arg::File(Location::Scratch(UBOOT_ENV_IMAGE)),
        Arg::Text("-input_path"),
        Arg::File(Location::Scratch(UBOOT_ENV_INPUT)),
    ]);
    let mut plan: Vec<Step<'static>> = Vec::new();
    plan.push(Step::Write { to: Location::Scratch(UBOOT_ENV_INPUT), text });
    plan.push(Step::Run(ToolCall { tool: Tool::Mkenvimage, args: pack }));
    plan.push(Step::Run(add_hash_footer(Location::Scratch(UBOOT_ENV_IMAGE), UBOOT_ENV_PARTITION)));
    assert(plan.deep_view() =~= uboot_plan());
    plan
}

/// The properties that every boot configuration starts with.
pub const BOOTCONFIG_BASE: &'static str = "androidboot.hypervisor.protected_vm.supported=0\n\
androidboot.modem_simulator_ports=9600\n\
androidboot.lcd_density=320\n\
androidboot.vendor.audiocontrol.server.port=9410\n\
androidboot.vendor.audiocontrol.server.cid=3\n\
androidboot.cuttlefish_config_server_port=6800\n\
androidboot.vendor.vehiclehal.server.port=9300\n\
androidboot.fstab_suffix=cf.f2fs.hctr2\n\
androidboot.enable_confirmationui=0\n\
androidboot.hypervisor.vm.supported=0\n\
androidboot.serialno=CUTTLEFISHCVD011\n\
androidboot.setupwizard_mode=DISABLED\n\
androidboot.cpuvulkan.version=4202496\n\
androidboot.ddr_size=4915MB\n\
androidboot.hardware.angle_feature_overrides_enabled=preferLinearFilterForYUV:mapUnspecifiedColorSpaceToPassThrough\n\
androidboot.enable_bootanimation=1\n\
androidboot.hardware.gralloc=minigbm\n\
androidboot.vendor.vehiclehal.server.cid=2\n\
androidboot.hypervisor.version=cf-qemu_cli\n\
androidboot.hardware.vulkan=pastel\n\
androidboot.opengles.version=196609\n\
androidboot.wifi_mac_prefix=5554\n\
androidboot.vsock_tombstone_port=6600\n\
androidboot.hardware.hwcomposer=ranchu\n\
androidboot.serialconsole=0\n";

/// The boot devices of an x86_64 target.
pub const BOOTCONFIG_BOOT_X86_64: &'static str =
    "androidboot.boot_devices=pci0000:00/0000:00:0f.0,pci0000:00/0000:00:10.0\n";

/// The boot devices of an aarch64 target.
pub const BOOTCONFIG_BOOT_AARCH64: &'static str = "androidboot.boot_devices=4010000000.pcie\n";

/// The properties of software rendering.
pub const BOOTCONFIG_RENDER_SOFTWARE: &'static str = "androidboot.hardware.egl=angle\n";

/// The properties of accelerated rendering.
pub const BOOTCONFIG_RENDER_VIRGL: &'static str = "androidboot.hardware.egl=mesa\n\
androidboot.hardware.hwcomposer.display_finder_mode=drm\n\
androidboot.hardware.hwcomposer.mode=client\n";

/// The boot configuration, in the scratch directory. The partition that
/// holds it has the same name.
pub const BOOTCONFIG: &'static str = "bootconfig";

/// The line that names the boot devices of `arch`.
pub open spec fn boot_devices(arch: Arch) -> &'static str {
    match arch {
        Arch::X86_64 => BOOTCONFIG_BOOT_X86_64,
        Arch::Aarch64 => BOOTCONFIG_BOOT_AARCH64,
    }
}

/// The properties that select the rendering mode.
pub open spec fn rendering(virgl: bool) -> &'static str {
    if virgl {
        BOOTCONFIG_RENDER_VIRGL
    } else {
        BOOTCONFIG_RENDER_SOFTWARE
    }
}

/// The boot configuration of `arch` in the given rendering mode: the base
/// properties, then the boot devices, then the rendering properties.
pub open spec fn bootconfig_text_spec(arch: Arch, virgl: bool) -> Seq<char> {
    BOOTCONFIG_BASE@ + boot_devices(arch)@ + rendering(virgl)@
}

/// Composes the boot configuration of `arch`, for accelerated rendering
/// where `virgl` is set and for software rendering where it is not.
pub fn bootconfig_text(arch: &Arch, virgl: bool) -> (text: String)
    ensures
        text@ == bootconfig_text_spec(*arch, virgl),
{
    let mut text = String::from_str(BOOTCONFIG_BASE);
    match arch {
        Arch::X86_64 => text.append(BOOTCONFIG_BOOT_X86_64),
        Arch::Aarch64 => text.append(BOOTCONFIG_BOOT_AARCH64),
    }
    if virgl {
        text.append(BOOTCONFIG_RENDER_VIRGL);
    } else {
        text.append(BOOTCONFIG_RENDER_SOFTWARE);
    }
    text
}

/// The steps that produce the boot configuration image.
pub open spec fn bootconfig_plan(arch: Arch, virgl: bool) -> Seq<StepView<'static>> {
    seq![
        StepView::Write { to: Location::Scratch(BOOTCONFIG), text: bootconfig_text_spec(arch, virgl) },
        StepView::Run {
            tool: Tool::Avbtool,
            args: hash_footer_args(Location::Scratch(BOOTCONFIG), BOOTCONFIG),
        },
    ]
}

/// Plans the boot configuration image: the configuration of `arch` in the
/// given rendering mode is written out, and the signing tool appends a hash
/// footer for the partition `bootconfig`.
pub fn create_bootconfig(arch: &Arch, virgl: bool) -> (plan: Vec<Step<'static>>)
    ensures
        plan.deep_view() == bootconfig_plan(*arch, virgl),
{
    let text = bootconfig_text(arch, virgl);
    let mut plan: Vec<Step<'static>> = Vec::new();
    plan.push(Step::Write { to: Location::Scratch(BOOTCONFIG), text });
    plan.push(Step::Run(add_hash_footer(Location::Scratch(BOOTCONFIG), BOOTCONFIG)));
    assert(plan.deep_view() =~= bootconfig_plan(*arch, virgl));
    plan
}

/// The verification metadata image, in the scratch directory.
pub const VBMETA_IMAGE: &'static str = "vbmeta.img";

/// The length of the verification metadata image is a multiple of this.
pub const VBMETA_ALIGNMENT: u64 = 65536;

/// The arguments with which the signing tool makes the verification
/// metadata: the environment image is chained at rollback index location 1
/// and the boot configuration at 2, both by the public key.
pub open spec fn vbmeta_args() -> Seq<Arg<'static>> {
    seq![
        Arg::Text("make_vbmeta_image"),
        Arg::Text("--output"),
        Arg::File(Location::Scratch(VBMETA_IMAGE)),
        Arg::Text("--chain_partition"),
        Arg::ChainPartition {
            partition: UBOOT_ENV_PARTITION,
            rollback_index_location: 1,
            public_key: Location::Component(PUBLIC_KEY),
        },
        Arg::Text("--chain_partition"),
        Arg::ChainPartition {
            partition: BOOTCONFIG,
            rollback_index_location: 2,
            public_key: Location::Component(PUBLIC_KEY),
        },
        Arg::Text("--key"),
        Arg::File(Location::Component(SIGNING_KEY)),
        Arg::Text("--algorithm"),
        Arg::Text(SIGNING_ALGORITHM),
    ]
}

/// The steps that produce the verification metadata image.
pub open spec fn vbmeta_plan() -> Seq<StepView<'static>> {
    seq![
        StepView::Run { tool: Tool::Avbtool, args: vbmeta_args() },
        StepView::Pad { file: Location::Scratch(VBMETA_IMAGE) },
    ]
}

/// Plans the verification metadata image: the signing tool makes metadata
/// that chains to the environment image and to the boot configuration, and
/// the signed file is then padded with zero bytes.
pub fn create_vbmeta() -> (plan: Vec<Step<'static>>)
    ensures
        plan.deep_view() == vbmeta_plan(),
{
    let mut args: Vec<Arg<'static>> = Vec::new();
    args.push(Arg::Text("make_vbmeta_image"));
    args.push(Arg::Text("--output"));
    args.push(Arg::File(Location::Scratch(VBMETA_IMAGE)));
    args.push(Arg::Text("--chain_partition"));
    args.push(
        Arg::ChainPartition {
            partition: UBOOT_ENV_PARTITION,
            rollback_index_location: 1,
            public_key: Location::Component(PUBLIC_KEY),
        },
    );
    args.push(Arg::Text("--chain_partition"));
    args.push(
        Arg::ChainPartition {
            partition: BOOTCONFIG,
            rollback_index_location: 2,
            public_key: Location::Component(PUBLIC_KEY),
        },
    );
    args.push(Arg::Text("--key"));
    args.push(Arg::File(Location::Component(SIGNING_KEY)));
    args.push(Arg::Text("--algorithm"));
    args.push(Arg::Text(SIGNING_ALGORITHM));
    assert(args@ =~= vbmeta_args());
    let mut plan: Vec<Step<'static>> = Vec::new();
    plan.push(Step::Run(ToolCall { tool: Tool::Avbtool, args }));
    plan.push(Step::Pad { file: Location::Scratch(VBMETA_IMAGE) });
    assert(plan.deep_view() =~= vbmeta_plan());
    plan
}

/// `padded` is the smallest multiple of [`VBMETA_ALIGNMENT`] strictly
/// greater than `signed`.
pub open spec fn is_padded_length(signed: nat, padded: nat) -> bool {
    &&& padded > signed
    &&& padded % (VBMETA_ALIGNMENT as nat) == 0
    &&& forall|other: nat|
        other > signed && #[trigger] (other % (VBMETA_ALIGNMENT as nat)) == 0 ==> padded <= other
}

/// The number of zero bytes appended to signed verification metadata of
/// `signed_len` bytes. The padding is never empty: metadata whose length is
/// already a multiple of [`VBMETA_ALIGNMENT`] grows by a whole unit.
pub fn vbmeta_padding(signed_len: u64) -> (padding: u64)
    ensures
        padding == VBMETA_ALIGNMENT - signed_len % VBMETA_ALIGNMENT,
        1 <= padding <= VBMETA_ALIGNMENT,
        is_padded_length(signed_len as nat, (signed_len + padding) as nat),
{
    let padding: u64 = VBMETA_ALIGNMENT - signed_len % VBMETA_ALIGNMENT;
    proof {
        let padded = (signed_len + padding) as nat;
        assert forall|other: nat|
            other > signed_len && #[trigger] (other % (VBMETA_ALIGNMENT as nat))
                == 0 implies padded <= other by {
            if other < padded {
                assert(other / 65536 == signed_len as nat / 65536);
            }
        }
    }
    padding
}

} // verus!
