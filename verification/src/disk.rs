use crate::error::Error;
use vstd::arithmetic::power2::{
    lemma2_to64, lemma_pow2_strictly_increases, lemma_pow2_unfold, pow2,
};
use vstd::prelude::*;
use vstd::string::StringExecFns;

verus! {

/// Upper bound on the size of one copy block: 1 MiB.
pub const MAX_BLOCK_SIZE: u64 = 1048576;

/// `block` is a power of two no larger than [`MAX_BLOCK_SIZE`].
pub open spec fn is_block_size(block: nat) -> bool {
    exists|e: nat| e <= 20 && block == #[trigger] pow2(e)
}

/// `block` splits `size` bytes into more than one chunk with nothing left over.
pub open spec fn splits_evenly(size: nat, block: nat) -> bool {
    is_block_size(block) && block < size && size % block == 0
}

/// `block` is the block size used to transfer `size` bytes: the largest block
/// size that splits `size` evenly, or a single byte where none does.
pub open spec fn is_best_block_size(size: nat, block: nat) -> bool {
    &&& is_block_size(block)
    &&& size % block == 0
    &&& splits_evenly(size, block) || block == 1
    &&& forall|other: nat| splits_evenly(size, other) ==> other <= block
}

/// The block size used to transfer `size` bytes.
pub open spec fn best_block_size_spec(size: nat) -> nat {
    choose|block: nat| is_best_block_size(size, block)
}

/// Only one block size is the best for a given size.
pub proof fn lemma_best_block_size_unique(size: nat, a: nat, b: nat)
    requires
        is_best_block_size(size, a),
        is_best_block_size(size, b),
    ensures
        a == b,
{
    lemma2_to64();
    if !splits_evenly(size, a) && splits_evenly(size, b) {
        let e = choose|e: nat| e <= 20 && b == #[trigger] pow2(e);
        if e > 0 {
            lemma_pow2_strictly_increases(0, e);
        }
    }
    if !splits_evenly(size, b) && splits_evenly(size, a) {
        let e = choose|e: nat| e <= 20 && a == #[trigger] pow2(e);
        if e > 0 {
            lemma_pow2_strictly_increases(0, e);
        }
    }
}

/// Finds the block size for transferring `size` bytes: the largest power of
/// two, no larger than 1 MiB, that divides `size` and is smaller than it.
/// Where there is none, as for a size of 0 or 1, the block is a single byte.
pub fn best_block_size(size: u64) -> (block: usize)
    ensures
        is_best_block_size(size as nat, block as nat),
        block == best_block_size_spec(size as nat),
        1 <= block <= MAX_BLOCK_SIZE,
        size > 1 ==> block < size,
        size <= 1 ==> block == 1,
{
    let block = find_block_size(size);
    proof {
        lemma_best_block_size_unique(
            size as nat,
            block as nat,
            best_block_size_spec(size as nat),
        );
    }
    block
}

fn find_block_size(size: u64) -> (block: usize)
    ensures
        is_best_block_size(size as nat, block as nat),
        1 <= block <= MAX_BLOCK_SIZE,
        size > 1 ==> block < size,
        size <= 1 ==> block == 1,
{
    let mut bs: u64 = MAX_BLOCK_SIZE;
    let ghost mut e: nat = 20;
    proof {
        lemma2_to64();
    }
    while bs > 1
        invariant
            e <= 20,
            bs == pow2(e),
            1 <= bs <= MAX_BLOCK_SIZE,
            forall|k: nat| e < k <= 20 ==> !splits_evenly(size as nat, #[trigger] pow2(k)),
        decreases bs,
    {
        if size > bs && size % bs == 0 {
            proof {
                lemma_no_larger_block(size as nat, e);
            }
            return bs as usize;
        }
        proof {
            lemma2_to64();
            lemma_pow2_unfold(e);
            assert forall|k: nat| e - 1 < k <= 20 implies !splits_evenly(
                size as nat,
                #[trigger] pow2(k),
            ) by {
                if k == e {
                    assert(!(bs < size && size % bs == 0));
                }
            }
            e = (e - 1) as nat;
        }
        bs = bs / 2;
    }
    proof {
        assert(e == 0) by {
            if e > 0 {
                lemma_pow2_strictly_increases(0, e);
            }
        }
        lemma_no_larger_block(size as nat, 0);
    }
    1
}

/// Where no exponent above `e` gives a block that splits `size` evenly, no
/// block larger than `pow2(e)` does.
proof fn lemma_no_larger_block(size: nat, e: nat)
    requires
        e <= 20,
        forall|k: nat| e < k <= 20 ==> !splits_evenly(size, #[trigger] pow2(k)),
    ensures
        forall|other: nat| splits_evenly(size, other) ==> other <= pow2(e),
{
    assert forall|other: nat| splits_evenly(size, other) implies other <= pow2(e) by {
        let k = choose|k: nat| k <= 20 && other == #[trigger] pow2(k);
        if k < e {
            lemma_pow2_strictly_increases(k, e);
        }
    }
}

/// Bytes reserved at the start of the image for the head of the partition
/// table, and as many at its end.
pub const RESERVED_BYTES: u64 = 20480;

/// Where the content of a partition comes from.
#[derive(Debug, Clone, Copy, PartialEq, Eq)]
pub enum Source<'a> {
    /// This many zero bytes, backed by no file.
    Blank(u64),
    /// The raw image of this name in the base directory.
    File(&'a str),
}

/// One component of a disk image. The order of the components is the order
/// of their partitions on the disk.
#[derive(Debug, Clone, Copy, PartialEq, Eq)]
pub struct ComponentSpec<'a> {
    pub source: Source<'a>,
    pub partition_name: &'a str,
}

/// A component as it was laid out in the image.
#[derive(Debug, Clone, Copy, PartialEq, Eq)]
pub struct LaidOutPartition<'a> {
    pub source: Source<'a>,
    pub partition_name: &'a str,
    /// The bytes written for it: the declared size of a blank region, the
    /// measured length of a file.
    pub byte_size: u64,
}

/// What is asked of the caller next while an image is assembled.
#[derive(Debug, Clone, Copy, PartialEq, Eq)]
pub enum Request<'a> {
    /// Append `blocks` blocks of `block_size` zero bytes each to the image.
    WriteZeros { block_size: usize, blocks: u64 },
    /// Open the image of this name in the base directory and report its
    /// length.
    Measure { image: &'a str },
    /// Append the content of the measured image to the image being
    /// assembled: `blocks` blocks of `block_size` bytes each.
    Copy { image: &'a str, block_size: usize, blocks: u64 },
    /// The image is complete.
    Finished,
}

/// What the caller observed in carrying out a request.
#[derive(Debug, Clone, Copy, PartialEq, Eq)]
pub enum Observation {
    /// The bytes asked for are in the image.
    Completed,
    /// The length in bytes of the image that was to be measured.
    Measured(u64),
}

/// The part of the image that is being dealt with.
#[derive(Debug, Clone, Copy, PartialEq, Eq, Structural)]
pub enum Phase {
    /// The reservation at the start of the image is being written.
    Header,
    /// The next component is a file whose length is being measured.
    Measuring,
    /// The content of the component laid out last is being written.
    Payload,
    /// The reservation at the end of the image is being written.
    Footer,
    /// Nothing is left to write.
    Finished,
}

/// The assembly of a disk image, in progress or finished.
#[derive(Debug)]
pub struct Assembly<'a> {
    components: Vec<ComponentSpec<'a>>,
    layout: Vec<LaidOutPartition<'a>>,
    phase: Phase,
}

/// An assembly as contracts speak of it.
pub struct AssemblyView<'a> {
    /// The components that make up the image.
    pub components: Seq<ComponentSpec<'a>>,
    /// The components laid out so far.
    pub layout: Seq<LaidOutPartition<'a>>,
    pub phase: Phase,
}

/// The component `component` laid out with `byte_size` bytes.
pub open spec fn laid_out<'a>(component: ComponentSpec<'a>, byte_size: u64) -> LaidOutPartition<'a> {
    LaidOutPartition {
        source: component.source,
        partition_name: component.partition_name,
        byte_size,
    }
}

/// The sum of the sizes of the partitions in `layout`.
pub open spec fn layout_bytes(layout: Seq<LaidOutPartition>) -> nat
    decreases layout.len(),
{
    if layout.len() == 0 {
        0
    } else {
        layout_bytes(layout.drop_last()) + layout.last().byte_size as nat
    }
}

impl<'a> AssemblyView<'a> {
    /// The assembly of an image of these components, before anything is
    /// written.
    pub open spec fn start(components: Seq<ComponentSpec<'a>>) -> AssemblyView<'a> {
        AssemblyView { components, layout: Seq::empty(), phase: Phase::Header }
    }

    /// The layout follows the components one for one and in order, a blank
    /// region has its declared size, and the phase fits the progress made.
    pub open spec fn well_formed(self) -> bool {
        &&& self.layout.len() <= self.components.len()
        &&& forall|i: int|
            0 <= i < self.layout.len() ==> {
                &&& (#[trigger] self.layout[i]).source == self.components[i].source
                &&& self.layout[i].partition_name == self.components[i].partition_name
                &&& self.components[i].source matches Source::Blank(size) ==> self.layout[i].byte_size
                    == size
            }
        &&& match self.phase {
            Phase::Header => self.layout.len() == 0,
            Phase::Measuring => self.layout.len() < self.components.len()
                && self.components[self.layout.len() as int].source is File,
            Phase::Payload => self.layout.len() >= 1,
            Phase::Footer | Phase::Finished => self.layout.len() == self.components.len(),
        }
    }

    /// The state once a write is through: the next component is turned to,
    /// or the closing reservation where none is left. A blank region is laid
    /// out with its declared size at once; a file is measured first.
    pub open spec fn turn_to_next(self) -> AssemblyView<'a> {
        if self.layout.len() >= self.components.len() {
            AssemblyView { phase: Phase::Footer, ..self }
        } else {
            let component = self.components[self.layout.len() as int];
            match component.source {
                Source::Blank(size) => AssemblyView {
                    layout: self.layout.push(laid_out(component, size)),
                    phase: Phase::Payload,
                    ..self
                },
                Source::File(_) => AssemblyView { phase: Phase::Measuring, ..self },
            }
        }
    }

    /// What is asked of the caller in this state.
    pub open spec fn pending(self) -> Request<'a> {
        match self.phase {
            Phase::Header | Phase::Footer => Request::WriteZeros {
                block_size: RESERVED_BYTES as usize,
                blocks: 1,
            },
            Phase::Measuring => match self.components[self.layout.len() as int].source {
                Source::File(image) => Request::Measure { image },
                Source::Blank(_) => Request::Finished,
            },
            Phase::Payload => {
                let size = self.layout.last().byte_size;
                let block_size = best_block_size_spec(size as nat) as usize;
                let blocks = (size as nat / best_block_size_spec(size as nat)) as u64;
                match self.layout.last().source {
                    Source::Blank(_) => Request::WriteZeros { block_size, blocks },
                    Source::File(image) => Request::Copy { image, block_size, blocks },
                }
            },
            Phase::Finished => Request::Finished,
        }
    }

    /// `event` is what carrying out the pending request gives rise to.
    pub open spec fn answered_by(self, event: Observation) -> bool {
        match self.phase {
            Phase::Header | Phase::Payload | Phase::Footer => event is Completed,
            Phase::Measuring => event is Measured,
            Phase::Finished => false,
        }
    }

    /// The state after `event`. A measured file is laid out with the length
    /// measured. An event that does not answer the pending request changes
    /// nothing.
    pub open spec fn advance(self, event: Observation) -> AssemblyView<'a> {
        match (self.phase, event) {
            (Phase::Header, Observation::Completed) => self.turn_to_next(),
            (Phase::Payload, Observation::Completed) => self.turn_to_next(),
            (Phase::Measuring, Observation::Measured(len)) => AssemblyView {
                layout: self.layout.push(laid_out(self.components[self.layout.len() as int], len)),
                phase: Phase::Payload,
                ..self
            },
            (Phase::Footer, Observation::Completed) => AssemblyView {
                phase: Phase::Finished,
                ..self
            },
            _ => self,
        }
    }
}

impl<'a> View for Assembly<'a> {
    type V = AssemblyView<'a>;

    closed spec fn view(&self) -> AssemblyView<'a> {
        AssemblyView { components: self.components@, layout: self.layout@, phase: self.phase }
    }
}

/// Starts the assembly of a disk image from `components`: a reservation of
/// [`RESERVED_BYTES`] zero bytes, the content of each component in order,
/// and a second reservation of the same size.
pub fn create_disk_image<'a>(components: Vec<ComponentSpec<'a>>) -> (assembly: Assembly<'a>)
    ensures
        assembly@ == AssemblyView::start(components@),
        assembly@.well_formed(),
{
    Assembly { components, layout: Vec::new(), phase: Phase::Header }
}

impl<'a> Assembly<'a> {
    #[verifier::type_invariant]
    spec fn inv(self) -> bool {
        self@.well_formed()
    }

    /// What the caller is to do now.
    pub fn pending(&self) -> (request: Request<'a>)
        ensures
            request == self@.pending(),
            self@.well_formed(),
            match request {
                Request::WriteZeros { block_size, .. } => 1 <= block_size <= MAX_BLOCK_SIZE,
                Request::Copy { block_size, .. } => 1 <= block_size <= MAX_BLOCK_SIZE,
                _ => true,
            },
    {
        proof {
            use_type_invariant(self);
        }
        match self.phase {
            Phase::Header | Phase::Footer => Request::WriteZeros {
                block_size: RESERVED_BYTES as usize,
                blocks: 1,
            },
            Phase::Measuring => match self.components[self.layout.len()].source {
                Source::File(image) => Request::Measure { image },
                Source::Blank(_) => Request::Finished,
            },
            Phase::Payload => {
                let part = self.layout[self.layout.len() - 1];
                let block_size = best_block_size(part.byte_size);
                let blocks = part.byte_size / (block_size as u64);
                match part.source {
                    Source::Blank(_) => Request::WriteZeros { block_size, blocks },
                    Source::File(image) => Request::Copy { image, block_size, blocks },
                }
            },
            Phase::Finished => Request::Finished,
        }
    }

    /// Takes note of what the caller observed and moves on.
    pub fn advance(self, event: Observation) -> (next: Assembly<'a>)
        ensures
            next@ == self@.advance(event),
            next@.well_formed(),
    {
        proof {
            use_type_invariant(&self);
        }
        match (self.phase, event) {
            (Phase::Header, Observation::Completed) => self.next_component(),
            (Phase::Payload, Observation::Completed) => self.next_component(),
            (Phase::Measuring, Observation::Measured(len)) => {
                let component = self.components[self.layout.len()];
                let mut layout = self.layout;
                layout.push(
                    LaidOutPartition {
                        source: component.source,
                        partition_name: component.partition_name,
                        byte_size: len,
                    },
                );
                Assembly { components: self.components, layout, phase: Phase::Payload }
            },
            (Phase::Footer, Observation::Completed) => Assembly {
                components: self.components,
                layout: self.layout,
                phase: Phase::Finished,
            },
            _ => self,
        }
    }

    fn next_component(self) -> (next: Assembly<'a>)
        ensures
            next@ == self@.turn_to_next(),
            next@.well_formed(),
    {
        proof {
            use_type_invariant(&self);
        }
        if self.layout.len() >= self.components.len() {
            Assembly { components: self.components, layout: self.layout, phase: Phase::Footer }
        } else {
            let component = self.components[self.layout.len()];
            match component.source {
                Source::Blank(size) => {
                    let mut layout = self.layout;
                    layout.push(
                        LaidOutPartition {
                            source: component.source,
                            partition_name: component.partition_name,
                            byte_size: size,
                        },
                    );
                    Assembly { components: self.components, layout, phase: Phase::Payload }
                },
                Source::File(_) => Assembly {
                    components: self.components,
                    layout: self.layout,
                    phase: Phase::Measuring,
                },
            }
        }
    }

    /// Whether the image is complete.
    pub fn is_finished(&self) -> (finished: bool)
        ensures
            finished == (self@.phase == Phase::Finished),
    {
        self.phase == Phase::Finished
    }

    /// The components laid out so far, in order. Once the assembly is
    /// finished there is one for each component.
    pub fn into_layout(self) -> (layout: Vec<LaidOutPartition<'a>>)
        ensures
            layout@ == self@.layout,
            self@.well_formed(),
    {
        proof {
            use_type_invariant(&self);
        }
        self.layout
    }
}

/// The bytes that carrying out `request` appends to the image.
pub open spec fn request_bytes(request: Request) -> nat {
    match request {
        Request::WriteZeros { block_size, blocks } => block_size as nat * blocks as nat,
        Request::Copy { block_size, blocks, .. } => block_size as nat * blocks as nat,
        Request::Measure { .. } | Request::Finished => 0,
    }
}

/// Each of `events` answers the request that is pending when it arrives, in
/// an assembly that stands at `state`.
pub open spec fn is_run(state: AssemblyView, events: Seq<Observation>) -> bool
    decreases events.len(),
{
    events.len() == 0 || (state.answered_by(events[0]) && is_run(
        state.advance(events[0]),
        events.drop_first(),
    ))
}

/// The state that `events` lead to from `state`.
pub open spec fn after_run<'a>(state: AssemblyView<'a>, events: Seq<Observation>) -> AssemblyView<'a>
    decreases events.len(),
{
    if events.len() == 0 {
        state
    } else {
        after_run(state.advance(events[0]), events.drop_first())
    }
}

/// The bytes appended to the image by the requests that `events` answer,
/// from `state` on.
pub open spec fn run_bytes(state: AssemblyView, events: Seq<Observation>) -> nat
    decreases events.len(),
{
    if events.len() == 0 {
        0
    } else {
        request_bytes(state.pending()) + run_bytes(state.advance(events[0]), events.drop_first())
    }
}

/// The bytes that are in the image once the assembly has reached `state`.
spec fn bytes_written(state: AssemblyView) -> nat {
    match state.phase {
        Phase::Header => 0,
        Phase::Measuring | Phase::Footer => RESERVED_BYTES as nat + layout_bytes(state.layout),
        Phase::Payload => RESERVED_BYTES as nat + layout_bytes(state.layout.drop_last()),
        Phase::Finished => RESERVED_BYTES as nat + layout_bytes(state.layout)
            + RESERVED_BYTES as nat,
    }
}

/// A payload request covers the partition it is for, byte for byte.
proof fn lemma_payload_request_bytes(state: AssemblyView)
    requires
        state.well_formed(),
        state.phase == Phase::Payload,
    ensures
        request_bytes(state.pending()) == state.layout.last().byte_size,
{
    let size = state.layout.last().byte_size as nat;
    let block = best_block_size_spec(size);
    lemma_best_block_size_exists(size);
    lemma2_to64();
    let e = choose|e: nat| e <= 20 && block == #[trigger] pow2(e);
    if e < 20 {
        lemma_pow2_strictly_increases(e, 20);
    }
    vstd::arithmetic::power2::lemma_pow2_pos(e);
    let blocks = size / block;
    assert(block * blocks == size) by {
        vstd::arithmetic::div_mod::lemma_fundamental_div_mod(size as int, block as int);
    }
    assert(blocks <= size) by (nonlinear_arith)
        requires
            block * blocks == size,
            block >= 1,
    ;
}

/// Every size has a best block size.
proof fn lemma_best_block_size_exists(size: nat)
    ensures
        is_best_block_size(size, best_block_size_spec(size)),
{
    lemma2_to64();
    let e = lemma_best_exponent(size, 20);
    assert(is_best_block_size(size, pow2(e)));
}

/// The exponent of the best block size among the exponents up to `e`, where
/// no larger exponent gives a block that splits `size` evenly.
proof fn lemma_best_exponent(size: nat, e: nat) -> (best: nat)
    requires
        e <= 20,
        forall|k: nat| e < k <= 20 ==> !splits_evenly(size, #[trigger] pow2(k)),
    ensures
        best <= 20,
        is_best_block_size(size, pow2(best)),
    decreases e,
{
    lemma2_to64();
    if splits_evenly(size, pow2(e)) {
        lemma_no_larger_block(size, e);
        e
    } else if e == 0 {
        lemma_no_larger_block(size, 0);
        0
    } else {
        lemma_best_exponent(size, (e - 1) as nat)
    }
}

/// Completing the pending request adds exactly its bytes to the image.
proof fn lemma_step_bytes(state: AssemblyView, event: Observation)
    requires
        state.well_formed(),
        state.answered_by(event),
    ensures
        state.advance(event).well_formed(),
        bytes_written(state.advance(event)) == bytes_written(state) + request_bytes(
            state.pending(),
        ),
{
    let next = state.advance(event);
    match state.phase {
        Phase::Header => {
            assert(state.layout =~= Seq::empty());
            assert(RESERVED_BYTES as usize == RESERVED_BYTES);
            if next.phase == Phase::Payload {
                assert(next.layout.drop_last() =~= state.layout);
            }
        },
        Phase::Measuring => {
            assert(next.layout.drop_last() =~= state.layout);
        },
        Phase::Payload => {
            lemma_payload_request_bytes(state);
            if next.phase == Phase::Payload {
                assert(next.layout.drop_last() =~= state.layout);
            }
        },
        Phase::Footer => {
            assert(RESERVED_BYTES as usize == RESERVED_BYTES);
        },
        Phase::Finished => {},
    }
}

/// A run keeps the assembly well formed and adds the bytes of its requests
/// to the image.
proof fn lemma_run_bytes(state: AssemblyView, events: Seq<Observation>)
    requires
        state.well_formed(),
        is_run(state, events),
    ensures
        after_run(state, events).well_formed(),
        after_run(state, events).components == state.components,
        bytes_written(after_run(state, events)) == bytes_written(state) + run_bytes(state, events),
    decreases events.len(),
{
    if events.len() > 0 {
        lemma_step_bytes(state, events[0]);
        lemma_run_bytes(state.advance(events[0]), events.drop_first());
    }
}

/// The length of an assembled image: whatever the components are and
/// whatever lengths are measured, the requests of a run that finishes the
/// image append the two reservations and the sizes of all partitions laid
/// out, which are one for each component, and nothing else.
pub proof fn lemma_image_length(components: Seq<ComponentSpec>, events: Seq<Observation>)
    requires
        is_run(AssemblyView::start(components), events),
        after_run(AssemblyView::start(components), events).phase == Phase::Finished,
    ensures
        run_bytes(AssemblyView::start(components), events) == RESERVED_BYTES + layout_bytes(
            after_run(AssemblyView::start(components), events).layout,
        ) + RESERVED_BYTES,
        after_run(AssemblyView::start(components), events).layout.len() == components.len(),
        after_run(AssemblyView::start(components), events).well_formed(),
{
    lemma_run_bytes(AssemblyView::start(components), events);
}

/// Bytes in a sector.
pub const SECTOR_SIZE: u64 = 512;

/// The sector at which the first partition starts.
pub const FIRST_SECTOR: i64 = 40;

/// The type of partition table that describes an assembled image.
pub const PARTITION_TABLE_TYPE: &'static str = "gpt";

/// The file system that every partition is marked with. It is a hint: no
/// file system is made.
pub const FILE_SYSTEM_HINT: &'static str = "ext2";

/// What is reported of a partition whose sectors cannot be numbered.
pub const SECTORS_EXHAUSTED: &'static str =
    "the partition ends beyond the last sector that can be numbered";

/// The kinds of partition.
#[derive(Debug, Clone, Copy, PartialEq, Eq, Structural)]
pub enum PartitionKind {
    Normal,
}

/// One entry of the partition table. The partition covers the sectors from
/// `start_sector` to `end_sector`, both included.
#[derive(Debug, Clone, Copy, PartialEq, Eq)]
pub struct PartitionTableEntry<'a> {
    pub name: &'a str,
    pub start_sector: i64,
    pub end_sector: i64,
    pub kind: PartitionKind,
    pub file_system_hint: &'a str,
}

/// The sectors that `byte_size` bytes take up: a sector that is begun is
/// taken whole.
pub open spec fn sectors_for(byte_size: nat) -> nat {
    ((byte_size + SECTOR_SIZE - 1) / (SECTOR_SIZE as int)) as nat
}

/// The sector at which partition `index` of `layout` starts: each partition
/// starts where the one before it ends, the first at [`FIRST_SECTOR`]. At
/// `layout.len()` this is the first sector behind the last partition.
pub open spec fn start_sector(layout: Seq<LaidOutPartition>, index: int) -> int
    decreases index,
{
    if index <= 0 {
        FIRST_SECTOR as int
    } else {
        start_sector(layout, index - 1) + sectors_for(layout[index - 1].byte_size as nat)
    }
}

/// The table entry of partition `index` of `layout`.
pub open spec fn table_entry<'a>(layout: Seq<LaidOutPartition<'a>>, index: int) -> PartitionTableEntry<'a> {
    PartitionTableEntry {
        name: layout[index].partition_name,
        start_sector: start_sector(layout, index) as i64,
        end_sector: (start_sector(layout, index + 1) - 1) as i64,
        kind: PartitionKind::Normal,
        file_system_hint: FILE_SYSTEM_HINT,
    }
}

/// The start sectors never decrease along the layout.
pub proof fn lemma_start_sector_monotonic(layout: Seq<LaidOutPartition>, i: int, j: int)
    requires
        i <= j,
    ensures
        FIRST_SECTOR <= start_sector(layout, i) <= start_sector(layout, j),
    decreases j,
{
    if j > 0 && i < j {
        lemma_start_sector_monotonic(layout, i, j - 1);
    } else if i > 0 {
        lemma_start_sector_monotonic(layout, i - 1, j - 1);
    }
}

/// Computes the partition table of an assembled image: one entry for each
/// partition of `layout`, in order and under the partition's name. The first
/// starts at [`FIRST_SECTOR`], each following one at the sector behind its
/// predecessor, and each covers the sectors that its bytes take up.
///
/// Sector numbers are held in an `i64`, the sector behind the last
/// partition among them. The first partition behind which that number would
/// be too large is reported, and no table is made.
pub fn create_partitions<'a>(layout: &Vec<LaidOutPartition<'a>>) -> (table: Result<
    Vec<PartitionTableEntry<'a>>,
    Error,
>)
    ensures
        table is Ok <==> start_sector(layout@, layout@.len() as int) <= i64::MAX,
        match table {
            Ok(entries) => {
                &&& entries@.len() == layout@.len()
                &&& forall|i: int|
                    0 <= i < entries@.len() ==> #[trigger] entries@[i] == table_entry(layout@, i)
                &&& entries@.len() > 0 ==> entries@[0].start_sector == FIRST_SECTOR
                &&& forall|i: int|
                    0 <= i < entries@.len() - 1 ==> (#[trigger] entries@[i + 1]).start_sector
                        == entries@[i].end_sector + 1
            },
            Err(Error::Partition { index, name, detail }) => {
                &&& index < layout@.len()
                &&& start_sector(layout@, index as int) <= i64::MAX
                &&& start_sector(layout@, index + 1) > i64::MAX
                &&& name@ == layout@[index as int].partition_name@
                &&& detail@ == SECTORS_EXHAUSTED@
            },
            Err(_) => false,
        },
{
    let mut entries: Vec<PartitionTableEntry<'a>> = Vec::new();
    let mut start: i64 = FIRST_SECTOR;
    let mut i: usize = 0;
    while i < layout.len()
        invariant
            i <= layout@.len(),
            start == start_sector(layout@, i as int),
            entries@.len() == i,
            forall|k: int| 0 <= k < i ==> #[trigger] entries@[k] == table_entry(layout@, k),
        decreases layout@.len() - i,
    {
        let part = &layout[i];
        let sectors: u64 = part.byte_size / SECTOR_SIZE + if part.byte_size % SECTOR_SIZE == 0 {
            0
        } else {
            1
        };
        assert(sectors == sectors_for(part.byte_size as nat));
        assert(start_sector(layout@, i + 1) == start + sectors);
        proof {
            lemma_start_sector_monotonic(layout@, 0, i as int);
        }
        if sectors > (i64::MAX - start) as u64 {
            proof {
                lemma_start_sector_monotonic(layout@, i + 1, layout@.len() as int);
            }
            return Err(
                Error::Partition {
                    index: i,
                    name: String::from_str(part.partition_name),
                    detail: String::from_str(SECTORS_EXHAUSTED),
                },
            );
        }
        let next: i64 = start + sectors as i64;
        entries.push(
            PartitionTableEntry {
                name: part.partition_name,
                start_sector: start,
                end_sector: next - 1,
                kind: PartitionKind::Normal,
                file_system_hint: FILE_SYSTEM_HINT,
            },
        );
        start = next;
        i += 1;
    }
    proof {
        lemma_table_contiguous(layout@);
    }
    Ok(entries)
}

/// The entries of a partition table lie side by side: where every sector of
/// `layout` can be numbered, the first entry starts at [`FIRST_SECTOR`] and
/// each other entry starts at the sector behind the end of the one before.
pub proof fn lemma_table_contiguous(layout: Seq<LaidOutPartition>)
    requires
        start_sector(layout, layout.len() as int) <= i64::MAX,
    ensures
        layout.len() > 0 ==> table_entry(layout, 0).start_sector == FIRST_SECTOR,
        forall|i: int|
            0 <= i < layout.len() - 1 ==> (#[trigger] table_entry(layout, i + 1)).start_sector
                == table_entry(layout, i).end_sector + 1,
        forall|i: int|
            0 <= i < layout.len() ==> (#[trigger] table_entry(layout, i)).end_sector
                == table_entry(layout, i).start_sector + sectors_for(layout[i].byte_size as nat)
                - 1,
{
    assert forall|i: int| 0 <= i < layout.len() implies FIRST_SECTOR <= start_sector(layout, i)
        <= #[trigger] start_sector(layout, i + 1) <= i64::MAX by {
        lemma_start_sector_monotonic(layout, i, i + 1);
        lemma_start_sector_monotonic(layout, i + 1, layout.len() as int);
        lemma_start_sector_monotonic(layout, 0, i);
    }
    assert forall|i: int| 0 <= i < layout.len() - 1 implies (#[trigger] table_entry(
        layout,
        i + 1,
    )).start_sector == table_entry(layout, i).end_sector + 1 by {
        assert(start_sector(layout, i + 1) <= i64::MAX);
        assert(start_sector(layout, i + 1 + 1) <= i64::MAX);
    }
    assert forall|i: int| 0 <= i < layout.len() implies (#[trigger] table_entry(
        layout,
        i,
    )).end_sector == table_entry(layout, i).start_sector + sectors_for(
        layout[i].byte_size as nat,
    ) - 1 by {
        assert(start_sector(layout, i + 1) <= i64::MAX);
    }
}

} // verus!
