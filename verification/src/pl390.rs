use vstd::prelude::*;

verus! {

/// Number of interrupt lines the driver manages; the dispatch table has the
/// same fixed capacity.
pub const INT_LINES: usize = 256;
/// Bit-banked registers hold 32 lines per 32-bit word: 8 banks.
pub const INT_BANKS: usize = 8;
/// Trigger-configuration registers hold 2 bits per line: 16 banks.
pub const CONFIG_BANKS: usize = 16;
/// Reserved acknowledge value meaning "nothing admitted"; reading it requires
/// no end-of-interrupt write.
pub const SPURIOUS_ID: u32 = 1023;
/// Startup admission threshold: all but the lowest-urgency band is admitted.
pub const INITIAL_PRIORITY_MASK: u8 = 0xf8;
/// CPU-interface control value written at startup: interrupt-group signaling
/// enabled.
pub const ICC_ENABLE: u32 = 0x07;

/// One observable effect of the acknowledge/mask/end-of-interrupt protocol.
/// The controller model appends an event for each protocol-register write and
/// for each dispatch decision, so contracts can speak about how often and in
/// what order the effects happen.
#[derive(Clone, Copy, PartialEq, Eq, Structural, Debug)]
pub enum Event {
    /// The priority-mask register was written.
    PmrWrite { mask: u8 },
    /// The end-of-interrupt register was written.
    EoiWrite { value: u32 },
    /// Dispatch handed control to the registered routine identified by
    /// `handler`, passing it the opaque argument `exinf`.
    HandlerInvoked { handler: usize, exinf: isize },
    /// Dispatch found no registered routine for the acknowledged line and
    /// reported the condition instead of aborting.
    Unhandled { id: u32 },
}

/// Mathematical view of the controller model: every register as a plain value,
/// register banks as sequences, and the protocol trace as a sequence of
/// events.
#[verifier::ext_equal]
pub ghost struct GicView {
    pub icc_address: usize,
    pub icd_address: usize,
    pub icc_ctrl: u32,
    pub icc_pmr: u8,
    pub icc_bpr: u32,
    pub icc_abpr: u32,
    pub icc_iar: u32,
    pub icc_rpr: u32,
    pub icc_hpir: u32,
    pub icc_idr: u32,
    pub icd_ctrl: u32,
    pub icd_ictr: u32,
    pub icd_iidr: u32,
    pub icd_sgir: u32,
    pub security: Seq<u32>,
    pub enable: Seq<u32>,
    pub pending: Seq<u32>,
    pub active: Seq<u32>,
    pub priority: Seq<u8>,
    pub target: Seq<u8>,
    pub config: Seq<u32>,
    pub log: Seq<Event>,
}

impl GicView {
    /// Every register bank has its architectural size.
    pub open spec fn wf(self) -> bool {
        &&& self.security.len() == 8
        &&& self.enable.len() == 8
        &&& self.pending.len() == 8
        &&& self.active.len() == 8
        &&& self.priority.len() == 256
        &&& self.target.len() == 256
        &&& self.config.len() == 16
    }
}

/// Model of one PL390-class interrupt controller: the shared distributor
/// block and one core's CPU-interface block. The fields mirror the
/// memory-mapped registers; a platform port maps each accessor below onto a
/// store at the corresponding offset from the stored base addresses.
#[derive(Clone, PartialEq, Debug)]
pub struct Pl390 {
    /// Base address of the CPU-interface register block.
    pub icc_address: usize,
    /// Base address of the distributor register block.
    pub icd_address: usize,
    /// CPU-interface control register.
    pub icc_ctrl: u32,
    /// Priority mask register: the current admission threshold. Lines whose
    /// priority is numerically at or above this value are blocked.
    pub icc_pmr: u8,
    /// Binary point register (preemption grouping).
    pub icc_bpr: u32,
    /// Aliased binary point register.
    pub icc_abpr: u32,
    /// Acknowledge register. On hardware a read returns the highest-priority
    /// admitted pending interrupt and activates it; the model returns the
    /// staged value, which a harness sets to simulate a pending interrupt.
    pub icc_iar: u32,
    /// Running priority register.
    pub icc_rpr: u32,
    /// Highest pending interrupt register.
    pub icc_hpir: u32,
    /// CPU-interface implementer identification register.
    pub icc_idr: u32,
    /// Distributor control register.
    pub icd_ctrl: u32,
    /// Interrupt controller type register.
    pub icd_ictr: u32,
    /// Distributor implementer identification register.
    pub icd_iidr: u32,
    /// Software-generated interrupt register (last value written).
    pub icd_sgir: u32,
    /// Interrupt security registers, one bit per line.
    pub security: Vec<u32>,
    /// Per-line enable bits. Mutated only through the set/clear register
    /// pair: the hardware also writes these banks, so a read-modify-write
    /// from software would race with it.
    pub enable: Vec<u32>,
    /// Per-line pending bits, with the same set/clear convention.
    pub pending: Vec<u32>,
    /// Per-line active bits.
    pub active: Vec<u32>,
    /// Per-line priority bytes; lower numeric value means higher urgency.
    pub priority: Vec<u8>,
    /// Per-line target-core mask bytes.
    pub target: Vec<u8>,
    /// Per-line trigger configuration, two bits per line.
    pub config: Vec<u32>,
    /// Trace of protocol effects, newest last.
    pub log: Vec<Event>,
}

impl View for Pl390 {
    type V = GicView;

    open spec fn view(&self) -> GicView {
        GicView {
            icc_address: self.icc_address,
            icd_address: self.icd_address,
            icc_ctrl: self.icc_ctrl,
            icc_pmr: self.icc_pmr,
            icc_bpr: self.icc_bpr,
            icc_abpr: self.icc_abpr,
            icc_iar: self.icc_iar,
            icc_rpr: self.icc_rpr,
            icc_hpir: self.icc_hpir,
            icc_idr: self.icc_idr,
            icd_ctrl: self.icd_ctrl,
            icd_ictr: self.icd_ictr,
            icd_iidr: self.icd_iidr,
            icd_sgir: self.icd_sgir,
            security: self.security@,
            enable: self.enable@,
            pending: self.pending@,
            active: self.active@,
            priority: self.priority@,
            target: self.target@,
            config: self.config@,
            log: self.log@,
        }
    }
}

impl Pl390 {
    pub open spec fn wf(&self) -> bool {
        self@.wf()
    }
}

// --- CPU-interface register accessors ---

/// CPU-interface control register write; bit 0 enables group signaling.
pub fn write_iccicr(g: &mut Pl390, data: u32)
    ensures
        final(g)@ == (GicView { icc_ctrl: data, ..old(g)@ }),
{
    g.icc_ctrl = data;
}

/// Priority-mask register write: sets the admission threshold. Logged, since
/// the save/raise/restore discipline around dispatch depends on the order of
/// these writes.
pub fn write_iccpmr(g: &mut Pl390, data: u8)
    ensures
        final(g)@ == (GicView {
            icc_pmr: data,
            log: old(g)@.log.push(Event::PmrWrite { mask: data }),
            ..old(g)@
        }),
{
    g.icc_pmr = data;
    g.log.push(Event::PmrWrite { mask: data });
}

/// Priority-mask register read.
pub fn read_iccpmr(g: &Pl390) -> (r: u8)
    ensures
        r == g@.icc_pmr,
{
    g.icc_pmr
}

/// Binary point register write.
pub fn write_iccbpr(g: &mut Pl390, data: u32)
    ensures
        final(g)@ == (GicView { icc_bpr: data, ..old(g)@ }),
{
    g.icc_bpr = data;
}

/// Acknowledge register store. The hardware register is read-only; the model
/// stages here the value the next acknowledge read returns, so a harness can
/// simulate the controller offering an interrupt.
pub fn write_icciar(g: &mut Pl390, data: u32)
    ensures
        final(g)@ == (GicView { icc_iar: data, ..old(g)@ }),
{
    g.icc_iar = data;
}

/// Acknowledge register read. On hardware this both identifies the
/// highest-priority admitted pending interrupt and activates it; the model
/// returns the staged value.
pub fn read_icciar(g: &Pl390) -> (r: u32)
    ensures
        r == g@.icc_iar,
{
    g.icc_iar
}

/// End-of-interrupt register write: deactivates the line acknowledged with
/// the same value. Every write is logged; the dispatch contracts count them.
pub fn write_icceoir(g: &mut Pl390, data: u32)
    ensures
        final(g)@ == (GicView {
            log: old(g)@.log.push(Event::EoiWrite { value: data }),
            ..old(g)@
        }),
{
    g.log.push(Event::EoiWrite { value: data });
}

/// Running priority register store (low-level accessor).
pub fn write_iccrpr(g: &mut Pl390, data: u32)
    ensures
        final(g)@ == (GicView { icc_rpr: data, ..old(g)@ }),
{
    g.icc_rpr = data;
}

/// Highest pending interrupt register store (low-level accessor).
pub fn write_icchpir(g: &mut Pl390, data: u32)
    ensures
        final(g)@ == (GicView { icc_hpir: data, ..old(g)@ }),
{
    g.icc_hpir = data;
}

/// Aliased binary point register write.
pub fn write_iccabpr(g: &mut Pl390, data: u32)
    ensures
        final(g)@ == (GicView { icc_abpr: data, ..old(g)@ }),
{
    g.icc_abpr = data;
}

/// CPU-interface implementer identification register store (low-level
/// accessor).
pub fn write_iccidr(g: &mut Pl390, data: u32)
    ensures
        final(g)@ == (GicView { icc_idr: data, ..old(g)@ }),
{
    g.icc_idr = data;
}

// --- Distributor register accessors ---

/// Distributor control register write.
pub fn write_icddcr(g: &mut Pl390, data: u32)
    ensures
        final(g)@ == (GicView { icd_ctrl: data, ..old(g)@ }),
{
    g.icd_ctrl = data;
}

/// Interrupt controller type register store (low-level accessor).
pub fn write_icdictr(g: &mut Pl390, data: u32)
    ensures
        final(g)@ == (GicView { icd_ictr: data, ..old(g)@ }),
{
    g.icd_ictr = data;
}

/// Distributor implementer identification register store (low-level
/// accessor).
pub fn write_icdiidr(g: &mut Pl390, data: u32)
    ensures
        final(g)@ == (GicView { icd_iidr: data, ..old(g)@ }),
{
    g.icd_iidr = data;
}

/// Interrupt security register write for bank `n`.
pub fn write_icdisr(g: &mut Pl390, n: usize, data: u32)
    requires
        old(g).wf(),
        n < INT_BANKS,
    ensures
        final(g)@ == (GicView { security: old(g)@.security.update(n as int, data), ..old(g)@ }),
{
    g.security[n] = data;
}

/// Enable-set register write for bank `n`: every 1 bit in `data` sets the
/// corresponding enable bit, 0 bits leave theirs alone. The hardware mutates
/// these banks itself, so the set/clear convention, not read-modify-write, is
/// what makes software writes safe against concurrent hardware updates.
pub fn write_icdiser(g: &mut Pl390, n: usize, data: u32)
    requires
        old(g).wf(),
        n < INT_BANKS,
    ensures
        final(g)@ == (GicView {
            enable: old(g)@.enable.update(n as int, old(g)@.enable[n as int] | data),
            ..old(g)@
        }),
{
    g.enable[n] = g.enable[n] | data;
}

/// Enable-clear register write for bank `n`: every 1 bit in `data` clears the
/// corresponding enable bit.
pub fn write_icdicer(g: &mut Pl390, n: usize, data: u32)
    requires
        old(g).wf(),
        n < INT_BANKS,
    ensures
        final(g)@ == (GicView {
            enable: old(g)@.enable.update(n as int, old(g)@.enable[n as int] & !data),
            ..old(g)@
        }),
{
    g.enable[n] = g.enable[n] & !data;
}

/// Pending-set register write for bank `n`, with the same write-1-sets
/// convention as the enable bank.
pub fn write_icdispr(g: &mut Pl390, n: usize, data: u32)
    requires
        old(g).wf(),
        n < INT_BANKS,
    ensures
        final(g)@ == (GicView {
            pending: old(g)@.pending.update(n as int, old(g)@.pending[n as int] | data),
            ..old(g)@
        }),
{
    g.pending[n] = g.pending[n] | data;
}

/// Pending-clear register write for bank `n`.
pub fn write_icdicpr(g: &mut Pl390, n: usize, data: u32)
    requires
        old(g).wf(),
        n < INT_BANKS,
    ensures
        final(g)@ == (GicView {
            pending: old(g)@.pending.update(n as int, old(g)@.pending[n as int] & !data),
            ..old(g)@
        }),
{
    g.pending[n] = g.pending[n] & !data;
}

/// Active bit register store for bank `n` (low-level accessor).
pub fn write_icdabr(g: &mut Pl390, n: usize, data: u32)
    requires
        old(g).wf(),
        n < INT_BANKS,
    ensures
        final(g)@ == (GicView { active: old(g)@.active.update(n as int, data), ..old(g)@ }),
{
    g.active[n] = data;
}

/// Priority register write: one byte per line, addressed by line number.
pub fn write_icdipr(g: &mut Pl390, n: usize, data: u8)
    requires
        old(g).wf(),
        n < INT_LINES,
    ensures
        final(g)@ == (GicView { priority: old(g)@.priority.update(n as int, data), ..old(g)@ }),
{
    g.priority[n] = data;
}

/// Priority register read for line `n`.
pub fn read_icdipr(g: &Pl390, n: usize) -> (r: u8)
    requires
        g.wf(),
        n < INT_LINES,
    ensures
        r == g@.priority[n as int],
{
    g.priority[n]
}

/// Target register write: one target-core mask byte per line.
pub fn write_icdiptr(g: &mut Pl390, n: usize, data: u8)
    requires
        old(g).wf(),
        n < INT_LINES,
    ensures
        final(g)@ == (GicView { target: old(g)@.target.update(n as int, data), ..old(g)@ }),
{
    g.target[n] = data;
}

/// Trigger-configuration register write for bank `n` (two bits per line).
pub fn write_icdicfr(g: &mut Pl390, n: usize, data: u32)
    requires
        old(g).wf(),
        n < CONFIG_BANKS,
    ensures
        final(g)@ == (GicView { config: old(g)@.config.update(n as int, data), ..old(g)@ }),
{
    g.config[n] = data;
}

/// Software-generated interrupt register write (low-level accessor; the model
/// keeps the last value written).
pub fn write_icdsgir(g: &mut Pl390, data: u32)
    ensures
        final(g)@ == (GicView { icd_sgir: data, ..old(g)@ }),
{
    g.icd_sgir = data;
}

// --- Startup ---

/// The controller state `pl390_initialize` produces: every line disabled and
/// at priority zero, nothing pending, the acknowledge register staged with
/// the spurious value, the startup admission threshold in the priority mask,
/// group signaling enabled, and the one startup mask write in the log.
pub open spec fn initial_view(icc_address: usize, icd_address: usize) -> GicView {
    GicView {
        icc_address: icc_address,
        icd_address: icd_address,
        icc_ctrl: ICC_ENABLE,
        icc_pmr: INITIAL_PRIORITY_MASK,
        icc_bpr: 0,
        icc_abpr: 0,
        icc_iar: SPURIOUS_ID,
        icc_rpr: 0,
        icc_hpir: 0,
        icc_idr: 0,
        icd_ctrl: 0,
        icd_ictr: 0,
        icd_iidr: 0,
        icd_sgir: 0,
        security: Seq::new(8, |i: int| 0u32),
        enable: Seq::new(8, |i: int| 0u32),
        pending: Seq::new(8, |i: int| 0u32),
        active: Seq::new(8, |i: int| 0u32),
        priority: Seq::new(256, |i: int| 0u8),
        target: Seq::new(256, |i: int| 0u8),
        config: Seq::new(16, |i: int| 0u32),
        log: seq![Event::PmrWrite { mask: INITIAL_PRIORITY_MASK }],
    }
}

/// Builds a `u32` bank vector of `n` zeroed words.
fn zeroed_u32(n: usize) -> (v: Vec<u32>)
    ensures
        v@ == Seq::new(n as nat, |i: int| 0u32),
{
    let mut v: Vec<u32> = Vec::new();
    let mut i: usize = 0;
    while i < n
        invariant
            i <= n,
            v@.len() == i,
            forall|j: int| 0 <= j < i ==> v@[j] == 0u32,
        decreases n - i,
    {
        v.push(0);
        i = i + 1;
    }
    proof {
        assert(v@ =~= Seq::new(n as nat, |i: int| 0u32));
    }
    v
}

/// Builds a `u8` byte-array vector of `n` zeroed bytes.
fn zeroed_u8(n: usize) -> (v: Vec<u8>)
    ensures
        v@ == Seq::new(n as nat, |i: int| 0u8),
{
    let mut v: Vec<u8> = Vec::new();
    let mut i: usize = 0;
    while i < n
        invariant
            i <= n,
            v@.len() == i,
            forall|j: int| 0 <= j < i ==> v@[j] == 0u8,
        decreases n - i,
    {
        v.push(0);
        i = i + 1;
    }
    proof {
        assert(v@ =~= Seq::new(n as nat, |i: int| 0u8));
    }
    v
}

/// Produces a ready driver instance for the controller whose CPU-interface
/// and distributor blocks sit at the two base addresses: the priority mask is
/// set to the startup admission threshold (all but the lowest-urgency band)
/// and interrupt-group signaling is enabled.
pub fn pl390_initialize(icc_address: usize, icd_address: usize) -> (g: Pl390)
    ensures
        g.wf(),
        g@ == initial_view(icc_address, icd_address),
        forall|id: int| 0 <= id < 256 ==> !line_enabled(g@, id),
{
    let mut g = Pl390 {
        icc_address,
        icd_address,
        icc_ctrl: 0,
        icc_pmr: 0,
        icc_bpr: 0,
        icc_abpr: 0,
        icc_iar: SPURIOUS_ID,
        icc_rpr: 0,
        icc_hpir: 0,
        icc_idr: 0,
        icd_ctrl: 0,
        icd_ictr: 0,
        icd_iidr: 0,
        icd_sgir: 0,
        security: zeroed_u32(INT_BANKS),
        enable: zeroed_u32(INT_BANKS),
        pending: zeroed_u32(INT_BANKS),
        active: zeroed_u32(INT_BANKS),
        priority: zeroed_u8(INT_LINES),
        target: zeroed_u8(INT_LINES),
        config: zeroed_u32(CONFIG_BANKS),
        log: Vec::new(),
    };
    write_iccpmr(&mut g, INITIAL_PRIORITY_MASK);
    write_iccicr(&mut g, ICC_ENABLE);
    proof {
        assert(g@.log =~= initial_view(icc_address, icd_address).log);
        assert(g@ =~= initial_view(icc_address, icd_address));
        assert forall|id: int| 0 <= id < 256 implies !line_enabled(g@, id) by {
            let b = (id % 32) as u32;
            assert(0u32 & (1u32 << b) == 0) by (bit_vector);
        }
    }
    g
}

// --- Per-line configuration ---

/// The single set bit a line contributes to its 32-bit bank.
pub open spec fn mask_bit(b: int) -> u32 {
    1u32 << (b as u32)
}

/// Whether the distributor has line `id` enabled.
pub open spec fn line_enabled(g: GicView, id: int) -> bool {
    g.enable[id / 32] & mask_bit(id % 32) != 0
}

/// The configured priority byte of line `id`.
pub open spec fn line_priority(g: GicView, id: int) -> u8 {
    g.priority[id]
}

/// The controller state after line `id` is enabled.
pub open spec fn enable_line(g: GicView, id: int) -> GicView {
    GicView {
        enable: g.enable.update(id / 32, g.enable[id / 32] | mask_bit(id % 32)),
        ..g
    }
}

/// The controller state after line `id` is disabled.
pub open spec fn disable_line(g: GicView, id: int) -> GicView {
    GicView {
        enable: g.enable.update(id / 32, g.enable[id / 32] & !mask_bit(id % 32)),
        ..g
    }
}

/// The controller state after line `id` is given priority `level`.
pub open spec fn set_line_priority(g: GicView, id: int, level: u8) -> GicView {
    GicView { priority: g.priority.update(id, level), ..g }
}

proof fn lemma_or_bit(x: u32, i: u32, j: u32)
    requires
        i < 32,
        j < 32,
    ensures
        ((x | (1u32 << i)) & (1u32 << j) != 0) <==> (i == j || x & (1u32 << j) != 0),
{
    assert(((x | (1u32 << i)) & (1u32 << j) != 0) <==> (i == j || x & (1u32 << j) != 0))
        by (bit_vector)
        requires
            i < 32,
            j < 32,
    ;
}

proof fn lemma_andnot_bit(x: u32, i: u32, j: u32)
    requires
        i < 32,
        j < 32,
    ensures
        ((x & !(1u32 << i)) & (1u32 << j) != 0) <==> (i != j && x & (1u32 << j) != 0),
{
    assert(((x & !(1u32 << i)) & (1u32 << j) != 0) <==> (i != j && x & (1u32 << j) != 0))
        by (bit_vector)
        requires
            i < 32,
            j < 32,
    ;
}

/// Two distinct line numbers either sit in different banks or at different
/// bit positions of the same bank.
proof fn lemma_distinct_lines(id: int, j: int)
    requires
        0 <= id < 256,
        0 <= j < 256,
        id != j,
    ensures
        id / 32 != j / 32 || id % 32 != j % 32,
{
    vstd::arithmetic::div_mod::lemma_fundamental_div_mod(id, 32);
    vstd::arithmetic::div_mod::lemma_fundamental_div_mod(j, 32);
}

/// Law: enabling a line makes exactly that line show enabled, leaves every
/// other line as it was and the rest of the controller untouched, and doing
/// it twice is the same as doing it once.
pub proof fn lemma_enable_line(g: GicView, id: int)
    requires
        g.wf(),
        0 <= id < 256,
    ensures
        enable_line(g, id).wf(),
        line_enabled(enable_line(g, id), id),
        forall|j: int|
            0 <= j < 256 && j != id ==> line_enabled(enable_line(g, id), j) == line_enabled(g, j),
        enable_line(enable_line(g, id), id) == enable_line(g, id),
        enable_line(g, id) == (GicView { enable: enable_line(g, id).enable, ..g }),
{
    let g1 = enable_line(g, id);
    lemma_or_bit(g.enable[id / 32], (id % 32) as u32, (id % 32) as u32);
    assert(line_enabled(g1, id));
    assert forall|j: int|
        0 <= j < 256 && j != id implies line_enabled(g1, j) == line_enabled(g, j) by {
        lemma_distinct_lines(id, j);
        if j / 32 == id / 32 {
            lemma_or_bit(g.enable[id / 32], (id % 32) as u32, (j % 32) as u32);
        }
    }
    let x = g.enable[id / 32];
    let i = (id % 32) as u32;
    assert((x | (1u32 << i)) | (1u32 << i) == x | (1u32 << i)) by (bit_vector);
    assert(enable_line(g1, id).enable =~= g1.enable);
    assert(enable_line(g1, id) =~= g1);
}

/// Law: disabling a line makes exactly that line show disabled and leaves
/// every other line and the rest of the controller as they were.
pub proof fn lemma_disable_line(g: GicView, id: int)
    requires
        g.wf(),
        0 <= id < 256,
    ensures
        disable_line(g, id).wf(),
        !line_enabled(disable_line(g, id), id),
        forall|j: int|
            0 <= j < 256 && j != id ==> line_enabled(disable_line(g, id), j) == line_enabled(g, j),
        disable_line(g, id) == (GicView { enable: disable_line(g, id).enable, ..g }),
{
    let g1 = disable_line(g, id);
    lemma_andnot_bit(g.enable[id / 32], (id % 32) as u32, (id % 32) as u32);
    assert(!line_enabled(g1, id));
    assert forall|j: int|
        0 <= j < 256 && j != id implies line_enabled(g1, j) == line_enabled(g, j) by {
        lemma_distinct_lines(id, j);
        if j / 32 == id / 32 {
            lemma_andnot_bit(g.enable[id / 32], (id % 32) as u32, (j % 32) as u32);
        }
    }
}

/// Law: after `set_line_priority(g, id, p)` the priority of `id` reads back
/// as `p`, every other line's priority is unchanged, and nothing else in the
/// controller moves.
pub proof fn lemma_priority_roundtrip(g: GicView, id: int, level: u8)
    requires
        g.wf(),
        0 <= id < 256,
    ensures
        set_line_priority(g, id, level).wf(),
        line_priority(set_line_priority(g, id, level), id) == level,
        forall|j: int|
            0 <= j < 256 && j != id ==> line_priority(set_line_priority(g, id, level), j)
                == line_priority(g, j),
        set_line_priority(g, id, level) == (GicView {
            priority: set_line_priority(g, id, level).priority,
            ..g
        }),
{
}

/// Permits delivery of line `intno`: sets its bit in the enable-set bank,
/// addressed as bank `intno / 32`, bit `intno % 32`.
pub fn enable_interrupt(g: &mut Pl390, intno: i32)
    requires
        old(g).wf(),
        0 <= intno < 256,
    ensures
        final(g).wf(),
        final(g)@ == enable_line(old(g)@, intno as int),
{
    let id: usize = intno as usize;
    write_icdiser(g, id / 32, 1u32 << ((id % 32) as u32));
}

/// Blocks delivery of line `intno`: sets its bit in the enable-clear bank.
pub fn disable_interrupt(g: &mut Pl390, intno: i32)
    requires
        old(g).wf(),
        0 <= intno < 256,
    ensures
        final(g).wf(),
        final(g)@ == disable_line(old(g)@, intno as int),
{
    let id: usize = intno as usize;
    write_icdicer(g, id / 32, 1u32 << ((id % 32) as u32));
}

/// Whether the distributor currently has line `intno` enabled.
pub fn interrupt_enabled(g: &Pl390, intno: i32) -> (r: bool)
    requires
        g.wf(),
        0 <= intno < 256,
    ensures
        r == line_enabled(g@, intno as int),
{
    let id: usize = intno as usize;
    (g.enable[id / 32] & (1u32 << ((id % 32) as u32))) != 0
}

/// Configures the priority byte of line `intno`; lower numeric value means
/// higher urgency.
pub fn set_priority(g: &mut Pl390, intno: i32, level: u8)
    requires
        old(g).wf(),
        0 <= intno < 256,
    ensures
        final(g).wf(),
        final(g)@ == set_line_priority(old(g)@, intno as int, level),
{
    write_icdipr(g, intno as usize, level);
}

/// Reads back the configured priority byte of line `intno`.
pub fn get_priority(g: &Pl390, intno: i32) -> (r: u8)
    requires
        g.wf(),
        0 <= intno < 256,
    ensures
        r == line_priority(g@, intno as int),
{
    read_icdipr(g, intno as usize)
}

} // verus!
