use vstd::prelude::*;

use crate::pl390::{
    line_priority, read_icciar, read_icdipr, read_iccpmr, write_icceoir, write_iccpmr, Event,
    GicView, Pl390, INT_LINES, SPURIOUS_ID,
};

verus! {

/// One dispatch-table slot: either empty, or a registered routine with its
/// opaque argument. Emptiness is an explicit variant, not a sentinel value.
#[derive(Clone, Copy, PartialEq, Eq, Structural, Debug)]
pub enum IsrEntry {
    Empty,
    /// `handler` identifies the service routine to run; the trap harness owns
    /// the mapping from this token to the actual function. `exinf` is the
    /// opaque argument handed to the routine on every invocation.
    Registered { handler: usize, exinf: isize },
}

/// Fixed-capacity table mapping each interrupt identifier to its dispatch
/// entry. Registered by kernel initialization; read-only during dispatch. An
/// update concurrent with dispatch must be synchronized externally.
pub struct IsrTable {
    pub entries: Vec<IsrEntry>,
}

impl View for IsrTable {
    type V = Seq<IsrEntry>;

    open spec fn view(&self) -> Seq<IsrEntry> {
        self.entries@
    }
}

impl IsrTable {
    /// One slot per interrupt line.
    pub open spec fn wf(&self) -> bool {
        self@.len() == 256
    }

    /// Builds a table with every slot empty.
    pub fn new() -> (t: Self)
        ensures
            t.wf(),
            forall|i: int| 0 <= i < 256 ==> t@[i] == (IsrEntry::Empty),
    {
        let mut entries: Vec<IsrEntry> = Vec::new();
        let mut i: usize = 0;
        while i < INT_LINES
            invariant
                i <= INT_LINES,
                entries@.len() == i,
                forall|j: int| 0 <= j < i ==> entries@[j] == (IsrEntry::Empty),
            decreases INT_LINES - i,
        {
            entries.push(IsrEntry::Empty);
            i = i + 1;
        }
        IsrTable { entries }
    }
}

/// Registers the routine identified by `handler`, with opaque argument
/// `exinf`, for interrupt `intno`, replacing whatever the slot held.
pub fn register_isr(t: &mut IsrTable, intno: i32, handler: usize, exinf: isize)
    requires
        old(t).wf(),
        0 <= intno < 256,
    ensures
        final(t).wf(),
        final(t)@ == old(t)@.update(intno as int, IsrEntry::Registered { handler, exinf }),
{
    t.entries[intno as usize] = IsrEntry::Registered { handler, exinf };
}

/// How a dispatch ended, short of a fatal error.
#[derive(Clone, Copy, PartialEq, Eq, Structural, Debug)]
pub enum DispatchOutcome {
    /// The registered routine `handler` was invoked once with `exinf`.
    Handled { handler: usize, exinf: isize },
    /// The line had no registered routine; the condition was reported and the
    /// system carries on.
    Unhandled { id: u32 },
    /// The acknowledge read returned the spurious identifier: nothing was
    /// admitted, nothing was done, and no end-of-interrupt write is owed.
    Spurious,
}

/// Fatal dispatch failure: an internal-consistency violation that the caller
/// must treat as unrecoverable.
#[derive(Clone, Copy, PartialEq, Eq, Structural, Debug)]
pub enum DispatchError {
    /// The acknowledged identifier is outside the table and is not the
    /// spurious sentinel: the controller or the table is corrupt.
    UnexpectedAck { value: u32 },
}

/// The protocol trace one non-spurious dispatch appends: raise the admission
/// threshold to the acknowledged line's own priority, retire the line with
/// exactly one end-of-interrupt write carrying the acknowledged value, then
/// either invoke the registered routine or report the line unhandled, and
/// finally restore the saved threshold.
pub open spec fn dispatch_events(g: GicView, t: Seq<IsrEntry>, iar: u32) -> Seq<Event> {
    let id = iar as int;
    let served = match t[id] {
        IsrEntry::Registered { handler, exinf } => Event::HandlerInvoked { handler, exinf },
        IsrEntry::Empty => Event::Unhandled { id: iar },
    };
    seq![
        Event::PmrWrite { mask: g.priority[id] },
        Event::EoiWrite { value: iar },
        served,
        Event::PmrWrite { mask: g.icc_pmr },
    ]
}

/// The controller state after one dispatch of acknowledge value `iar`: an
/// in-range identifier appends its protocol trace and leaves every register
/// — the priority mask included, since it is saved and restored — as it was;
/// the spurious identifier and a fatal identifier change nothing.
pub open spec fn dispatch_view(g: GicView, t: Seq<IsrEntry>, iar: u32) -> GicView {
    if iar < 256 {
        GicView { log: g.log + dispatch_events(g, t, iar), ..g }
    } else {
        g
    }
}

/// What one dispatch of acknowledge value `iar` returns: the served entry for
/// an in-range identifier, `Spurious` for the sentinel, and a fatal error for
/// anything else.
pub open spec fn dispatch_result(t: Seq<IsrEntry>, iar: u32) -> Result<
    DispatchOutcome,
    DispatchError,
> {
    if iar < 256 {
        match t[iar as int] {
            IsrEntry::Registered { handler, exinf } => Ok(
                DispatchOutcome::Handled { handler, exinf },
            ),
            IsrEntry::Empty => Ok(DispatchOutcome::Unhandled { id: iar }),
        }
    } else if iar == SPURIOUS_ID {
        Ok(DispatchOutcome::Spurious)
    } else {
        Err(DispatchError::UnexpectedAck { value: iar })
    }
}

/// Records that dispatch handed control to a registered routine.
fn invoke_isr(g: &mut Pl390, handler: usize, exinf: isize)
    ensures
        final(g)@ == (GicView {
            log: old(g)@.log.push(Event::HandlerInvoked { handler, exinf }),
            ..old(g)@
        }),
{
    g.log.push(Event::HandlerInvoked { handler, exinf });
}

/// Records that an acknowledged line had no registered routine; the condition
/// is reported through the observability hook, never treated as fatal.
fn report_unhandled(g: &mut Pl390, id: u32)
    ensures
        final(g)@ == (GicView { log: old(g)@.log.push(Event::Unhandled { id }), ..old(g)@ }),
{
    g.log.push(Event::Unhandled { id });
}

/// Serves one interrupt on behalf of the trap handler, which enters with the
/// exception discriminator `_inhno` (unused by this controller: the
/// acknowledge register identifies the line).
///
/// The acknowledge register is read first, which on hardware also activates
/// the line. An in-range identifier is served: the current priority mask is
/// saved and raised to the line's own priority, so only strictly more urgent
/// interrupts may preempt the routine; the end-of-interrupt write retires the
/// line before the routine runs, deliberately letting it re-trigger during
/// handling (so the controller's active state cannot be used to detect a
/// running routine); the routine is invoked, or the line reported unhandled;
/// and the saved mask is restored unconditionally. The spurious identifier is
/// discarded with no end-of-interrupt write. Any other out-of-range
/// identifier is an internal-consistency error returned for the caller to
/// abort on.
pub fn irc_execute(g: &mut Pl390, t: &IsrTable, _inhno: usize) -> (r: Result<
    DispatchOutcome,
    DispatchError,
>)
    requires
        old(g).wf(),
        t.wf(),
    ensures
        final(g).wf(),
        final(g)@ == dispatch_view(old(g)@, t@, old(g)@.icc_iar),
        r == dispatch_result(t@, old(g)@.icc_iar),
{
    let icciar = read_icciar(g);
    let intno = icciar as usize;
    if intno >= t.entries.len() {
        if icciar == SPURIOUS_ID {
            return Ok(DispatchOutcome::Spurious);
        }
        return Err(DispatchError::UnexpectedAck { value: icciar });
    }

    let pmr = read_iccpmr(g);
    let ilv = read_icdipr(g, intno);
    write_iccpmr(g, ilv);

    write_icceoir(g, icciar);

    let outcome = match t.entries[intno] {
        IsrEntry::Registered { handler, exinf } => {
            invoke_isr(g, handler, exinf);
            DispatchOutcome::Handled { handler, exinf }
        },
        IsrEntry::Empty => {
            report_unhandled(g, icciar);
            DispatchOutcome::Unhandled { id: icciar }
        },
    };

    write_iccpmr(g, pmr);

    proof {
        assert(g@.log =~= old(g)@.log + dispatch_events(old(g)@, t@, old(g)@.icc_iar));
        assert(g@ =~= dispatch_view(old(g)@, t@, old(g)@.icc_iar));
    }
    Ok(outcome)
}

// --- Laws of dispatch ---

/// Law: every dispatch of an in-range (hence non-spurious) acknowledge value
/// `iar` performs exactly one end-of-interrupt write, it carries exactly the
/// acknowledged value, and it happens strictly before any handler invocation
/// of that dispatch.
pub proof fn lemma_dispatch_eoi_once(g: GicView, t: Seq<IsrEntry>, iar: u32)
    requires
        g.wf(),
        t.len() == 256,
        iar < 256,
    ensures
        ({
            let ev = dispatch_events(g, t, iar);
            &&& dispatch_view(g, t, iar).log == g.log + ev
            &&& ev.len() == 4
            &&& ev[1] == (Event::EoiWrite { value: iar })
            &&& forall|i: int| 0 <= i < ev.len() && i != 1 ==> !(ev[i] is EoiWrite)
            &&& forall|i: int| 0 <= i < ev.len() && ev[i] is HandlerInvoked ==> i == 2
        }),
{
}

/// Law: dispatching the spurious identifier performs zero end-of-interrupt
/// writes, invokes no handler, and leaves the controller — log included —
/// exactly as it was.
pub proof fn lemma_dispatch_spurious(g: GicView, t: Seq<IsrEntry>)
    ensures
        dispatch_view(g, t, SPURIOUS_ID) == g,
        dispatch_view(g, t, SPURIOUS_ID).log == g.log,
        dispatch_result(t, SPURIOUS_ID) == Ok::<DispatchOutcome, DispatchError>(
            DispatchOutcome::Spurious,
        ),
{
}

/// Law: the priority mask after a dispatch equals the priority mask before
/// it, whatever the acknowledge value: the save/raise/restore discipline
/// round-trips.
pub proof fn lemma_dispatch_preserves_priority_mask(g: GicView, t: Seq<IsrEntry>, iar: u32)
    ensures
        dispatch_view(g, t, iar).icc_pmr == g.icc_pmr,
{
}

/// Law: a dispatch to a line with a registered routine `(handler, exinf)`
/// appends exactly one handler invocation, of that routine with that
/// argument; the mask-raise event carries the line's configured priority, and
/// the restore event the saved mask.
pub proof fn lemma_dispatch_invokes_handler_once(
    g: GicView,
    t: Seq<IsrEntry>,
    iar: u32,
    handler: usize,
    exinf: isize,
)
    requires
        g.wf(),
        t.len() == 256,
        iar < 256,
        t[iar as int] == (IsrEntry::Registered { handler, exinf }),
    ensures
        ({
            let ev = dispatch_events(g, t, iar);
            &&& dispatch_view(g, t, iar).log == g.log + ev
            &&& ev[0] == (Event::PmrWrite { mask: line_priority(g, iar as int) })
            &&& ev[2] == (Event::HandlerInvoked { handler, exinf })
            &&& ev[3] == (Event::PmrWrite { mask: g.icc_pmr })
            &&& forall|i: int| 0 <= i < ev.len() && i != 2 ==> !(ev[i] is HandlerInvoked)
            &&& forall|i: int| 0 <= i < ev.len() ==> !(ev[i] is Unhandled)
        }),
        dispatch_result(t, iar) == Ok::<DispatchOutcome, DispatchError>(
            DispatchOutcome::Handled { handler, exinf },
        ),
{
}

/// Law: a dispatch to a line with no registered routine invokes no handler
/// and raises exactly one unhandled report, naming the acknowledged line.
pub proof fn lemma_dispatch_unhandled_once(g: GicView, t: Seq<IsrEntry>, iar: u32)
    requires
        g.wf(),
        t.len() == 256,
        iar < 256,
        t[iar as int] == (IsrEntry::Empty),
    ensures
        ({
            let ev = dispatch_events(g, t, iar);
            &&& dispatch_view(g, t, iar).log == g.log + ev
            &&& ev[2] == (Event::Unhandled { id: iar })
            &&& forall|i: int| 0 <= i < ev.len() && i != 2 ==> !(ev[i] is Unhandled)
            &&& forall|i: int| 0 <= i < ev.len() ==> !(ev[i] is HandlerInvoked)
        }),
        dispatch_result(t, iar) == Ok::<DispatchOutcome, DispatchError>(
            DispatchOutcome::Unhandled { id: iar },
        ),
{
}

} // verus!
