//! The ring of staging textures through which alpha values come back from the GPU.
use std::collections::VecDeque;

use vstd::prelude::*;
use vstd::slice::slice_subrange;

use crate::dx::{check_dimensions, invalid_argument, DxError, E_INVALIDARG};

verus! {

/// How many staging textures take turns.
pub const READBACK_BUFFER_COUNT: usize = 2;

/// What an [`AlphaReadback`] remembers: the slots that hold a copy not yet read, oldest
/// first, and the slot that is written next.
pub struct RingState {
    pub pending: Seq<usize>,
    pub next_write: usize,
    pub width: u32,
    pub height: u32,
}

impl RingState {
    /// The pending slots are the ones right before `next_write` in the ring.
    pub open spec fn wf(self) -> bool {
        &&& self.width > 0
        &&& self.height > 0
        &&& self.next_write < READBACK_BUFFER_COUNT
        &&& self.pending.len() <= READBACK_BUFFER_COUNT
        &&& forall|i: int|
            0 <= i < self.pending.len() ==> #[trigger] self.pending[i] == (self.next_write
                + READBACK_BUFFER_COUNT - self.pending.len() + i) % (READBACK_BUFFER_COUNT as int)
    }

    pub open spec fn full(self) -> bool {
        self.pending.len() == READBACK_BUFFER_COUNT
    }

    /// The ring once a copy has been sent to `next_write`.
    pub open spec fn enqueued(self) -> RingState {
        RingState {
            pending: self.pending.push(self.next_write),
            next_write: ((self.next_write + 1) % (READBACK_BUFFER_COUNT as int)) as usize,
            ..self
        }
    }

    /// The ring once the oldest copy has been dealt with.
    pub open spec fn dequeued(self) -> RingState {
        RingState { pending: self.pending.drop_first(), ..self }
    }

    /// How the attempt to send another copy ends.
    pub open spec fn queued(self, copied: Result<(), DxError>) -> Result<bool, DxError> {
        if self.full() {
            Ok(false)
        } else {
            match copied {
                Ok(()) => Ok(true),
                Err(error) => Err(error),
            }
        }
    }

    /// How the attempt to read the oldest copy ends.
    pub open spec fn read<'a>(self, outcome: MapOutcome<'a>) -> Result<bool, DxError> {
        if self.pending.len() == 0 {
            Ok(false)
        } else {
            match outcome {
                MapOutcome::StillDrawing => Ok(false),
                MapOutcome::Failed(error) => Err(error),
                MapOutcome::Mapped { .. } => if self.width * self.height > usize::MAX {
                    Err(DxError { hresult: E_INVALIDARG })
                } else {
                    Ok(true)
                },
            }
        }
    }

    /// The ring after an attempt to send a copy that ended in this way.
    pub open spec fn after_queueing(self, queued: Result<bool, DxError>) -> RingState {
        if queued == Ok::<bool, DxError>(true) {
            self.enqueued()
        } else {
            self
        }
    }

    /// The ring after an attempt to read the oldest copy that ended in this way.
    pub open spec fn after_reading(self, read: Result<bool, DxError>) -> RingState {
        if read == Ok::<bool, DxError>(false) {
            self
        } else {
            self.dequeued()
        }
    }
}

/// How the attempt to map the oldest copy went.
pub enum MapOutcome<'a> {
    /// The GPU has not finished the copy.
    StillDrawing,
    Failed(DxError),
    /// The copy is readable; its rows start `pitch` bytes apart in `rows`.
    Mapped { rows: &'a [u8], pitch: u32 },
}

impl<'a> MapOutcome<'a> {
    /// Every row of a mapped copy can be read.
    pub open spec fn covers(self, width: int, height: int) -> bool {
        match self {
            MapOutcome::Mapped { rows, pitch } => (height - 1) * pitch + width <= rows@.len(),
            _ => true,
        }
    }
}

/// The rows of a copy without the gaps between them.
pub open spec fn packed_rows(rows: Seq<u8>, pitch: int, width: int, height: int) -> Seq<u8> {
    Seq::new(
        (width * height) as nat,
        |i: int| rows[i / width * pitch + i % width],
    )
}

/// The bookkeeping of alpha copies on their way from the GPU.
pub struct AlphaReadback {
    pending: VecDeque<usize>,
    next_write: usize,
    width: u32,
    height: u32,
}

impl View for AlphaReadback {
    type V = RingState;

    closed spec fn view(&self) -> RingState {
        RingState {
            pending: self.pending@,
            next_write: self.next_write,
            width: self.width,
            height: self.height,
        }
    }
}

impl AlphaReadback {
    /// An empty ring for images of the given extent.
    pub fn new(width: u32, height: u32) -> (ring: Result<Self, DxError>)
        ensures
            ring is Ok <==> width > 0 && height > 0,
            ring matches Ok(ring) ==> ring@.wf() && ring@ == (RingState {
                pending: Seq::empty(),
                next_write: 0,
                width,
                height,
            }),
            ring matches Err(error) ==> error.hresult == E_INVALIDARG,
    {
        match check_dimensions(width, height) {
            Err(error) => Err(error),
            Ok(()) => Ok(
                AlphaReadback {
                    pending: VecDeque::with_capacity(READBACK_BUFFER_COUNT),
                    next_write: 0,
                    width,
                    height,
                },
            ),
        }
    }

    pub fn width(&self) -> (width: u32)
        ensures
            width == self@.width,
    {
        self.width
    }

    pub fn height(&self) -> (height: u32)
        ensures
            height == self@.height,
    {
        self.height
    }

    /// The slot that the next copy goes to; none while every slot holds an unread copy.
    pub fn next_slot(&self) -> (slot: Option<usize>)
        ensures
            slot == if self@.full() {
                None
            } else {
                Some(self@.next_write)
            },
    {
        if self.pending.len() == READBACK_BUFFER_COUNT {
            None
        } else {
            Some(self.next_write)
        }
    }

    /// The slot with the oldest unread copy.
    pub fn oldest_slot(&self) -> (slot: Option<usize>)
        ensures
            slot == if self@.pending.len() == 0 {
                None
            } else {
                Some(self@.pending[0])
            },
    {
        if self.pending.len() == 0 {
            None
        } else {
            Some(self.pending[0])
        }
    }

    /// Records the copy that was sent to [`AlphaReadback::next_slot`]. A full ring takes none,
    /// and a copy that failed is not waited for.
    pub fn enqueue_extract(&mut self, copied: Result<(), DxError>) -> (queued: Result<
        bool,
        DxError,
    >)
        requires
            old(self)@.wf(),
        ensures
            final(self)@.wf(),
            queued == old(self)@.queued(copied),
            final(self)@ == old(self)@.after_queueing(queued),
    {
        if self.pending.len() == READBACK_BUFFER_COUNT {
            return Ok(false);
        }
        match copied {
            Err(error) => Err(error),
            Ok(()) => {
                self.pending.push_back(self.next_write);
                self.next_write = (self.next_write + 1) % READBACK_BUFFER_COUNT;
                Ok(true)
            },
        }
    }

    /// Takes the oldest copy out of the ring and writes its rows to `alpha`, once it can be
    /// read. A copy that cannot be mapped is given up, and `alpha` stays as it was.
    pub fn try_read(&mut self, outcome: MapOutcome<'_>, alpha: &mut Vec<u8>) -> (read: Result<
        bool,
        DxError,
    >)
        requires
            old(self)@.wf(),
            outcome.covers(old(self)@.width as int, old(self)@.height as int),
        ensures
            final(self)@.wf(),
            read == old(self)@.read(outcome),
            final(self)@ == old(self)@.after_reading(read),
            final(alpha)@ == match outcome {
                MapOutcome::Mapped { rows, pitch } if read == Ok::<bool, DxError>(true) =>
                    packed_rows(
                        rows@,
                        pitch as int,
                        old(self)@.width as int,
                        old(self)@.height as int,
                    ),
                _ => old(alpha)@,
            },
    {
        if self.pending.len() == 0 {
            return Ok(false);
        }
        match outcome {
            MapOutcome::StillDrawing => Ok(false),
            MapOutcome::Failed(error) => {
                let _ = self.pending.pop_front();
                Err(error)
            },
            MapOutcome::Mapped { rows, pitch } => {
                let width: usize = self.width as usize;
                let height: usize = self.height as usize;
                match width.checked_mul(height) {
                    None => {
                        let _ = self.pending.pop_front();
                        Err(invalid_argument())
                    },
                    Some(_) => {
                        pack_rows(rows, pitch as usize, width, height, alpha);
                        let _ = self.pending.pop_front();
                        Ok(true)
                    },
                }
            },
        }
    }
}

/// Replaces what `out` holds by the rows of an image without the gaps between them.
fn pack_rows(rows: &[u8], pitch: usize, width: usize, height: usize, out: &mut Vec<u8>)
    requires
        width > 0,
        height > 0,
        width * height <= usize::MAX,
        (height - 1) * pitch + width <= rows@.len(),
    ensures
        final(out)@ == packed_rows(rows@, pitch as int, width as int, height as int),
{
    out.clear();
    let mut y: usize = 0;
    assert(out@ =~= packed_rows(rows@, pitch as int, width as int, 0)) by {
        assert(width * 0 == 0);
    }
    while y < height
        invariant
            y <= height,
            width > 0,
            (height - 1) * pitch + width <= rows@.len(),
            out@ == packed_rows(rows@, pitch as int, width as int, y as int),
        decreases height - y,
    {
        assert(0 <= y * pitch <= (height - 1) * pitch) by (nonlinear_arith)
            requires
                0 <= y <= height - 1,
                0 <= pitch,
        ;
        assert(rows@.len() == rows.len());
        let start: usize = y * pitch;
        let ghost before = out@;
        out.extend_from_slice(slice_subrange(rows, start, start + width));
        proof {
            let done = width * y;
            assert(0 <= done) by (nonlinear_arith)
                requires
                    0 <= width,
                    0 <= y,
                    done == width * y,
            ;
            assert(width * (y + 1) == done + width) by (nonlinear_arith)
                requires
                    done == width * y,
            ;
            assert forall|i: int| 0 <= i < done + width implies out@[i] == packed_rows(
                rows@,
                pitch as int,
                width as int,
                y + 1,
            )[i] by {
                if i >= done {
                    assert(i == y * width + (i - done)) by (nonlinear_arith)
                        requires
                            done == width * y,
                    ;
                    vstd::arithmetic::div_mod::lemma_fundamental_div_mod_converse(
                        i,
                        width as int,
                        y as int,
                        i - done,
                    );
                } else {
                    assert(out@[i] == before[i]);
                }
            }
            assert(out@ =~= packed_rows(rows@, pitch as int, width as int, y + 1));
        }
        y += 1;
    }
}

/// No slot holds two unread copies, and the slot that is written next holds none while the
/// ring has room.
pub proof fn unread_copies_are_never_overwritten(ring: RingState)
    requires
        ring.wf(),
    ensures
        forall|i: int, j: int|
            0 <= i < j < ring.pending.len() ==> ring.pending[i] != ring.pending[j],
        !ring.full() ==> !ring.pending.contains(ring.next_write),
        forall|i: int| 0 <= i < ring.pending.len() ==> ring.pending[i] < READBACK_BUFFER_COUNT,
{
}

/// Copies are read in the order in which they were sent.
pub proof fn copies_are_read_in_order(ring: RingState)
    requires
        ring.wf(),
        !ring.full(),
        ring.pending.len() > 0,
    ensures
        ring.enqueued().pending[0] == ring.pending[0],
        ring.enqueued().dequeued() == ring.dequeued().enqueued(),
{
    assert(ring.enqueued().dequeued().pending =~= ring.dequeued().enqueued().pending);
}

/// A ring is kept well formed by every step, and a copy that was sent to an empty ring is the
/// one that is read.
pub proof fn ring_steps_keep_the_ring(ring: RingState)
    requires
        ring.wf(),
    ensures
        !ring.full() ==> ring.enqueued().wf(),
        ring.pending.len() > 0 ==> ring.dequeued().wf(),
        ring.pending.len() == 0 ==> ring.enqueued().pending == seq![ring.next_write],
{
    if ring.pending.len() == 0 {
        assert(ring.enqueued().pending =~= seq![ring.next_write]);
    }
}

/// Byte x of row y of a copy stands at `y * width + x` of the packed rows, wherever the row starts
/// in the copy.
pub proof fn packed_rows_hold_every_byte(
    rows: Seq<u8>,
    pitch: int,
    width: int,
    height: int,
    x: int,
    y: int,
)
    requires
        0 <= x < width,
        0 <= y < height,
    ensures
        packed_rows(rows, pitch, width, height).len() == width * height,
        0 <= y * width + x < width * height,
        packed_rows(rows, pitch, width, height)[y * width + x] == rows[y * pitch + x],
{
    assert(0 <= y * width + x < width * height) by (nonlinear_arith)
        requires
            0 <= x < width,
            0 <= y < height,
    ;
    vstd::arithmetic::div_mod::lemma_fundamental_div_mod_converse(y * width + x, width, y, x);
}

/// Two staging textures take turns, and a ring that both wait in is full.
pub proof fn staging_textures_take_turns(ring: RingState)
    requires
        ring.wf(),
    ensures
        ring.next_write == 0 || ring.next_write == 1,
        ring.enqueued().next_write == 1 - ring.next_write,
        ring.enqueued().pending.last() == ring.next_write,
        ring.pending.len() == 0 ==> !ring.full() && !ring.enqueued().full()
            && ring.enqueued().enqueued().full(),
        ring.pending.len() > 0 ==> ring.dequeued().pending == ring.pending.drop_first()
            && ring.dequeued().next_write == ring.next_write,
{
}

/// A full ring takes no copy; otherwise a copy that was sent waits to be read, and one that failed
/// does not.
pub proof fn sent_copies_wait(ring: RingState, error: DxError)
    requires
        ring.wf(),
    ensures
        ring.pending.len() == 2 ==> ring.queued(Ok(())) == Ok::<bool, DxError>(false)
            && ring.queued(Err(error)) == Ok::<bool, DxError>(false) && ring.after_queueing(
            ring.queued(Ok(())),
        ) == ring,
        ring.pending.len() < 2 ==> {
            let after = ring.after_queueing(ring.queued(Ok(())));
            &&& ring.queued(Ok(())) == Ok::<bool, DxError>(true)
            &&& after.pending == ring.pending.push(ring.next_write)
            &&& ring.queued(Err(error)) == Err::<bool, DxError>(error)
        },
        ring.after_queueing(ring.queued(Err(error))) == ring,
{
}

/// The oldest copy waits while the GPU draws and leaves the ring once it was read or given up; an
/// empty ring gives nothing.
pub proof fn oldest_copy_leaves_once_dealt_with(
    ring: RingState,
    error: DxError,
    mapped: MapOutcome<'static>,
)
    requires
        ring.wf(),
        mapped is Mapped,
        ring.width * ring.height <= usize::MAX,
    ensures
        ring.read(MapOutcome::StillDrawing) == Ok::<bool, DxError>(false),
        ring.after_reading(Ok(false)) == ring,
        ring.pending.len() == 0 ==> ring.read(mapped) == Ok::<bool, DxError>(false) && ring.read(
            MapOutcome::Failed(error),
        ) == Ok::<bool, DxError>(false),
        ring.pending.len() > 0 ==> {
            &&& ring.read(mapped) == Ok::<bool, DxError>(true)
            &&& ring.read(MapOutcome::Failed(error)) == Err::<bool, DxError>(error)
            &&& ring.after_reading(ring.read(mapped)).pending == ring.pending.drop_first()
            &&& ring.after_reading(ring.read(MapOutcome::Failed(error))).pending
                == ring.pending.drop_first()
        },
{
}

} // verus!
