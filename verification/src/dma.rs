use crate::errors::DriverError;
use crate::notify::NotificationHandle;
use crate::window::MemoryMap;
use crate::words::{lemma_store_load, lemma_store_load_disjoint, load_word, store_word};
use vstd::prelude::*;

verus! {

/// Register offsets of the DMA engine, in bytes from its window base.
pub const DMA_SOFT_RESET_OFFSET: usize = 0x0;

pub const DMA_BUFFER_WRITTEN_FLAGS_OFFSET: usize = 0x4;

pub const DMA_CONFIGURE_SAMPLING_OFFSET: usize = 0x14;

pub const DMA_CONFIGURE_BUFFER_COUNT_OFFSET: usize = 0x18;

pub const DMA_IRQ_COUNT_OFFSET: usize = 0x1C;

pub const DMA_CONFIGURE_BUFFER_ADDRESS_OFFSET: usize = 0x20;

/// The set of buffer indices `{0, ..., n - 1}`.
pub open spec fn index_range(n: int) -> Set<int> {
    Set::new(|i: int| 0 <= i < n)
}

/// What one DMA status readout observed: the buffer-written flag word (which
/// the readout clears) and the fixed small range of additional status words
/// dumped for diagnostics.
#[derive(Debug)]
pub struct DmaStatus {
    pub flags: u32,
    pub diagnostics: Vec<u32>,
}

/// The DMA engine: configures buffer descriptors and the sample count,
/// resets, waits for transfer completion (busy-poll on the IRQ counter
/// register, or a blocking notification wait with explicit re-arm), and
/// reads the buffer-written status flags.
pub struct DmaController {
    mmap: MemoryMap,
    irq_count: u32,
    notifier: Option<NotificationHandle>,
    programmed: Ghost<Set<int>>,
    buffer_count: Ghost<Option<u32>>,
}

impl DmaController {
    /// The bytes of the engine's register window.
    pub closed spec fn window(self) -> Seq<u8> {
        self.mmap@
    }

    pub closed spec fn wf(self) -> bool {
        self.mmap.wf()
    }

    /// The IRQ-counter value captured at the start of the current transfer;
    /// poll-mode completion is detected by inequality with it.
    pub closed spec fn irq_snapshot(self) -> u32 {
        self.irq_count
    }

    /// The notification handle tied to this engine, once one is configured;
    /// without one, completion waits fall back to polling.
    pub closed spec fn notifier_spec(self) -> Option<NotificationHandle> {
        self.notifier
    }

    /// The buffer indices whose address registers have been programmed since
    /// the last reset or buffer-count write.
    pub closed spec fn programmed_spec(self) -> Set<int> {
        self.programmed@
    }

    /// The value last written to the buffer-count register, if any since the
    /// last reset.
    pub closed spec fn count_spec(self) -> Option<u32> {
        self.buffer_count@
    }

    /// The descriptor set is complete: the indices programmed since the last
    /// buffer-count write are exactly `{0, ..., count - 1}`, contiguous from
    /// zero with no gaps.
    pub open spec fn buffers_configured(self) -> bool {
        self.count_spec() matches Some(n) && self.programmed_spec() == index_range(n as int)
    }

    /// A new engine over its register window: no IRQ snapshot taken, no
    /// notification handle, nothing programmed.
    pub fn new(mmap: MemoryMap) -> (c: Self)
        requires
            mmap.wf(),
        ensures
            c.wf(),
            c.window() == mmap@,
            c.irq_snapshot() == 0,
            c.notifier_spec() is None,
            c.programmed_spec() == Set::<int>::empty(),
            c.count_spec() is None,
    {
        DmaController {
            mmap,
            irq_count: 0,
            notifier: None,
            programmed: Ghost(Set::empty()),
            buffer_count: Ghost(None),
        }
    }

    /// Ties a notification handle to this engine; later completion waits
    /// block on it instead of polling the IRQ counter.
    pub fn configure_interrupt_file(&mut self, handle: NotificationHandle)
        requires
            old(self).wf(),
        ensures
            final(self).wf(),
            final(self).notifier_spec() == Some(handle),
            final(self).window() == old(self).window(),
            final(self).irq_snapshot() == old(self).irq_snapshot(),
            final(self).programmed_spec() == old(self).programmed_spec(),
            final(self).count_spec() == old(self).count_spec(),
    {
        self.notifier = Some(handle);
    }

    /// Captures the current IRQ-counter register value as the poll-mode
    /// completion snapshot.
    pub fn update_irq_count(&mut self) -> (r: Result<(), DriverError>)
        requires
            old(self).wf(),
        ensures
            final(self).wf(),
            final(self).window() == old(self).window(),
            final(self).notifier_spec() == old(self).notifier_spec(),
            final(self).programmed_spec() == old(self).programmed_spec(),
            final(self).count_spec() == old(self).count_spec(),
            r is Ok <==> DMA_IRQ_COUNT_OFFSET + 4 <= old(self).window().len(),
            r is Ok ==> final(self).irq_snapshot() == load_word(
                old(self).window(),
                DMA_IRQ_COUNT_OFFSET as int,
            ),
            r is Err ==> final(self).irq_snapshot() == old(self).irq_snapshot() && r->Err_0
                == DriverError::OutOfBounds,
    {
        match self.mmap.read(DMA_IRQ_COUNT_OFFSET) {
            Ok(v) => {
                self.irq_count = v;
                Ok(())
            },
            Err(e) => Err(e),
        }
    }

    /// Pulses the reset bit high then low: two sequential register writes
    /// with no delay guarantee other than write ordering. Observing the
    /// reset register immediately afterwards shows the cleared state, never
    /// the asserted one. A reset invalidates any programmed configuration.
    pub fn soft_reset(&mut self) -> (r: Result<(), DriverError>)
        requires
            old(self).wf(),
        ensures
            final(self).wf(),
            final(self).irq_snapshot() == old(self).irq_snapshot(),
            final(self).notifier_spec() == old(self).notifier_spec(),
            final(self).programmed_spec() == Set::<int>::empty(),
            final(self).count_spec() is None,
            r is Ok <==> DMA_SOFT_RESET_OFFSET + 4 <= old(self).window().len(),
            r is Ok ==> final(self).window() == store_word(
                store_word(old(self).window(), DMA_SOFT_RESET_OFFSET as int, 0x1),
                DMA_SOFT_RESET_OFFSET as int,
                0x0,
            ),
            r is Ok ==> load_word(final(self).window(), DMA_SOFT_RESET_OFFSET as int) == 0,
            r is Err ==> final(self).window() == old(self).window() && r->Err_0
                == DriverError::OutOfBounds,
    {
        let _ = self.mmap.write(DMA_SOFT_RESET_OFFSET, 0x1);
        let r = self.mmap.write(DMA_SOFT_RESET_OFFSET, 0x0);
        proof {
            self.programmed@ = Set::empty();
            self.buffer_count@ = None;
            if DMA_SOFT_RESET_OFFSET + 4 <= old(self).window().len() {
                lemma_store_load(
                    store_word(old(self).window(), DMA_SOFT_RESET_OFFSET as int, 0x1),
                    DMA_SOFT_RESET_OFFSET as int,
                    0x0,
                );
            }
        }
        r
    }

    /// Programs the per-buffer transfer size, in words.
    pub fn configure_sampling(&mut self, value: u32) -> (r: Result<(), DriverError>)
        requires
            old(self).wf(),
        ensures
            final(self).wf(),
            final(self).irq_snapshot() == old(self).irq_snapshot(),
            final(self).notifier_spec() == old(self).notifier_spec(),
            final(self).programmed_spec() == old(self).programmed_spec(),
            final(self).count_spec() == old(self).count_spec(),
            r is Ok <==> DMA_CONFIGURE_SAMPLING_OFFSET + 4 <= old(self).window().len(),
            r is Ok ==> final(self).window() == store_word(
                old(self).window(),
                DMA_CONFIGURE_SAMPLING_OFFSET as int,
                value,
            ),
            r is Ok ==> load_word(final(self).window(), DMA_CONFIGURE_SAMPLING_OFFSET as int)
                == value,
            r is Err ==> final(self).window() == old(self).window() && r->Err_0
                == DriverError::OutOfBounds,
    {
        let r = self.mmap.write(DMA_CONFIGURE_SAMPLING_OFFSET, value);
        proof {
            if DMA_CONFIGURE_SAMPLING_OFFSET + 4 <= old(self).window().len() {
                lemma_store_load(old(self).window(), DMA_CONFIGURE_SAMPLING_OFFSET as int, value);
            }
        }
        r
    }

    /// Programs how many buffer descriptors the engine will use. The set of
    /// programmed buffer addresses starts over: descriptors written before
    /// the count do not carry across.
    pub fn configure_buffer_count(&mut self, value: u32) -> (r: Result<(), DriverError>)
        requires
            old(self).wf(),
        ensures
            final(self).wf(),
            final(self).irq_snapshot() == old(self).irq_snapshot(),
            final(self).notifier_spec() == old(self).notifier_spec(),
            r is Ok <==> DMA_CONFIGURE_BUFFER_COUNT_OFFSET + 4 <= old(self).window().len(),
            r is Ok ==> final(self).window() == store_word(
                old(self).window(),
                DMA_CONFIGURE_BUFFER_COUNT_OFFSET as int,
                value,
            ),
            r is Ok ==> load_word(final(self).window(), DMA_CONFIGURE_BUFFER_COUNT_OFFSET as int)
                == value,
            r is Ok ==> final(self).count_spec() == Some(value) && final(self).programmed_spec()
                == Set::<int>::empty(),
            r is Err ==> *final(self) == *old(self) && r->Err_0 == DriverError::OutOfBounds,
    {
        match self.mmap.write(DMA_CONFIGURE_BUFFER_COUNT_OFFSET, value) {
            Ok(()) => {
                proof {
                    self.buffer_count@ = Some(value);
                    self.programmed@ = Set::empty();
                    lemma_store_load(
                        old(self).window(),
                        DMA_CONFIGURE_BUFFER_COUNT_OFFSET as int,
                        value,
                    );
                }
                Ok(())
            },
            Err(e) => Err(e),
        }
    }

    /// Programs the physical base address of buffer `idx`, at register
    /// `0x20 + 4 * idx`, and records the index as programmed.
    pub fn configure_buffer_address(&mut self, idx: usize, value: u32) -> (r: Result<
        (),
        DriverError,
    >)
        requires
            old(self).wf(),
        ensures
            final(self).wf(),
            final(self).irq_snapshot() == old(self).irq_snapshot(),
            final(self).notifier_spec() == old(self).notifier_spec(),
            final(self).count_spec() == old(self).count_spec(),
            r is Ok <==> DMA_CONFIGURE_BUFFER_ADDRESS_OFFSET + 4 * idx + 4 <= old(
                self,
            ).window().len(),
            r is Ok ==> final(self).window() == store_word(
                old(self).window(),
                DMA_CONFIGURE_BUFFER_ADDRESS_OFFSET + 4 * (idx as int),
                value,
            ),
            r is Ok ==> load_word(
                final(self).window(),
                DMA_CONFIGURE_BUFFER_ADDRESS_OFFSET + 4 * (idx as int),
            ) == value,
            r is Ok ==> final(self).programmed_spec() == old(self).programmed_spec().insert(
                idx as int,
            ),
            r is Err ==> *final(self) == *old(self) && r->Err_0 == DriverError::OutOfBounds,
    {
        let len = self.mmap.size();
        if len < 0x24 || idx > (len - 0x24) / 4 {
            return Err(DriverError::OutOfBounds);
        }
        assert(4 * idx <= len - 0x24);
        let offset = DMA_CONFIGURE_BUFFER_ADDRESS_OFFSET + 4 * idx;
        match self.mmap.write(offset, value) {
            Ok(()) => {
                proof {
                    self.programmed@ = self.programmed@.insert(idx as int);
                    lemma_store_load(old(self).window(), offset as int, value);
                }
                Ok(())
            },
            Err(e) => Err(e),
        }
    }

    /// The byte length of the engine's register window.
    pub fn window_size(&self) -> (r: usize)
        requires
            self.wf(),
        ensures
            r == self.window().len(),
    {
        self.mmap.size()
    }

    /// One hardware edge arrives on the engine's interrupt line; the caller
    /// that owns the real event handle reports it here after its blocking
    /// read returns. Without a configured handle there is nothing to record.
    pub fn notify_edge(&mut self)
        requires
            old(self).wf(),
        ensures
            final(self).wf(),
            final(self).window() == old(self).window(),
            final(self).irq_snapshot() == old(self).irq_snapshot(),
            final(self).programmed_spec() == old(self).programmed_spec(),
            final(self).count_spec() == old(self).count_spec(),
            old(self).notifier_spec() matches Some(h) ==> (final(self).notifier_spec()
                matches Some(h2) && h2.counter_spec() == ((h.counter_spec() + 1) % 0x1_0000_0000)
                as u32 && h2.last_read_spec() == h.last_read_spec() && h2.is_armed()
                == h.is_armed()),
            old(self).notifier_spec() is None ==> *final(self) == *old(self),
    {
        if let Some(n) = &mut self.notifier {
            n.record_edge();
        }
    }

    /// Waits until the current transfer completes.
    ///
    /// With a notification handle configured, this consumes one edge from it
    /// and immediately re-arms it; omitting the re-arm would make every
    /// future wait on this engine hang forever. Without one, it polls the
    /// IRQ counter register: completion is one poll observing a value
    /// different from the snapshot captured at the start of the transfer.
    /// In this synchronous model a wait that is not yet satisfiable returns
    /// `NotificationIoFailure` instead of blocking; a caller driving real
    /// hardware re-polls (with its own backoff) until the register moves.
    pub fn wait_for_completion(&mut self) -> (r: Result<(), DriverError>)
        requires
            old(self).wf(),
        ensures
            final(self).wf(),
            final(self).window() == old(self).window(),
            final(self).irq_snapshot() == old(self).irq_snapshot(),
            final(self).programmed_spec() == old(self).programmed_spec(),
            final(self).count_spec() == old(self).count_spec(),
            old(self).notifier_spec() matches Some(h) ==> {
                &&& (r is Ok <==> h.wait_succeeds())
                &&& r is Ok ==> (final(self).notifier_spec() matches Some(h2) && h2.is_armed()
                    && !h2.is_pending() && h2.counter_spec() == h.counter_spec())
                &&& r is Err ==> *final(self) == *old(self) && r->Err_0
                    == DriverError::NotificationIoFailure
            },
            old(self).notifier_spec() is None ==> {
                &&& *final(self) == *old(self)
                &&& (r is Ok <==> (DMA_IRQ_COUNT_OFFSET + 4 <= old(self).window().len()
                    && load_word(old(self).window(), DMA_IRQ_COUNT_OFFSET as int) != old(
                    self,
                ).irq_snapshot()))
                &&& old(self).window().len() < DMA_IRQ_COUNT_OFFSET + 4 && r is Err ==> r->Err_0
                    == DriverError::OutOfBounds
                &&& DMA_IRQ_COUNT_OFFSET + 4 <= old(self).window().len() && r is Err ==> r->Err_0
                    == DriverError::NotificationIoFailure
            },
    {
        if let Some(n) = &mut self.notifier {
            match n.wait() {
                Ok(_) => {
                    n.rearm();
                    Ok(())
                },
                Err(e) => Err(e),
            }
        } else {
            let snapshot = self.irq_count;
            match self.mmap.read(DMA_IRQ_COUNT_OFFSET) {
                Ok(v) => {
                    if v != snapshot {
                        Ok(())
                    } else {
                        Err(DriverError::NotificationIoFailure)
                    }
                },
                Err(e) => Err(e),
            }
        }
    }

    /// Reads the buffer-written flags word, clears it by writing zero (a
    /// read-then-clear pair, not atomic: a buffer-complete event between the
    /// two operations is lost), then dumps the fixed small range of status
    /// words after it for diagnostics.
    pub fn read_status(&mut self) -> (r: Result<DmaStatus, DriverError>)
        requires
            old(self).wf(),
        ensures
            final(self).wf(),
            final(self).irq_snapshot() == old(self).irq_snapshot(),
            final(self).notifier_spec() == old(self).notifier_spec(),
            final(self).programmed_spec() == old(self).programmed_spec(),
            final(self).count_spec() == old(self).count_spec(),
            r is Ok <==> 0x24 <= old(self).window().len(),
            r matches Ok(st) ==> {
                &&& st.flags == load_word(old(self).window(), DMA_BUFFER_WRITTEN_FLAGS_OFFSET as int)
                &&& final(self).window() == store_word(
                    old(self).window(),
                    DMA_BUFFER_WRITTEN_FLAGS_OFFSET as int,
                    0,
                )
                &&& load_word(final(self).window(), DMA_BUFFER_WRITTEN_FLAGS_OFFSET as int) == 0
                &&& st.diagnostics@.len() == 7
                &&& forall|k: int|
                    0 <= k < 7 ==> st.diagnostics@[k] == load_word(
                        old(self).window(),
                        0x8 + 4 * k,
                    )
            },
            r is Err ==> final(self).window() == old(self).window() && r->Err_0
                == DriverError::OutOfBounds,
    {
        if self.mmap.size() < 0x24 {
            return Err(DriverError::OutOfBounds);
        }
        let flags = match self.mmap.read(DMA_BUFFER_WRITTEN_FLAGS_OFFSET) {
            Ok(v) => v,
            Err(e) => {
                return Err(e);
            },
        };
        let _ = self.mmap.write(DMA_BUFFER_WRITTEN_FLAGS_OFFSET, 0x0);
        proof {
            lemma_store_load(old(self).window(), DMA_BUFFER_WRITTEN_FLAGS_OFFSET as int, 0);
        }
        let mut diagnostics: Vec<u32> = Vec::new();
        let mut i: usize = 0;
        while i < 7
            invariant
                self.wf(),
                0x24 <= old(self).window().len(),
                self.window() == store_word(
                    old(self).window(),
                    DMA_BUFFER_WRITTEN_FLAGS_OFFSET as int,
                    0,
                ),
                self.irq_snapshot() == old(self).irq_snapshot(),
                self.notifier_spec() == old(self).notifier_spec(),
                self.programmed_spec() == old(self).programmed_spec(),
                self.count_spec() == old(self).count_spec(),
                i <= 7,
                diagnostics@.len() == i,
                forall|k: int|
                    0 <= k < i ==> diagnostics@[k] == load_word(old(self).window(), 0x8 + 4 * k),
            decreases 7 - i,
        {
            let off = 0x8 + 4 * i;
            proof {
                lemma_store_load_disjoint(
                    old(self).window(),
                    DMA_BUFFER_WRITTEN_FLAGS_OFFSET as int,
                    0,
                    off as int,
                );
            }
            match self.mmap.read(off) {
                Ok(v) => diagnostics.push(v),
                Err(e) => {
                    return Err(e);
                },
            }
            i = i + 1;
        }
        Ok(DmaStatus { flags, diagnostics })
    }

    /// Gives the register window back, ending the engine's ownership of it.
    pub fn release(self) -> (w: MemoryMap)
        ensures
            w@ == self.window(),
            self.wf() ==> w.wf(),
    {
        let DmaController { mmap, .. } = self;
        mmap
    }
}

} // verus!
