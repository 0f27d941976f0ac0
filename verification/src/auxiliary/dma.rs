use vstd::prelude::*;

verus! {

pub const VRAM_DMA_ADDR_START: u16 = 0xFF51;
pub const VRAM_DMA_ADDR_END: u16 = 0xFF55;
pub const OAM_ADDR_START: u16 = 0xFE00;
pub const ECHO_MIRROR_OFFSET: u16 = 0x2000;
/// Bytes an OAM DMA transfer copies.
pub const OAM_DMA_LEN: u16 = 160;

/// One byte to copy: from `src` to `dst`.
#[derive(Debug, Clone, Copy, PartialEq, Eq, Structural)]
pub struct ByteCopy {
    pub src: u16,
    pub dst: u16,
}

// ---------------------------------------------------------------------------
// OAM DMA
// ---------------------------------------------------------------------------

/// OAM DMA: copies 160 bytes from `src_addr` to object attribute memory,
/// one byte per M-cycle, after a start delay of two cycles.
#[derive(Debug, Clone, Copy, Default)]
pub struct OamDma {
    pub is_active: bool,
    pub current_index: u16,
    pub src_addr: u16,
    pub start_delay: u8,
    pub queue_addr: Option<u16>,
}

/// DMA from 0xFE00 and above reads the extended echo RAM instead.
pub open spec fn dma_source(addr: u16) -> u16 {
    if addr >= 0xFE00 {
        (addr - ECHO_MIRROR_OFFSET) as u16
    } else {
        addr
    }
}

/// What starting a transfer from page `address` does.
pub open spec fn oam_dma_start_post(pre: OamDma, address: u8, post: OamDma) -> bool {
    &&& post.start_delay == 2
    &&& post.is_active
    &&& if pre.is_active {
        &&& post.queue_addr == Some(((address as u16) * 256) as u16)
        &&& post.src_addr == pre.src_addr
        &&& post.current_index == pre.current_index
    } else {
        &&& post.queue_addr == pre.queue_addr
        &&& post.src_addr == (address as u16) * 256
        &&& post.current_index == 0
    }
}

/// The transfer's state stays within what `tick` handles: the cursor within
/// the 160 bytes (and short of the end while active), the source pages at
/// most 0xFF00.
pub open spec fn oam_dma_ok(d: OamDma) -> bool {
    &&& d.current_index <= OAM_DMA_LEN
    &&& d.is_active ==> d.current_index < OAM_DMA_LEN
    &&& d.src_addr <= 0xFF00
    &&& d.queue_addr is Some ==> d.queue_addr->0 <= 0xFF00
}

/// One M-cycle of the transfer as a function: the state after it and the
/// byte it copies, if any.
pub open spec fn oam_tick_spec(d: OamDma) -> (OamDma, Option<ByteCopy>) {
    if !d.is_active {
        (d, None)
    } else if d.start_delay > 0 && d.queue_addr is None {
        (OamDma { start_delay: (d.start_delay - 1) as u8, ..d }, None)
    } else {
        let restart = d.start_delay == 0 && d.queue_addr is Some;
        let src = if restart {
            d.queue_addr->0
        } else {
            d.src_addr
        };
        let index: u16 = if restart {
            0
        } else {
            d.current_index
        };
        (
            OamDma {
                is_active: index + 1 < OAM_DMA_LEN,
                current_index: (index + 1) as u16,
                src_addr: src,
                start_delay: if d.start_delay > 0 {
                    (d.start_delay - 1) as u8
                } else {
                    0
                },
                queue_addr: if restart {
                    None
                } else {
                    d.queue_addr
                },
            },
            Some(ByteCopy { src: dma_source((src + index) as u16), dst: (OAM_ADDR_START + index) as u16 }),
        )
    }
}

/// The transfer after `k` M-cycles.
pub open spec fn oam_after(d: OamDma, k: nat) -> OamDma
    decreases k,
{
    if k == 0 {
        d
    } else {
        oam_tick_spec(oam_after(d, (k - 1) as nat)).0
    }
}

/// A tick keeps the transfer's state within what `tick` handles.
pub proof fn lemma_oam_tick_ok(d: OamDma)
    requires
        oam_dma_ok(d),
    ensures
        oam_dma_ok(oam_tick_spec(d).0),
{
}

impl OamDma {
    /// Starts a transfer from page `address`; a transfer already running
    /// continues while the new one waits out its start delay.
    pub fn start(&mut self, address: u8)
        ensures
            oam_dma_start_post(*old(self), address, *final(self)),
    {
        let page = (address as u16) << 8u16;
        assert(page == (address as u16) * 256) by (bit_vector)
            requires
                page == (address as u16) << 8u16,
        ;
        if self.is_active {
            self.queue_addr = Some(page);
        } else {
            self.src_addr = page;
            self.current_index = 0;
        }
        self.start_delay = 2;
        self.is_active = true;
    }

    /// OAM is blocked: a transfer runs past its start delay, or one is
    /// restarting.
    pub fn is_transferring(&self) -> (r: bool)
        ensures
            r == (self.is_active && (self.start_delay == 0 || self.queue_addr is Some)),
    {
        self.is_active && (self.start_delay == 0 || self.queue_addr.is_some())
    }

    /// One M-cycle of the transfer. Returns the byte the cycle copies into
    /// OAM, if any, and advances the cursor; a queued transfer takes over
    /// once the start delay is over.
    pub fn tick(&mut self) -> (r: Option<ByteCopy>)
        requires
            old(self).queue_addr is Some ==> old(self).queue_addr->0 <= 0xFF00,
            old(self).current_index < 0x200,
            old(self).src_addr as int + old(self).current_index <= 0xFFFF,
        ensures
            (*final(self), r) == oam_tick_spec(*old(self)),
            !old(self).is_active ==> r is None && *final(self) == *old(self),
            old(self).is_active && old(self).start_delay > 0 && old(self).queue_addr is None ==> {
                &&& r is None
                &&& *final(self) == (OamDma {
                    start_delay: (old(self).start_delay - 1) as u8,
                    ..*old(self)
                })
            },
            old(self).is_active && !(old(self).start_delay > 0 && old(self).queue_addr is None)
                ==> {
                let restart = old(self).start_delay == 0 && old(self).queue_addr is Some;
                let src = if restart {
                    old(self).queue_addr->0
                } else {
                    old(self).src_addr
                };
                let index: u16 = if restart {
                    0
                } else {
                    old(self).current_index
                };
                &&& r == Some(
                    ByteCopy {
                        src: dma_source((src + index) as u16),
                        dst: (OAM_ADDR_START + index) as u16,
                    },
                )
                &&& final(self).src_addr == src
                &&& final(self).current_index == index + 1
                &&& final(self).is_active == (index + 1 < OAM_DMA_LEN)
                &&& final(self).start_delay == if old(self).start_delay > 0 {
                    (old(self).start_delay - 1) as u8
                } else {
                    0
                }
                &&& final(self).queue_addr == if restart {
                    None
                } else {
                    old(self).queue_addr
                }
            },
    {
        if !self.is_active {
            return None;
        }
        if self.start_delay > 0 {
            self.start_delay = self.start_delay - 1;
            if self.queue_addr.is_none() {
                return None;
            }
        } else if let Some(queue_addr) = self.queue_addr {
            self.queue_addr = None;
            self.src_addr = queue_addr;
            self.current_index = 0;
        }
        let addr = self.src_addr + self.current_index;
        // DMA from high addresses reads an extended echo RAM instead
        let addr = if addr >= 0xFE00 {
            addr - ECHO_MIRROR_OFFSET
        } else {
            addr
        };
        let dest_addr = OAM_ADDR_START + self.current_index;
        self.current_index = self.current_index.wrapping_add(1);
        self.is_active = self.current_index < OAM_DMA_LEN;
        Some(ByteCopy { src: addr, dst: dest_addr })
    }
}

// ---------------------------------------------------------------------------
// VRAM DMA (CGB)
// ---------------------------------------------------------------------------

/// HDMA1-HDMA2 give the source, with the low four bits ignored.
pub open spec fn vram_dma_src(hdma1: u8, hdma2: u8) -> u16 {
    ((hdma1 as u16) << 8u16) | ((hdma2 as u16) & 0xF0)
}

/// HDMA3-HDMA4 give the destination inside VRAM (0x8000-0x9FF0).
pub open spec fn vram_dma_dst(hdma3: u8, hdma4: u8) -> u16 {
    0x8000u16 | (((hdma3 as u16) & 0x1F) << 8u16) | ((hdma4 as u16) & 0xF0)
}

/// The offset of the `k`-th copy of a block from the block's start: the
/// source and destination cursors step by 0, 1, 2, ... 15 before each copy.
pub open spec fn block_step(k: int) -> int {
    k * (k + 1) / 2
}

/// The sixteen copies of a block starting at `src` and `dst`.
pub open spec fn block_copies(src: u16, dst: u16) -> Seq<ByteCopy> {
    Seq::new(
        16,
        |k: int| ByteCopy { src: (src + block_step(k)) as u16, dst: (dst + block_step(k)) as u16 },
    )
}

/// How far one block moves both cursors.
pub const BLOCK_ADVANCE: u16 = 120;

/// The copies of `n` blocks starting at `src` and `dst`.
pub open spec fn blocks_copies(src: u16, dst: u16, n: nat) -> Seq<ByteCopy>
    decreases n,
{
    if n == 0 {
        Seq::empty()
    } else {
        block_copies(src, dst) + blocks_copies(
            (src + BLOCK_ADVANCE) as u16,
            (dst + BLOCK_ADVANCE) as u16,
            (n - 1) as nat,
        )
    }
}

/// A transfer of `n` blocks copies sixteen bytes per block.
pub proof fn lemma_blocks_copies_len(src: u16, dst: u16, n: nat)
    ensures
        blocks_copies(src, dst, n).len() == 16 * n,
    decreases n,
{
    if n > 0 {
        lemma_blocks_copies_len((src + BLOCK_ADVANCE) as u16, (dst + BLOCK_ADVANCE) as u16, (n - 1) as nat);
    }
}

/// What writing `value` to HDMA register `addr` does: HDMA1-HDMA4 latch the
/// address bytes (masked), HDMA5 starts or stops a transfer; no other
/// address has an effect.
pub open spec fn vram_dma_write_post(pre: VramDma, addr: u16, value: u8, post: VramDma, r: Seq<ByteCopy>) -> bool {
    &&& addr == 0xFF51 ==> r.len() == 0 && post == (VramDma { hdma1: value, ..pre })
    &&& addr == 0xFF52 ==> r.len() == 0 && post == (VramDma { hdma2: value & 0xF0, ..pre })
    &&& addr == 0xFF53 ==> r.len() == 0 && post == (VramDma { hdma3: value & 0x1F, ..pre })
    &&& addr == 0xFF54 ==> r.len() == 0 && post == (VramDma { hdma4: value & 0xF0, ..pre })
    &&& addr == 0xFF55 ==> vram_dma_start_post(pre, value, post, r)
    &&& !(0xFF51 <= addr <= 0xFF55) ==> r.len() == 0 && post == pre
}

/// CGB VRAM DMA: general-purpose (all blocks at once) or one 16-byte block
/// per HBlank.
#[derive(Debug, Clone, Copy, Default)]
pub struct VramDma {
    pub hblank_active: bool,
    pub src: u16,
    pub dst: u16,
    pub blocks_remaining: u8,
    pub hdma1: u8,
    pub hdma2: u8,
    pub hdma3: u8,
    pub hdma4: u8,
}

impl VramDma {
    /// Writes HDMA1-HDMA5. Returns the copies a general-purpose transfer
    /// started by the write performs at once.
    pub fn write(&mut self, addr: u16, value: u8) -> (r: Vec<ByteCopy>)
        requires
            addr == 0xFF55 && !(old(self).hblank_active && value & 0x80 == 0) ==> {
                &&& vram_dma_src(old(self).hdma1, old(self).hdma2) + ((value & 0x7F) + 1)
                    * BLOCK_ADVANCE <= 0xFFFF
                &&& vram_dma_dst(old(self).hdma3, old(self).hdma4) + ((value & 0x7F) + 1)
                    * BLOCK_ADVANCE <= 0xFFFF
            },
        ensures
            vram_dma_write_post(*old(self), addr, value, *final(self), r@),
    {
        if addr == 0xFF51 {
            self.hdma1 = value;
            Vec::new()
        } else if addr == 0xFF52 {
            self.hdma2 = value & 0xF0;
            Vec::new()
        } else if addr == 0xFF53 {
            self.hdma3 = value & 0x1F;
            Vec::new()
        } else if addr == 0xFF54 {
            self.hdma4 = value & 0xF0;
            Vec::new()
        } else if addr == 0xFF55 {
            self.start(value)
        } else {
            Vec::new()
        }
    }

    /// HDMA5 as read: 0x80 | (blocks left - 1) while an HBlank transfer
    /// runs, 0xFF otherwise.
    pub fn read(&self) -> (r: u8)
        requires
            self.hblank_active ==> self.blocks_remaining > 0,
        ensures
            r == if self.hblank_active {
                0x80u8 | ((self.blocks_remaining - 1) as u8)
            } else {
                0xFFu8
            },
    {
        if self.hblank_active {
            0x80 | (self.blocks_remaining - 1)
        } else {
            0xFF
        }
    }

    /// At the start of an HBlank, an active HBlank transfer copies one block.
    pub fn tick_hblank(&mut self) -> (r: Vec<ByteCopy>)
        requires
            old(self).hblank_active ==> {
                &&& old(self).blocks_remaining > 0
                &&& old(self).src + BLOCK_ADVANCE <= 0xFFFF
                &&& old(self).dst + BLOCK_ADVANCE <= 0xFFFF
            },
        ensures
            !old(self).hblank_active ==> r@.len() == 0 && *final(self) == *old(self),
            old(self).hblank_active ==> {
                &&& r@ == block_copies(old(self).src, old(self).dst)
                &&& *final(self) == (VramDma {
                    src: (old(self).src + BLOCK_ADVANCE) as u16,
                    dst: (old(self).dst + BLOCK_ADVANCE) as u16,
                    blocks_remaining: (old(self).blocks_remaining - 1) as u8,
                    hblank_active: old(self).blocks_remaining != 1,
                    ..*old(self)
                })
            },
    {
        let mut copies = Vec::new();
        if !self.hblank_active {
            return copies;
        }
        self.copy_block(&mut copies);
        assert(copies@ =~= block_copies(old(self).src, old(self).dst));
        self.blocks_remaining = self.blocks_remaining - 1;
        if self.blocks_remaining == 0 {
            self.hblank_active = false;
        }
        copies
    }

    fn start(&mut self, value: u8) -> (r: Vec<ByteCopy>)
        requires
            !(old(self).hblank_active && value & 0x80 == 0) ==> {
                &&& vram_dma_src(old(self).hdma1, old(self).hdma2) + ((value & 0x7F) + 1)
                    * BLOCK_ADVANCE <= 0xFFFF
                &&& vram_dma_dst(old(self).hdma3, old(self).hdma4) + ((value & 0x7F) + 1)
                    * BLOCK_ADVANCE <= 0xFFFF
            },
        ensures
            vram_dma_start_post(*old(self), value, *final(self), r@),
    {
        let mut copies = Vec::new();
        // cancellation of an HBlank transfer
        if self.hblank_active && (value & 0x80) == 0 {
            self.hblank_active = false;
            return copies;
        }
        assert((value & 0x7F) < 0x80) by (bit_vector);
        let blocks = (value & 0x7F) + 1;
        self.src = Self::compute_src(self);
        self.dst = Self::compute_dst(self);
        self.blocks_remaining = blocks;
        if value & 0x80 == 0 {
            // general-purpose DMA: everything at once
            self.do_gdma(&mut copies);
        } else {
            self.hblank_active = true;
        }
        copies
    }

    fn do_gdma(&mut self, copies: &mut Vec<ByteCopy>)
        requires
            old(self).src + old(self).blocks_remaining * BLOCK_ADVANCE <= 0xFFFF,
            old(self).dst + old(self).blocks_remaining * BLOCK_ADVANCE <= 0xFFFF,
        ensures
            final(copies)@ == old(copies)@ + blocks_copies(
                old(self).src,
                old(self).dst,
                old(self).blocks_remaining as nat,
            ),
            *final(self) == (VramDma {
                src: (old(self).src + old(self).blocks_remaining * BLOCK_ADVANCE) as u16,
                dst: (old(self).dst + old(self).blocks_remaining * BLOCK_ADVANCE) as u16,
                blocks_remaining: 0,
                hblank_active: false,
                ..*old(self)
            }),
    {
        let blocks = self.blocks_remaining;
        let mut i: u8 = 0;
        while i < blocks
            invariant
                i <= blocks,
                blocks == old(self).blocks_remaining,
                self.src == old(self).src + i * BLOCK_ADVANCE,
                self.dst == old(self).dst + i * BLOCK_ADVANCE,
                old(self).src + blocks * BLOCK_ADVANCE <= 0xFFFF,
                old(self).dst + blocks * BLOCK_ADVANCE <= 0xFFFF,
                *self == (VramDma { src: self.src, dst: self.dst, ..*old(self) }),
                copies@ + blocks_copies(self.src, self.dst, (blocks - i) as nat) == old(copies)@
                    + blocks_copies(old(self).src, old(self).dst, blocks as nat),
            decreases blocks - i,
        {
            let ghost before = copies@;
            let ghost s0 = self.src;
            let ghost d0 = self.dst;
            self.copy_block(copies);
            assert(blocks_copies(s0, d0, (blocks - i) as nat) == block_copies(s0, d0)
                + blocks_copies(self.src, self.dst, (blocks - i - 1) as nat));
            assert(copies@ == before + block_copies(s0, d0));
            assert(copies@ + blocks_copies(self.src, self.dst, (blocks - i - 1) as nat) =~= before
                + blocks_copies(s0, d0, (blocks - i) as nat));
            i = i + 1;
        }
        assert(blocks_copies(self.src, self.dst, 0) =~= Seq::<ByteCopy>::empty());
        assert(copies@ =~= copies@ + blocks_copies(self.src, self.dst, 0));
        self.blocks_remaining = 0;
        self.hblank_active = false;
    }

    /// Copies one block: 16 bytes, the cursors stepping by 0, 1, ..., 15.
    fn copy_block(&mut self, copies: &mut Vec<ByteCopy>)
        requires
            old(self).src + BLOCK_ADVANCE <= 0xFFFF,
            old(self).dst + BLOCK_ADVANCE <= 0xFFFF,
        ensures
            final(copies)@ == old(copies)@ + block_copies(old(self).src, old(self).dst),
            *final(self) == (VramDma {
                src: (old(self).src + BLOCK_ADVANCE) as u16,
                dst: (old(self).dst + BLOCK_ADVANCE) as u16,
                ..*old(self)
            }),
    {
        let mut src = self.src;
        let mut dst = self.dst;
        let mut i: u16 = 0;
        while i < 0x10
            invariant
                i <= 0x10,
                src == old(self).src + block_step(i - 1),
                dst == old(self).dst + block_step(i - 1),
                old(self).src + BLOCK_ADVANCE <= 0xFFFF,
                old(self).dst + BLOCK_ADVANCE <= 0xFFFF,
                copies@ == old(copies)@ + block_copies(old(self).src, old(self).dst).take(i as int),
            decreases 0x10 - i,
        {
            proof {
                assert(block_step(i as int) == block_step(i - 1) + i) by (nonlinear_arith)
                    requires
                        0 <= i < 16,
                ;
                assert(block_step(i as int) <= 120) by (nonlinear_arith)
                    requires
                        0 <= i < 16,
                ;
            }
            src = src + i;
            dst = dst + i;
            copies.push(ByteCopy { src, dst });
            proof {
                assert(block_copies(old(self).src, old(self).dst).take(i + 1) =~= block_copies(
                    old(self).src,
                    old(self).dst,
                ).take(i as int).push(ByteCopy { src, dst }));
            }
            i = i + 1;
        }
        assert(block_copies(old(self).src, old(self).dst).take(16) =~= block_copies(
            old(self).src,
            old(self).dst,
        ));
        assert(block_step(15) == 120) by (nonlinear_arith);
        self.src = src;
        self.dst = dst;
    }

    fn compute_src(dma: &VramDma) -> (r: u16)
        ensures
            r == vram_dma_src(dma.hdma1, dma.hdma2),
    {
        ((dma.hdma1 as u16) << 8u16) | ((dma.hdma2 as u16) & 0xF0)
    }

    fn compute_dst(dma: &VramDma) -> (r: u16)
        ensures
            r == vram_dma_dst(dma.hdma3, dma.hdma4),
    {
        0x8000u16 | (((dma.hdma3 as u16) & 0x1F) << 8u16) | ((dma.hdma4 as u16) & 0xF0)
    }
}

/// What writing `value` to HDMA5 does: with bit 7 clear during an HBlank
/// transfer it cancels it; otherwise it latches source, destination and
/// block count ((value & 0x7F) + 1) and either copies every block at once
/// (bit 7 clear) or arms the HBlank transfer (bit 7 set).
pub open spec fn vram_dma_start_post(pre: VramDma, value: u8, post: VramDma, copies: Seq<
    ByteCopy,
>) -> bool {
    let blocks = ((value & 0x7F) + 1) as u8;
    let src = vram_dma_src(pre.hdma1, pre.hdma2);
    let dst = vram_dma_dst(pre.hdma3, pre.hdma4);
    if pre.hblank_active && value & 0x80 == 0 {
        copies.len() == 0 && post == (VramDma { hblank_active: false, ..pre })
    } else if value & 0x80 == 0 {
        &&& copies == blocks_copies(src, dst, blocks as nat)
        &&& post == (VramDma {
            src: (src + blocks * BLOCK_ADVANCE) as u16,
            dst: (dst + blocks * BLOCK_ADVANCE) as u16,
            blocks_remaining: 0,
            hblank_active: false,
            ..pre
        })
    } else {
        &&& copies.len() == 0
        &&& post == (VramDma {
            src,
            dst,
            blocks_remaining: blocks,
            hblank_active: true,
            ..pre
        })
    }
}

} // verus!
