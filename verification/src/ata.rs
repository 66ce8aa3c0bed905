//! Polled block-storage driver: 28-bit logical block addressing, 512-byte
//! sectors, busy-wait status polling, explicit error surfacing.
//!
//! The driver speaks to an eight-register device file (data, error, sector
//! count, sector number, cylinder low, cylinder high, drive/head,
//! command/status at byte offsets zero through seven from a configured base
//! address).  Here the register file is a software double that models the
//! device: a byte-addressed disk image, the programmed register latches, and
//! a fault-injection hook, so the whole polling protocol is verified and
//! testable without hardware.
//!
//! An operation programs the address registers — sector number takes LBA bits
//! 0–7, cylinder low bits 8–15, cylinder high bits 16–23, and the low nibble
//! of drive/head bits 24–27 with the extended-addressing bits set — issues the
//! read or write opcode, moves whole sectors through the data register, and
//! then reads the error register: zero reports success, anything else is
//! handed to the caller as an explicit failure, with no retry.  A write whose
//! buffer ends short of the last sector pads the tail with zero bytes; a read
//! into a short buffer fills only the room the buffer has.

use vstd::prelude::*;

verus! {

/// Status bit: command in progress.
pub const STATUS_BSY: u8 = 0x80;

/// Status bit: device ready.
pub const STATUS_RDY: u8 = 0x40;

/// Status bit: device ready to transfer a data byte.
pub const STATUS_DRQ: u8 = 0x08;

/// Status bit: device fault.
pub const STATUS_DF: u8 = 0x20;

/// Status bit: error register holds a code.
pub const STATUS_ERR: u8 = 0x01;

/// Command opcode: read sectors.
pub const READ_COMMAND: u8 = 0x20;

/// Command opcode: write sectors.
pub const WRITE_COMMAND: u8 = 0x30;

/// Bytes per sector.
pub const SECTOR_BYTES: usize = 512;

/// Error-register code the double reports when an operation runs past the end
/// of the disk (address not found).
pub const ERR_RANGE: u8 = 0x10;

/// Sectors a device created by [`AtaDevice::from_address`] models.
pub const DEFAULT_SECTORS: u16 = 64;

/// Largest 28-bit logical block address, plus one.
pub const LBA_LIMIT: u32 = 0x1000_0000;

enum Phase {
    Idle,
    Writing,
    Reading,
}

/// The register-file software double: the eight-register interface backed by
/// a modeled device with a disk image and an injectable fault.
struct AtaBus {
    base: u16,
    disk: Vec<u8>,
    fault: u8,
    error: u8,
    sector_count: u8,
    sector_number: u8,
    cylinder_low: u8,
    cylinder_high: u8,
    drive_head: u8,
    phase: Phase,
    pos: u64,
    end: u64,
}

/// The 28-bit address the four address latches currently hold.
spec fn latched_lba(b: AtaBus) -> int {
    b.sector_number + b.cylinder_low * 0x100 + b.cylinder_high * 0x10000 + (b.drive_head & 0xF)
        * 0x1000000
}

impl AtaBus {
    spec fn wf(&self) -> bool {
        &&& self.disk@.len() <= 0x2000000
        &&& !(self.phase is Idle) ==> self.pos <= self.end <= 0x4000000000u64
    }

    fn new(base: u16, sectors: u16) -> (b: AtaBus)
        ensures
            b.wf(),
            b.phase is Idle,
            b.disk@.len() == sectors as int * SECTOR_BYTES,
            forall|i: int| 0 <= i < b.disk@.len() ==> b.disk@[i] == 0,
            b.fault == 0,
            b.error == 0,
            b.base == base,
    {
        let total: usize = (sectors as usize) * SECTOR_BYTES;
        let mut disk: Vec<u8> = Vec::new();
        while disk.len() < total
            invariant
                disk@.len() <= total,
                forall|i: int| 0 <= i < disk@.len() ==> disk@[i] == 0,
            decreases total - disk@.len(),
        {
            disk.push(0u8);
        }
        AtaBus {
            base,
            disk,
            fault: 0,
            error: 0,
            sector_count: 0,
            sector_number: 0,
            cylinder_low: 0,
            cylinder_high: 0,
            drive_head: 0,
            phase: Phase::Idle,
            pos: 0,
            end: 0,
        }
    }

    /// Register write at offset 2.
    fn write_sector_count(&mut self, v: u8)
        ensures
            *final(self) == (AtaBus { sector_count: v, ..*old(self) }),
    {
        self.sector_count = v;
    }

    /// Register write at offset 3 (LBA bits 0–7).
    fn write_sector_number(&mut self, v: u8)
        ensures
            *final(self) == (AtaBus { sector_number: v, ..*old(self) }),
    {
        self.sector_number = v;
    }

    /// Register write at offset 4 (LBA bits 8–15).
    fn write_cylinder_low(&mut self, v: u8)
        ensures
            *final(self) == (AtaBus { cylinder_low: v, ..*old(self) }),
    {
        self.cylinder_low = v;
    }

    /// Register write at offset 5 (LBA bits 16–23).
    fn write_cylinder_high(&mut self, v: u8)
        ensures
            *final(self) == (AtaBus { cylinder_high: v, ..*old(self) }),
    {
        self.cylinder_high = v;
    }

    /// Register write at offset 6 (mode bits and LBA bits 24–27).
    fn write_drive_head(&mut self, v: u8)
        ensures
            *final(self) == (AtaBus { drive_head: v, ..*old(self) }),
    {
        self.drive_head = v;
    }

    /// Register read at offset 7: the status byte.  The modeled device
    /// finishes each step at once, so busy is never set; ready always is;
    /// data-request is set exactly while a transfer is open.
    fn read_status(&self) -> (r: u8)
        ensures
            r & STATUS_BSY == 0,
            (r & STATUS_DRQ != 0) == !(self.phase is Idle),
    {
        let mut s: u8 = STATUS_RDY;
        let busy_transfer = match &self.phase {
            Phase::Idle => false,
            _ => true,
        };
        if busy_transfer {
            s = s + STATUS_DRQ;
        }
        if self.error != 0 {
            s = s + STATUS_ERR;
        }
        assert(s == 0x40 || s == 0x48 || s == 0x41 || s == 0x49);
        assert((0x40u8 & 0x80u8 == 0) && (0x48u8 & 0x80u8 == 0) && (0x41u8 & 0x80u8 == 0) && (
        0x49u8 & 0x80u8 == 0) && (0x40u8 & 0x08u8 == 0) && (0x48u8 & 0x08u8 != 0) && (0x41u8
            & 0x08u8 == 0) && (0x49u8 & 0x08u8 != 0)) by (bit_vector);
        s
    }

    /// Register read at offset 1: the error register.
    fn read_error(&self) -> (r: u8)
        ensures
            r == self.error,
    {
        self.error
    }

    /// Register write at offset 7: issue a command.  The device latches the
    /// address and count, opens a transfer of `sector_count` whole sectors
    /// starting at the latched address, and clears the error register; a
    /// zero-sector command completes on the spot.
    fn write_command(&mut self, cmd: u8)
        requires
            old(self).wf(),
            old(self).phase is Idle,
            cmd == READ_COMMAND || cmd == WRITE_COMMAND,
        ensures
            final(self).wf(),
            final(self).disk@ == old(self).disk@,
            final(self).fault == old(self).fault,
            final(self).base == old(self).base,
            final(self).sector_count == old(self).sector_count,
            final(self).sector_number == old(self).sector_number,
            final(self).cylinder_low == old(self).cylinder_low,
            final(self).cylinder_high == old(self).cylinder_high,
            final(self).drive_head == old(self).drive_head,
            final(self).pos == latched_lba(*old(self)) * SECTOR_BYTES,
            final(self).end == latched_lba(*old(self)) * SECTOR_BYTES + old(self).sector_count
                * SECTOR_BYTES,
            old(self).sector_count == 0 ==> final(self).phase is Idle && final(self).error == (
            if latched_lba(*old(self)) * SECTOR_BYTES > old(self).disk@.len() {
                ERR_RANGE
            } else {
                old(self).fault
            }),
            old(self).sector_count != 0 ==> final(self).error == 0 && (if cmd == WRITE_COMMAND {
                final(self).phase is Writing
            } else {
                final(self).phase is Reading
            }),
    {
        let dh = self.drive_head;
        let nibble = dh & 0xF;
        assert(dh & 0xF < 16) by (bit_vector);
        let lba: u64 = (self.sector_number as u64) + (self.cylinder_low as u64) * 0x100 + (
        self.cylinder_high as u64) * 0x10000 + (nibble as u64) * 0x1000000;
        assert(lba < 0x10000000);
        let start: u64 = lba * 512;
        let span: u64 = (self.sector_count as u64) * 512;
        self.pos = start;
        self.end = start + span;
        if self.sector_count == 0 {
            self.error = if self.end > self.disk.len() as u64 {
                ERR_RANGE
            } else {
                self.fault
            };
        } else {
            self.error = 0;
            self.phase = if cmd == WRITE_COMMAND {
                Phase::Writing
            } else {
                Phase::Reading
            };
        }
    }

    /// Register write at offset 0: push one data byte of an open write
    /// transfer.  A byte aimed past the end of the disk is discarded.  The
    /// transfer completes when its last byte arrives: the device goes idle
    /// and the error register takes the operation's code — the range error if
    /// the transfer overran the disk, else the injected fault.
    fn write_data(&mut self, v: u8)
        requires
            old(self).wf(),
            old(self).phase is Writing,
            old(self).pos < old(self).end,
        ensures
            final(self).wf(),
            final(self).disk@ == (if old(self).pos < old(self).disk@.len() {
                old(self).disk@.update(old(self).pos as int, v)
            } else {
                old(self).disk@
            }),
            final(self).pos == old(self).pos + 1,
            final(self).end == old(self).end,
            final(self).fault == old(self).fault,
            final(self).base == old(self).base,
            final(self).sector_count == old(self).sector_count,
            final(self).sector_number == old(self).sector_number,
            final(self).cylinder_low == old(self).cylinder_low,
            final(self).cylinder_high == old(self).cylinder_high,
            final(self).drive_head == old(self).drive_head,
            old(self).pos + 1 == old(self).end ==> final(self).phase is Idle && final(self).error
                == (if old(self).end > old(self).disk@.len() {
                ERR_RANGE
            } else {
                old(self).fault
            }),
            old(self).pos + 1 < old(self).end ==> final(self).phase is Writing && final(self).error
                == old(self).error,
    {
        if self.pos < self.disk.len() as u64 {
            let i = self.pos as usize;
            self.disk[i] = v;
        }
        self.pos = self.pos + 1;
        if self.pos == self.end {
            self.phase = Phase::Idle;
            self.error = if self.end > self.disk.len() as u64 {
                ERR_RANGE
            } else {
                self.fault
            };
        }
    }

    /// Register read at offset 0: pull one data byte of an open read
    /// transfer.  A position past the end of the disk reads as zero.
    /// Completion mirrors [`AtaBus::write_data`].
    fn read_data(&mut self) -> (r: u8)
        requires
            old(self).wf(),
            old(self).phase is Reading,
            old(self).pos < old(self).end,
        ensures
            final(self).wf(),
            r == (if old(self).pos < old(self).disk@.len() {
                old(self).disk@[old(self).pos as int]
            } else {
                0u8
            }),
            final(self).disk@ == old(self).disk@,
            final(self).pos == old(self).pos + 1,
            final(self).end == old(self).end,
            final(self).fault == old(self).fault,
            final(self).base == old(self).base,
            final(self).sector_count == old(self).sector_count,
            final(self).sector_number == old(self).sector_number,
            final(self).cylinder_low == old(self).cylinder_low,
            final(self).cylinder_high == old(self).cylinder_high,
            final(self).drive_head == old(self).drive_head,
            old(self).pos + 1 == old(self).end ==> final(self).phase is Idle && final(self).error
                == (if old(self).end > old(self).disk@.len() {
                ERR_RANGE
            } else {
                old(self).fault
            }),
            old(self).pos + 1 < old(self).end ==> final(self).phase is Reading && final(self).error
                == old(self).error,
    {
        let r = if self.pos < self.disk.len() as u64 {
            let i = self.pos as usize;
            self.disk[i]
        } else {
            0u8
        };
        self.pos = self.pos + 1;
        if self.pos == self.end {
            self.phase = Phase::Idle;
            self.error = if self.end > self.disk.len() as u64 {
                ERR_RANGE
            } else {
                self.fault
            };
        }
        r
    }
}

/// First byte of the sector range at `lba`.
pub open spec fn lba_start(lba: u32) -> int {
    lba * SECTOR_BYTES
}

/// Bytes a `count`-sector transfer moves.
pub open spec fn transfer_len(count: u8) -> int {
    count * SECTOR_BYTES
}

/// The byte a write transfer sends at offset `i`: the caller's data where it
/// reaches, zero padding beyond its end.
pub open spec fn source_byte(data: Seq<u8>, i: int) -> u8 {
    if 0 <= i < data.len() {
        data[i]
    } else {
        0u8
    }
}

/// The byte a read transfer sees at disk position `j`; past the end of the
/// disk the data register reads as zero.
pub open spec fn disk_byte(disk: Seq<u8>, j: int) -> u8 {
    if 0 <= j < disk.len() {
        disk[j]
    } else {
        0u8
    }
}

/// The disk image after writing `count` sectors of `data` at `lba`: the
/// addressed range (as far as the disk reaches) holds the data padded with
/// zeroes, everything else is untouched.
pub open spec fn disk_after_write(disk: Seq<u8>, lba: u32, count: u8, data: Seq<u8>) -> Seq<u8> {
    Seq::new(
        disk.len(),
        |i: int|
            if lba_start(lba) <= i < lba_start(lba) + transfer_len(count) {
                source_byte(data, i - lba_start(lba))
            } else {
                disk[i]
            },
    )
}

/// The caller's buffer after reading `count` sectors at `lba` into it: filled
/// from the disk only as far as the buffer has room, the rest of the buffer
/// untouched, and never grown.
pub open spec fn buffer_after_read(buf: Seq<u8>, disk: Seq<u8>, lba: u32, count: u8) -> Seq<u8> {
    Seq::new(
        buf.len(),
        |i: int|
            if 0 <= i < transfer_len(count) {
                disk_byte(disk, lba_start(lba) + i)
            } else {
                buf[i]
            },
    )
}

/// The error register after a `count`-sector operation at `lba` on a disk of
/// `disk_len` bytes with `fault` injected: the range code when the operation
/// runs past the disk, else the injected fault (zero meaning success).
pub open spec fn op_error_code(disk_len: int, lba: u32, count: u8, fault: u8) -> u8 {
    if lba_start(lba) + transfer_len(count) > disk_len {
        ERR_RANGE
    } else {
        fault
    }
}

/// Polled block device: the driver plus the register-file double it programs.
pub struct AtaDevice {
    bus: AtaBus,
}

impl AtaDevice {
    /// The modeled disk image.
    pub closed spec fn disk(&self) -> Seq<u8> {
        self.bus.disk@
    }

    /// The fault code the double will report at the end of each operation.
    pub closed spec fn fault_code(&self) -> u8 {
        self.bus.fault
    }

    /// The error register.
    pub closed spec fn error_reg(&self) -> u8 {
        self.bus.error
    }

    pub closed spec fn sector_count_reg(&self) -> u8 {
        self.bus.sector_count
    }

    pub closed spec fn sector_number_reg(&self) -> u8 {
        self.bus.sector_number
    }

    pub closed spec fn cylinder_low_reg(&self) -> u8 {
        self.bus.cylinder_low
    }

    pub closed spec fn cylinder_high_reg(&self) -> u8 {
        self.bus.cylinder_high
    }

    pub closed spec fn drive_head_reg(&self) -> u8 {
        self.bus.drive_head
    }

    pub closed spec fn wf(&self) -> bool {
        self.bus.wf() && self.bus.phase is Idle
    }

    /// A device whose register file starts at the given base I/O address,
    /// with the default modeled geometry.
    pub fn from_address(start_address: u16) -> (d: AtaDevice)
        ensures
            d.wf(),
            d.disk().len() == DEFAULT_SECTORS as int * SECTOR_BYTES,
            forall|i: int| 0 <= i < d.disk().len() ==> d.disk()[i] == 0,
            d.fault_code() == 0,
    {
        AtaDevice::with_geometry(start_address, DEFAULT_SECTORS)
    }

    /// A device with a chosen number of modeled sectors, zero-filled.
    pub fn with_geometry(start_address: u16, sectors: u16) -> (d: AtaDevice)
        ensures
            d.wf(),
            d.disk().len() == sectors as int * SECTOR_BYTES,
            forall|i: int| 0 <= i < d.disk().len() ==> d.disk()[i] == 0,
            d.fault_code() == 0,
    {
        AtaDevice { bus: AtaBus::new(start_address, sectors) }
    }

    /// Makes every following operation end with this code in the error
    /// register: the fault-injection hook of the test double.
    pub fn inject_fault(&mut self, code: u8)
        requires
            old(self).wf(),
        ensures
            final(self).wf(),
            final(self).fault_code() == code,
            final(self).disk() == old(self).disk(),
            final(self).error_reg() == old(self).error_reg(),
    {
        self.bus.fault = code;
    }

    /// Poll the status register until the busy bit clears.
    fn wait_busy(&self) {
        let mut status = self.bus.read_status();
        while status & STATUS_BSY != 0
            invariant
                status & STATUS_BSY == 0,
            decreases 0int,
        {
            status = self.bus.read_status();
        }
    }

    /// Poll the status register until the data-request bit asserts.
    fn wait_drq(&self)
        requires
            !(self.bus.phase is Idle),
    {
        let mut status = self.bus.read_status();
        while status & STATUS_DRQ == 0
            invariant
                status & STATUS_DRQ != 0,
            decreases 0int,
        {
            status = self.bus.read_status();
        }
    }

    /// Write `sector_count` sectors starting at logical block address
    /// `sector_number`, taking the bytes from `data` in order and padding
    /// everything past its end with zeroes.  Returns `Some(())` exactly when
    /// the error register reads zero afterwards: the operation stayed on the
    /// disk and no fault was injected.
    #[verifier::loop_isolation(false)]
    pub fn write_sector(&mut self, sector_number: u32, sector_count: u8, data: &Vec<u8>) -> (r:
        Option<()>)
        requires
            old(self).wf(),
            sector_number < LBA_LIMIT,
        ensures
            final(self).wf(),
            final(self).disk() == disk_after_write(
                old(self).disk(),
                sector_number,
                sector_count,
                data@,
            ),
            final(self).error_reg() == op_error_code(
                old(self).disk().len() as int,
                sector_number,
                sector_count,
                old(self).fault_code(),
            ),
            r is Some <==> op_error_code(
                old(self).disk().len() as int,
                sector_number,
                sector_count,
                old(self).fault_code(),
            ) == 0,
            final(self).fault_code() == old(self).fault_code(),
            final(self).sector_count_reg() == sector_count,
            final(self).sector_number_reg() == sector_number as u8,
            final(self).cylinder_low_reg() == (sector_number >> 8) as u8,
            final(self).cylinder_high_reg() == (sector_number >> 16) as u8,
            final(self).drive_head_reg() == (0xE0u8 | ((sector_number >> 24) as u8 & 0xF)),
    {
        let ghost start = lba_start(sector_number);
        let ghost total = transfer_len(sector_count);
        self.wait_busy();
        self.bus.write_drive_head(0xE0 | ((sector_number >> 24) as u8 & 0xF));
        self.bus.write_sector_count(sector_count);
        self.bus.write_sector_number(sector_number as u8);
        self.bus.write_cylinder_low((sector_number >> 8) as u8);
        self.bus.write_cylinder_high((sector_number >> 16) as u8);
        proof {
            lemma_lba_split(sector_number);
            assert(latched_lba(self.bus) == sector_number);
        }
        self.bus.write_command(WRITE_COMMAND);
        let count = sector_count as usize;
        let mut s: usize = 0;
        while s < count
            invariant
                self.bus.wf(),
                self.bus.fault == old(self).bus.fault,
                self.bus.disk@.len() == old(self).bus.disk@.len(),
                self.bus.sector_count == sector_count,
                self.bus.sector_number == sector_number as u8,
                self.bus.cylinder_low == (sector_number >> 8) as u8,
                self.bus.cylinder_high == (sector_number >> 16) as u8,
                self.bus.drive_head == (0xE0u8 | ((sector_number >> 24) as u8 & 0xF)),
                s <= count,
                s < count ==> self.bus.phase is Writing && self.bus.pos == start + s * 512
                    && self.bus.end == start + total && self.bus.error == 0,
                s == count ==> self.bus.phase is Idle && self.bus.error == op_error_code(
                    old(self).bus.disk@.len() as int,
                    sector_number,
                    sector_count,
                    old(self).bus.fault,
                ),
                forall|i: int|
                    0 <= i < self.bus.disk@.len() ==> self.bus.disk@[i] == (if start <= i < start
                        + s * 512 {
                        source_byte(data@, i - start)
                    } else {
                        old(self).bus.disk@[i]
                    }),
            decreases count - s,
        {
            self.wait_busy();
            self.wait_drq();
            let mut b: usize = 0;
            while b < SECTOR_BYTES
                invariant
                    self.bus.wf(),
                    self.bus.fault == old(self).bus.fault,
                    self.bus.disk@.len() == old(self).bus.disk@.len(),
                    self.bus.sector_count == sector_count,
                    self.bus.sector_number == sector_number as u8,
                    self.bus.cylinder_low == (sector_number >> 8) as u8,
                    self.bus.cylinder_high == (sector_number >> 16) as u8,
                    self.bus.drive_head == (0xE0u8 | ((sector_number >> 24) as u8 & 0xF)),
                    s < count,
                    b <= SECTOR_BYTES,
                    self.bus.end == start + total,
                    s * 512 + b < total ==> self.bus.phase is Writing && self.bus.pos == start + s
                        * 512 + b && self.bus.error == 0,
                    s * 512 + b == total ==> self.bus.phase is Idle && self.bus.error
                        == op_error_code(
                        old(self).bus.disk@.len() as int,
                        sector_number,
                        sector_count,
                        old(self).bus.fault,
                    ),
                    forall|i: int|
                        0 <= i < self.bus.disk@.len() ==> self.bus.disk@[i] == (if start <= i
                            < start + s * 512 + b {
                            source_byte(data@, i - start)
                        } else {
                            old(self).bus.disk@[i]
                        }),
                decreases SECTOR_BYTES - b,
            {
                let idx = s * 512 + b;
                let v = if idx < data.len() {
                    data[idx]
                } else {
                    0u8
                };
                self.bus.write_data(v);
                b = b + 1;
            }
            s = s + 1;
        }
        self.wait_busy();
        proof {
            assert(self.bus.disk@ =~= disk_after_write(
                old(self).bus.disk@,
                sector_number,
                sector_count,
                data@,
            ));
        }
        let err = self.bus.read_error();
        if err == 0 {
            Some(())
        } else {
            None
        }
    }

    /// Read `sector_count` sectors starting at logical block address
    /// `sector_number` into `buffer`, filling only as many bytes as the buffer
    /// has room for and never growing it.  Returns `Some(())` exactly when the
    /// error register reads zero afterwards.
    #[verifier::loop_isolation(false)]
    pub fn read_sectors(&mut self, sector_number: u32, sector_count: u8, buffer: &mut Vec<u8>) -> (r:
        Option<()>)
        requires
            old(self).wf(),
            sector_number < LBA_LIMIT,
        ensures
            final(self).wf(),
            final(self).disk() == old(self).disk(),
            final(buffer)@ == buffer_after_read(
                old(buffer)@,
                old(self).disk(),
                sector_number,
                sector_count,
            ),
            final(self).error_reg() == op_error_code(
                old(self).disk().len() as int,
                sector_number,
                sector_count,
                old(self).fault_code(),
            ),
            r is Some <==> op_error_code(
                old(self).disk().len() as int,
                sector_number,
                sector_count,
                old(self).fault_code(),
            ) == 0,
            final(self).fault_code() == old(self).fault_code(),
            final(self).sector_count_reg() == sector_count,
            final(self).sector_number_reg() == sector_number as u8,
            final(self).cylinder_low_reg() == (sector_number >> 8) as u8,
            final(self).cylinder_high_reg() == (sector_number >> 16) as u8,
            final(self).drive_head_reg() == (0xE0u8 | ((sector_number >> 24) as u8 & 0xF)),
    {
        let ghost start = lba_start(sector_number);
        let ghost total = transfer_len(sector_count);
        self.wait_busy();
        self.bus.write_drive_head(0xE0 | ((sector_number >> 24) as u8 & 0xF));
        self.bus.write_sector_count(sector_count);
        self.bus.write_sector_number(sector_number as u8);
        self.bus.write_cylinder_low((sector_number >> 8) as u8);
        self.bus.write_cylinder_high((sector_number >> 16) as u8);
        proof {
            lemma_lba_split(sector_number);
            assert(latched_lba(self.bus) == sector_number);
        }
        self.bus.write_command(READ_COMMAND);
        let count = sector_count as usize;
        let mut s: usize = 0;
        while s < count
            invariant
                self.bus.wf(),
                self.bus.fault == old(self).bus.fault,
                self.bus.disk@ == old(self).bus.disk@,
                self.bus.sector_count == sector_count,
                self.bus.sector_number == sector_number as u8,
                self.bus.cylinder_low == (sector_number >> 8) as u8,
                self.bus.cylinder_high == (sector_number >> 16) as u8,
                self.bus.drive_head == (0xE0u8 | ((sector_number >> 24) as u8 & 0xF)),
                s <= count,
                s < count ==> self.bus.phase is Reading && self.bus.pos == start + s * 512
                    && self.bus.end == start + total && self.bus.error == 0,
                s == count ==> self.bus.phase is Idle && self.bus.error == op_error_code(
                    old(self).bus.disk@.len() as int,
                    sector_number,
                    sector_count,
                    old(self).bus.fault,
                ),
                buffer@.len() == old(buffer)@.len(),
                forall|i: int|
                    0 <= i < buffer@.len() ==> buffer@[i] == (if i < s * 512 {
                        disk_byte(old(self).bus.disk@, start + i)
                    } else {
                        old(buffer)@[i]
                    }),
            decreases count - s,
        {
            self.wait_busy();
            self.wait_drq();
            let mut b: usize = 0;
            while b < SECTOR_BYTES
                invariant
                    self.bus.wf(),
                    self.bus.fault == old(self).bus.fault,
                    self.bus.disk@ == old(self).bus.disk@,
                    self.bus.sector_count == sector_count,
                    self.bus.sector_number == sector_number as u8,
                    self.bus.cylinder_low == (sector_number >> 8) as u8,
                    self.bus.cylinder_high == (sector_number >> 16) as u8,
                    self.bus.drive_head == (0xE0u8 | ((sector_number >> 24) as u8 & 0xF)),
                    s < count,
                    b <= SECTOR_BYTES,
                    self.bus.end == start + total,
                    s * 512 + b < total ==> self.bus.phase is Reading && self.bus.pos == start + s
                        * 512 + b && self.bus.error == 0,
                    s * 512 + b == total ==> self.bus.phase is Idle && self.bus.error
                        == op_error_code(
                        old(self).bus.disk@.len() as int,
                        sector_number,
                        sector_count,
                        old(self).bus.fault,
                    ),
                    buffer@.len() == old(buffer)@.len(),
                    forall|i: int|
                        0 <= i < buffer@.len() ==> buffer@[i] == (if i < s * 512 + b {
                            disk_byte(old(self).bus.disk@, start + i)
                        } else {
                            old(buffer)@[i]
                        }),
                decreases SECTOR_BYTES - b,
            {
                let idx = s * 512 + b;
                let v = self.bus.read_data();
                if idx < buffer.len() {
                    buffer[idx] = v;
                }
                b = b + 1;
            }
            s = s + 1;
        }
        self.wait_busy();
        proof {
            assert(buffer@ =~= buffer_after_read(
                old(buffer)@,
                old(self).bus.disk@,
                sector_number,
                sector_count,
            ));
        }
        let err = self.bus.read_error();
        if err == 0 {
            Some(())
        } else {
            None
        }
    }

    /// Error register as last left by an operation.
    pub fn error_register(&self) -> (r: u8)
        ensures
            r == self.error_reg(),
    {
        self.bus.read_error()
    }

    pub fn sector_count_register(&self) -> (r: u8)
        ensures
            r == self.sector_count_reg(),
    {
        self.bus.sector_count
    }

    pub fn sector_number_register(&self) -> (r: u8)
        ensures
            r == self.sector_number_reg(),
    {
        self.bus.sector_number
    }

    pub fn cylinder_low_register(&self) -> (r: u8)
        ensures
            r == self.cylinder_low_reg(),
    {
        self.bus.cylinder_low
    }

    pub fn cylinder_high_register(&self) -> (r: u8)
        ensures
            r == self.cylinder_high_reg(),
    {
        self.bus.cylinder_high
    }

    pub fn drive_head_register(&self) -> (r: u8)
        ensures
            r == self.drive_head_reg(),
    {
        self.bus.drive_head
    }

    /// Bytes the modeled disk holds.
    pub fn disk_len(&self) -> (n: usize)
        ensures
            n == self.disk().len(),
    {
        self.bus.disk.len()
    }
}

/// A 28-bit logical block address split across the four address latches —
/// low byte, middle bytes, and top nibble inside the drive/head register —
/// reassembles to exactly the original address.
proof fn lemma_lba_split(lba: u32)
    by (bit_vector)
    requires
        lba < 0x10000000,
    ensures
        (lba as u8) + ((lba >> 8) as u8) * 0x100 + ((lba >> 16) as u8) * 0x10000 + (((0xE0u8 | ((lba
            >> 24) as u8 & 0xF)) & 0xF)) * 0x1000000 == lba,
{
}

/// Round trip through the device: after writing `count` sectors of `data` at
/// an in-range address, reading the same range back into any buffer
/// reproduces, wherever the buffer has room, exactly what the write put
/// there — the original bytes where `data` reached (so nothing is lost), and
/// zero padding beyond its end (so short writes are observably zero-padded).
pub proof fn lemma_write_read_round_trip(
    disk: Seq<u8>,
    buf: Seq<u8>,
    data: Seq<u8>,
    lba: u32,
    count: u8,
)
    requires
        lba_start(lba) + transfer_len(count) <= disk.len(),
    ensures
        ({
            let readback = buffer_after_read(buf, disk_after_write(disk, lba, count, data), lba, count);
            &&& readback.len() == buf.len()
            &&& forall|i: int|
                0 <= i < buf.len() && i < transfer_len(count) && i < data.len() ==> readback[i]
                    == data[i]
            &&& forall|i: int|
                0 <= i < buf.len() && i < transfer_len(count) && i >= data.len() ==> readback[i]
                    == 0
        }),
{
    let written = disk_after_write(disk, lba, count, data);
    let readback = buffer_after_read(buf, written, lba, count);
    assert forall|i: int| 0 <= i < buf.len() && i < transfer_len(count) implies readback[i]
        == source_byte(data, i) by {
        assert(written[lba_start(lba) + i] == source_byte(data, i));
    }
}


} // verus!
