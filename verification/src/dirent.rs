//! The binary encoding of directory entries for the getdents buffer: a
//! fixed 19-byte little-endian header (inode, offset to the next entry,
//! record length, type) followed by the name bytes.

use vstd::prelude::*;

verus! {

/// The length of the fixed part of an encoded directory entry.
pub const DIRENT_FIXED_SIZE: usize = 19;

/// The header of an entry has the fixed length.
pub proof fn lemma_dirent_header_len(e: DirEnt)
    ensures
        spec_dirent_header(e).len() == DIRENT_FIXED_SIZE,
{
    reveal(spec_dirent_header);
}

/// The type tag of a directory entry.
#[derive(Clone, Copy, Debug, PartialEq, Eq, Structural)]
pub enum FileType {
    /// Unknown.
    Unknown,
    /// Named pipe.
    Fifo,
    /// Character device.
    Chr,
    /// Directory.
    Dir,
    /// Block device.
    Blk,
    /// Regular file.
    Reg,
    /// Symbolic link.
    Lnk,
    /// Socket.
    Socket,
    /// Whiteout.
    Wht,
}

impl FileType {
    /// The numeric type tag of the encoding.
    pub open spec fn spec_code(self) -> u8 {
        match self {
            FileType::Unknown => 0,
            FileType::Fifo => 1,
            FileType::Chr => 2,
            FileType::Dir => 4,
            FileType::Blk => 6,
            FileType::Reg => 8,
            FileType::Lnk => 10,
            FileType::Socket => 12,
            FileType::Wht => 14,
        }
    }

    /// The numeric type tag of the encoding.
    pub fn code(self) -> (r: u8)
        ensures
            r == self.spec_code(),
    {
        match self {
            FileType::Unknown => 0,
            FileType::Fifo => 1,
            FileType::Chr => 2,
            FileType::Dir => 4,
            FileType::Blk => 6,
            FileType::Reg => 8,
            FileType::Lnk => 10,
            FileType::Socket => 12,
            FileType::Wht => 14,
        }
    }

    /// The tag for a directory-reading result: directories and regular
    /// files are distinguished, everything else is unknown.
    pub fn from_dir_entry(is_dir: bool, is_file: bool) -> (r: FileType)
        ensures
            is_dir ==> r == FileType::Dir,
            !is_dir && is_file ==> r == FileType::Reg,
            !is_dir && !is_file ==> r == FileType::Unknown,
    {
        if is_dir {
            FileType::Dir
        } else if is_file {
            FileType::Reg
        } else {
            FileType::Unknown
        }
    }
}

/// The fixed part of one directory entry.
#[derive(Clone, Copy, Debug, PartialEq, Eq, Structural)]
pub struct DirEnt {
    /// File serial number.
    pub d_ino: u64,
    /// Offset to the next entry: the buffer position just past this one.
    pub d_off: i64,
    /// Length of this entry, header and name together.
    pub d_reclen: u16,
    /// The type tag.
    pub d_type: u8,
}

impl DirEnt {
    /// Assemble the fixed part of an entry.
    pub fn new(ino: u64, off: i64, reclen: usize, file_type: FileType) -> (r: DirEnt)
        requires
            reclen <= u16::MAX,
        ensures
            r == (DirEnt {
                d_ino: ino,
                d_off: off,
                d_reclen: reclen as u16,
                d_type: file_type.spec_code(),
            }),
    {
        DirEnt { d_ino: ino, d_off: off, d_reclen: reclen as u16, d_type: file_type.code() }
    }
}

/// The eight little-endian bytes of a 64-bit value.
pub open spec fn spec_le8(v: u64) -> Seq<u8> {
    seq![
        (v % 256) as u8,
        ((v / 0x100) % 256) as u8,
        ((v / 0x10000) % 256) as u8,
        ((v / 0x1000000) % 256) as u8,
        ((v / 0x100000000) % 256) as u8,
        ((v / 0x10000000000) % 256) as u8,
        ((v / 0x1000000000000) % 256) as u8,
        ((v / 0x100000000000000) % 256) as u8,
    ]
}

/// The two little-endian bytes of a 16-bit value.
pub open spec fn spec_le2(v: u16) -> Seq<u8> {
    seq![(v % 256) as u8, ((v / 256) % 256) as u8]
}

/// The 19 header bytes of one entry: inode, next-entry offset, record
/// length, type tag.
#[verifier::opaque]
pub open spec fn spec_dirent_header(e: DirEnt) -> Seq<u8> {
    spec_le8(e.d_ino) + spec_le8(e.d_off as u64) + spec_le2(e.d_reclen) + seq![e.d_type]
}

/// Encode the fixed part of one entry.
fn encode_header(e: DirEnt) -> (r: Vec<u8>)
    ensures
        r@ == spec_dirent_header(e),
        r@.len() == DIRENT_FIXED_SIZE,
{
    let mut r: Vec<u8> = Vec::new();
    let ino = e.d_ino;
    r.push((ino % 256) as u8);
    r.push(((ino / 0x100) % 256) as u8);
    r.push(((ino / 0x10000) % 256) as u8);
    r.push(((ino / 0x1000000) % 256) as u8);
    r.push(((ino / 0x100000000) % 256) as u8);
    r.push(((ino / 0x10000000000) % 256) as u8);
    r.push(((ino / 0x1000000000000) % 256) as u8);
    r.push(((ino / 0x100000000000000) % 256) as u8);
    let off = e.d_off as u64;
    r.push((off % 256) as u8);
    r.push(((off / 0x100) % 256) as u8);
    r.push(((off / 0x10000) % 256) as u8);
    r.push(((off / 0x1000000) % 256) as u8);
    r.push(((off / 0x100000000) % 256) as u8);
    r.push(((off / 0x10000000000) % 256) as u8);
    r.push(((off / 0x1000000000000) % 256) as u8);
    r.push(((off / 0x100000000000000) % 256) as u8);
    let reclen = e.d_reclen;
    r.push((reclen % 256) as u8);
    r.push(((reclen / 256) % 256) as u8);
    r.push(e.d_type);
    proof {
        reveal(spec_dirent_header);
        assert(r@ =~= spec_dirent_header(e));
    }
    r
}

/// The space left in a buffer past a write position.
pub open spec fn spec_rem(buf: Seq<u8>, off: int) -> int {
    if off >= buf.len() {
        0
    } else {
        buf.len() - off
    }
}

/// The directory buffer of a getdents call: the bytes being assembled and
/// the position the next entry lands at.
#[derive(Clone, Debug)]
pub struct DirBuffer {
    /// The buffer bytes.
    pub buf: Vec<u8>,
    /// Where the next entry is written.
    pub offset: usize,
}

impl DirBuffer {
    /// The space left past the write position.
    pub open spec fn spec_remaining(self) -> int {
        spec_rem(self.buf@, self.offset as int)
    }

    /// Wrap a byte buffer, writing from its start.
    pub fn new(buf: Vec<u8>) -> (r: DirBuffer)
        ensures
            r.buf@ == buf@,
            r.offset == 0,
    {
        DirBuffer { buf, offset: 0 }
    }

    /// Hand the assembled bytes back.
    pub fn into_bytes(self) -> (r: Vec<u8>)
        ensures
            r@ == self.buf@,
    {
        self.buf
    }

    /// The space left past the write position.
    pub fn remaining_space(&self) -> (r: usize)
        ensures
            r == self.spec_remaining(),
    {
        if self.offset >= self.buf.len() {
            0
        } else {
            self.buf.len() - self.offset
        }
    }

    /// Whether an entry of the given size still fits.
    pub fn can_fit_entry(&self, entry_size: usize) -> (r: bool)
        ensures
            r == (self.spec_remaining() >= entry_size),
    {
        self.remaining_space() >= entry_size
    }

    /// Lay one entry into the buffer: the 19 header bytes and the name at
    /// the write position, which then advances by the entry's record
    /// length. Fails, changing nothing, when either the record length or
    /// the header and name would not fit (a record shorter than its header
    /// and name is refused rather than overrun; the terminal record of a
    /// getdents buffer has record length zero and fits whenever its header
    /// does).
    pub fn write_entry(&mut self, dirent: DirEnt, name: &[u8]) -> (r: Result<(), ()>)
        requires
            DIRENT_FIXED_SIZE + name@.len() <= usize::MAX,
        ensures
            r is Ok <==> (old(self).spec_remaining() >= dirent.d_reclen
                && old(self).spec_remaining() >= DIRENT_FIXED_SIZE + name@.len()),
            r is Ok ==> {
                &&& final (self).buf@ == old(self).buf@.take(old(self).offset as int)
                    + spec_dirent_header(dirent) + name@ + old(self).buf@.skip(
                    old(self).offset + DIRENT_FIXED_SIZE + name@.len(),
                )
                &&& final (self).offset == old(self).offset + dirent.d_reclen
            },
            r is Err ==> *final (self) == *old(self),
    {
        let need = DIRENT_FIXED_SIZE + name.len();
        let reclen = dirent.d_reclen as usize;
        if !(self.can_fit_entry(reclen) && self.can_fit_entry(need)) {
            return Err(());
        }
        let header = encode_header(dirent);
        proof {
            lemma_dirent_header_len(dirent);
        }
        let off = self.offset;
        let ghost buf0 = self.buf@;
        let buf_len = self.buf.len();
        proof {
            assert(buf0.len() == buf_len);
            assert(off + need <= buf0.len());
            assert(off + reclen <= buf0.len());
        }
        splice_bytes(&mut self.buf, off, header.as_slice());
        let ghost buf1 = self.buf@;
        splice_bytes(&mut self.buf, off + DIRENT_FIXED_SIZE, name);
        proof {
            assert(buf1 == buf0.take(off as int) + spec_dirent_header(dirent) + buf0.skip(
                off + DIRENT_FIXED_SIZE,
            ));
            assert(self.buf@ =~= buf0.take(off as int) + spec_dirent_header(dirent) + name@
                + buf0.skip(off + DIRENT_FIXED_SIZE + name@.len()));
        }
        self.offset = off + reclen;
        Ok(())
    }
}

/// Overwrite one range of a byte buffer with the given bytes; nothing else
/// moves.
fn splice_bytes(buf: &mut Vec<u8>, at: usize, src: &[u8])
    requires
        at + src@.len() <= old(buf)@.len(),
    ensures
        final (buf)@ == old(buf)@.take(at as int) + src@ + old(buf)@.skip(
            at + src@.len(),
        ),
{
    let ghost buf0 = buf@;
    let total = buf.len();
    proof {
        assert(buf0.len() == total);
    }
    let mut i: usize = 0;
    while i < src.len()
        invariant
            i <= src@.len(),
            at + src@.len() <= buf0.len(),
            buf0.len() <= usize::MAX,
            buf@.len() == buf0.len(),
            forall|m: int| 0 <= m < at ==> buf@[m] == buf0[m],
            forall|m: int| 0 <= m < i ==> buf@[at + m] == src@[m],
            forall|m: int| at + i <= m < buf0.len() ==> buf@[m] == buf0[m],
        decreases src@.len() - i,
    {
        buf[at + i] = src[i];
        i = i + 1;
    }
    proof {
        assert(buf@ =~= buf0.take(at as int) + src@ + buf0.skip(at + src@.len()));
    }
}

/// The 64-bit value of eight little-endian bytes at `off`.
pub open spec fn spec_le8_val(s: Seq<u8>, off: int) -> u64 {
    (s[off] + s[off + 1] * 0x100 + s[off + 2] * 0x10000 + s[off + 3] * 0x1000000 + s[off + 4]
        * 0x100000000 + s[off + 5] * 0x10000000000 + s[off + 6] * 0x1000000000000 + s[off + 7]
        * 0x100000000000000) as u64
}

/// The 16-bit value of two little-endian bytes at `off`.
pub open spec fn spec_le2_val(s: Seq<u8>, off: int) -> u16 {
    (s[off] + s[off + 1] * 256) as u16
}

/// Walk the entries already encoded in a getdents buffer, resuming a
/// partially filled buffer: the position and count just past the last
/// well-formed entry. Stops at a zero record length or where no full
/// header is left; a header whose next-entry offset does not point just
/// past its record is malformed, and the walk reports nothing.
pub open spec fn spec_scan(s: Seq<u8>, off: int, count: int) -> Option<(int, int)>
    decreases s.len() + 0x10000 - off when 0 <= off
{
    if off < 0 || off + DIRENT_FIXED_SIZE > s.len() {
        Some((off, count))
    } else {
        let reclen = spec_le2_val(s, off + 16);
        if reclen == 0 {
            Some((off, count))
        } else if spec_le8_val(s, off + 8) != (off + reclen) as u64 {
            None
        } else {
            spec_scan(s, off + reclen, count + 1)
        }
    }
}

/// Read the 64-bit little-endian value at `off`.
fn read_le8(s: &[u8], off: usize) -> (r: u64)
    requires
        off + 8 <= s@.len(),
    ensures
        r == spec_le8_val(s@, off as int),
{
    (s[off] as u64) + (s[off + 1] as u64) * 0x100 + (s[off + 2] as u64) * 0x10000 + (s[off
        + 3] as u64) * 0x1000000 + (s[off + 4] as u64) * 0x100000000 + (s[off + 5] as u64)
        * 0x10000000000 + (s[off + 6] as u64) * 0x1000000000000 + (s[off + 7] as u64)
        * 0x100000000000000
}

/// Walk the entries already encoded in a getdents buffer: the resume
/// position and the number of entries found, or nothing when an entry is
/// malformed.
pub fn scan_dir_buffer(s: &[u8]) -> (r: Option<(usize, usize)>)
    requires
        s@.len() + 0x20000 <= usize::MAX,
    ensures
        match r {
            Some(got) => Some((got.0 as int, got.1 as int)) == spec_scan(s@, 0, 0),
            None => spec_scan(s@, 0, 0) is None,
        },
{
    let mut off: usize = 0;
    let mut count: usize = 0;
    while off + DIRENT_FIXED_SIZE <= s.len()
        invariant
            s@.len() + 0x20000 <= usize::MAX,
            off <= s@.len() + 0x10000,
            count <= off,
            spec_scan(s@, 0, 0) == spec_scan(s@, off as int, count as int),
        decreases s@.len() + 0x20000 - off,
    {
        let reclen = (s[off + 16] as usize) + (s[off + 17] as usize) * 256;
        proof {
            assert(reclen == spec_le2_val(s@, off + 16));
        }
        if reclen == 0 {
            return Some((off, count));
        }
        let d_off = read_le8(s, off + 8);
        if d_off != (off + reclen) as u64 {
            return None;
        }
        off = off + reclen;
        count = count + 1;
    }
    Some((off, count))
}

} // verus!

verus! {

/// One directory entry handed to the fill: the bare name (the encoder
/// appends the terminating zero byte) and the type tag.
#[derive(Clone, Debug)]
pub struct DirEntryInfo {
    /// The entry's name, without a terminator.
    pub name: Vec<u8>,
    /// The entry's type.
    pub ftype: FileType,
}

/// The bytes one filled entry takes: the header, the name and its
/// terminator.
pub open spec fn spec_entry_size(e: DirEntryInfo) -> int {
    DIRENT_FIXED_SIZE + e.name@.len() + 1
}

/// The bytes the entries from `i` on would take together.
pub open spec fn spec_entries_size(entries: Seq<DirEntryInfo>, i: int) -> int
    decreases entries.len() - i,
{
    if i < 0 || i >= entries.len() {
        0
    } else {
        spec_entry_size(entries[i]) + spec_entries_size(entries, i + 1)
    }
}

/// The fill loop over (buffer bytes, write position, running next-entry
/// offset, running total), taking the entries from `i` on: each entry is
/// encoded at the write position with inode one, its next-entry offset
/// advanced past it, and a record length covering header, name and
/// terminator; the first entry that does not fit stops the loop, its size
/// already counted into the next-entry offset but not into the total.
pub open spec fn spec_fill_entries(
    buf: Seq<u8>,
    off: int,
    cur: int,
    total: int,
    entries: Seq<DirEntryInfo>,
    i: int,
) -> (Seq<u8>, int, int, int)
    decreases entries.len() - i,
{
    if i < 0 || i >= entries.len() {
        (buf, off, cur, total)
    } else {
        let name = entries[i].name@.push(0u8);
        let size = spec_entry_size(entries[i]);
        let cur2 = cur + size;
        if spec_rem(buf, off) >= size {
            let e = DirEnt {
                d_ino: 1,
                d_off: cur2 as i64,
                d_reclen: size as u16,
                d_type: entries[i].ftype.spec_code(),
            };
            let buf2 = buf.take(off) + spec_dirent_header(e) + name + buf.skip(off + size);
            spec_fill_entries(buf2, off + size, cur2, total + size, entries, i + 1)
        } else {
            (buf, off, cur2, total)
        }
    }
}

/// The terminal record closing a non-empty fill: a zero-length header at
/// the write position, which stays where it is, written only when the
/// header fits.
pub open spec fn spec_fill_terminal(buf: Seq<u8>, off: int, cur: int, total: int) -> Seq<u8> {
    if total > 0 && spec_rem(buf, off) >= DIRENT_FIXED_SIZE {
        let e = DirEnt {
            d_ino: 1,
            d_off: cur as i64,
            d_reclen: 0,
            d_type: FileType::Reg.spec_code(),
        };
        buf.take(off) + spec_dirent_header(e) + buf.skip(off + DIRENT_FIXED_SIZE)
    } else {
        buf
    }
}

/// A copy of the name with the terminating zero byte appended.
fn name_with_nul(name: &Vec<u8>) -> (r: Vec<u8>)
    ensures
        r@ == name@.push(0u8),
{
    let mut r: Vec<u8> = Vec::new();
    let mut i: usize = 0;
    while i < name.len()
        invariant
            i <= name@.len(),
            r@ == name@.take(i as int),
        decreases name@.len() - i,
    {
        r.push(name[i]);
        proof {
            assert(r@ =~= name@.take(i + 1));
        }
        i = i + 1;
    }
    r.push(0u8);
    proof {
        assert(r@ =~= name@.push(0u8));
    }
    r
}

/// Fill a getdents buffer with the directory's entries, skipping the ones
/// an earlier call already delivered and numbering offsets from where that
/// call stopped. Entries are laid in until one does not fit; a non-empty
/// buffer is closed with a terminal record. Returns the total bytes
/// accounted: the resume offset plus every entry laid in by this call.
pub fn getdents_fill(
    buffer: &mut DirBuffer,
    entries: &Vec<DirEntryInfo>,
    skip: usize,
    initial_offset: usize,
) -> (total: usize)
    requires
        forall|j: int|
            0 <= j < entries@.len() ==> spec_entry_size(#[trigger] entries@[j]) <= u16::MAX,
        initial_offset + spec_entries_size(entries@, skip as int) <= i64::MAX,
        initial_offset + old(buffer).buf@.len() <= usize::MAX,
        old(buffer).offset <= old(buffer).buf@.len(),
    ensures
        ({
            let filled = spec_fill_entries(
                old(buffer).buf@,
                old(buffer).offset as int,
                initial_offset as int,
                initial_offset as int,
                entries@,
                skip as int,
            );
            &&& final (buffer).buf@ == spec_fill_terminal(filled.0, filled.1, filled.2, filled.3)
            &&& final (buffer).offset == filled.1
            &&& total == filled.3
        }),
{
    let ghost buf0 = buffer.buf@;
    let ghost off0 = buffer.offset as int;
    let ghost n0 = entries@.len();
    proof {
        lemma_entries_size_nonneg(entries@, skip as int);
    }
    let mut total: usize = initial_offset;
    let mut cur: i64 = initial_offset as i64;
    let mut idx: usize = skip;
    let mut done = false;
    while idx < entries.len() && !done
        invariant
            entries@.len() == n0,
            skip <= idx,
            forall|j: int|
                0 <= j < entries@.len() ==> spec_entry_size(#[trigger] entries@[j]) <= u16::MAX,
            buffer.offset <= buffer.buf@.len(),
            initial_offset + buffer.buf@.len() <= usize::MAX,
            total == initial_offset + buffer.offset - off0,
            buffer.buf@.len() == buf0.len(),
            0 <= off0 <= buffer.offset,
            !done ==> cur + spec_entries_size(entries@, idx as int) <= i64::MAX,
            !done ==> spec_fill_entries(buf0, off0, initial_offset as int, initial_offset as int, entries@, skip as int)
                == spec_fill_entries(
                buffer.buf@,
                buffer.offset as int,
                cur as int,
                total as int,
                entries@,
                idx as int,
            ),
            done ==> spec_fill_entries(buf0, off0, initial_offset as int, initial_offset as int, entries@, skip as int)
                == (buffer.buf@, buffer.offset as int, cur as int, total as int),
        decreases entries@.len() - idx + if done { 0int } else { 1int },
    {
        proof {
            lemma_entries_size_nonneg(entries@, idx + 1);
            assert(spec_entry_size(entries@[idx as int]) <= u16::MAX);
        }
        let name = name_with_nul(&entries[idx].name);
        let size = DIRENT_FIXED_SIZE + name.len();
        proof {
            assert(size == spec_entry_size(entries@[idx as int]));
        }
        cur = cur + size as i64;
        let e = DirEnt::new(1, cur, size, entries[idx].ftype);
        let ghost bpre = *buffer;
        match buffer.write_entry(e, name.as_slice()) {
            Ok(_) => {
                proof {
                    lemma_dirent_header_len(e);
                    assert(bpre.spec_remaining() >= size);
                    assert(bpre.offset + size <= bpre.buf@.len());
                    assert(buffer.buf@.len() == bpre.buf@.len());
                    assert(buffer.offset == bpre.offset + size);
                    assert(total + size == initial_offset + buffer.offset - off0);
                    assert(total + size <= initial_offset + buffer.buf@.len());
                }
                total = total + size;
                idx = idx + 1;
            },
            Err(_) => {
                done = true;
            },
        }
    }
    if total > 0 && buffer.can_fit_entry(DIRENT_FIXED_SIZE) {
        let t = DirEnt::new(1, cur, 0, FileType::Reg);
        let wrote = buffer.write_entry(t, &[]);
        proof {
            assert(wrote is Ok);
        }
    }
    total
}

/// The joint size of a tail of entries is never negative.
pub proof fn lemma_entries_size_nonneg(entries: Seq<DirEntryInfo>, i: int)
    ensures
        spec_entries_size(entries, i) >= 0,
    decreases entries.len() - i,
{
    if 0 <= i < entries.len() {
        lemma_entries_size_nonneg(entries, i + 1);
    }
}

} // verus!
