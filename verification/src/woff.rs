//! Decompression of WOFF-packed font containers.
//!
//! A WOFF file wraps an sfnt font: a 44-byte header, a directory of
//! 20-byte entries, and per-table payloads that may be deflate-compressed.
//! Unpacking rebuilds the plain sfnt: a 12-byte header, 16-byte directory
//! entries with recomputed table offsets, and the tables themselves, each
//! padded to a four-byte boundary.  The deflate step is the business of an
//! outside library; everything around it is verified byte for byte.

use vstd::prelude::*;
use vstd::slice::slice_subrange;

verus! {

/// The big-endian 16-bit value of two bytes of `s`.
pub open spec fn be16(s: Seq<u8>, off: int) -> int {
    s[off] * 0x100 + s[off + 1]
}

/// The big-endian 32-bit value of four bytes of `s`.
pub open spec fn be32(s: Seq<u8>, off: int) -> int {
    s[off] * 0x100_0000 + s[off + 1] * 0x1_0000 + s[off + 2] * 0x100 + s[off + 3]
}

/// The two big-endian bytes of a 16-bit value.
pub open spec fn be16_bytes(x: int) -> Seq<u8> {
    seq![((x / 0x100) % 0x100) as u8, (x % 0x100) as u8]
}

/// The four big-endian bytes of a 32-bit value.
pub open spec fn be32_bytes(x: int) -> Seq<u8> {
    seq![
        ((x / 0x100_0000) % 0x100) as u8,
        ((x / 0x1_0000) % 0x100) as u8,
        ((x / 0x100) % 0x100) as u8,
        (x % 0x100) as u8,
    ]
}

/// Reads raw bytes front to back; a read past the end yields nothing but
/// still advances the position.
pub struct ReadStream<'a> {
    pub offset: usize,
    pub data: &'a [u8],
}

impl<'a> ReadStream<'a> {
    /// A stream at the start of the bytes.
    pub fn new(data: &'a [u8]) -> (r: Self)
        ensures
            r.offset == 0,
            r.data@ == data@,
    {
        ReadStream { offset: 0, data }
    }

    /// The next `step` bytes, advancing past them; nothing when they run
    /// beyond the end, the position advancing all the same.
    pub fn read(&mut self, step: usize) -> (r: Option<&'a [u8]>)
        requires
            old(self).offset + step <= usize::MAX,
        ensures
            final(self).data@ == old(self).data@,
            final(self).offset == old(self).offset + step,
            match r {
                Some(s) => old(self).offset + step <= old(self).data@.len()
                    && s@ == old(self).data@.subrange(old(self).offset as int, old(self).offset + step),
                None => old(self).offset + step > old(self).data@.len(),
            },
    {
        let start = self.offset;
        self.offset = self.offset + step;
        let end = self.offset;
        if end <= self.data.len() {
            Some(slice_subrange(self.data, start, end))
        } else {
            None
        }
    }

    /// As `read`, copied into an owned vector.
    pub fn read_vec(&mut self, step: usize) -> (r: Option<Vec<u8>>)
        requires
            old(self).offset + step <= usize::MAX,
        ensures
            final(self).data@ == old(self).data@,
            final(self).offset == old(self).offset + step,
            match r {
                Some(v) => old(self).offset + step <= old(self).data@.len()
                    && v@ == old(self).data@.subrange(old(self).offset as int, old(self).offset + step),
                None => old(self).offset + step > old(self).data@.len(),
            },
    {
        let s = match self.read(step) {
            Some(s) => s,
            None => {
                return None;
            }
        };
        let mut v = Vec::<u8>::new();
        let mut i: usize = 0;
        while i < s.len()
            invariant
                i <= s@.len(),
                v@ == s@.take(i as int),
            decreases s@.len() - i,
        {
            let b = s[i];
            v.push(b);
            proof {
                assert(s@.take(i + 1 as int) =~= s@.take(i as int).push(s@[i as int]));
            }
            i = i + 1;
        }
        proof {
            assert(s@.take(s@.len() as int) =~= s@);
        }
        Some(v)
    }
}

/// Writes raw bytes back to front of nothing: every write appends, and
/// the position counts the bytes written.
pub struct WriteStream {
    pub offset: usize,
    pub data: Vec<u8>,
}

impl WriteStream {
    /// An empty stream.
    pub fn new() -> (r: Self)
        ensures
            r.offset == 0,
            r.data@ == Seq::<u8>::empty(),
    {
        WriteStream { offset: 0, data: Vec::new() }
    }

    /// Appends the given bytes; the position advances by their count,
    /// stopping at the machine limit.
    pub fn write(&mut self, data: Vec<u8>)
        ensures
            final(self).data@ == old(self).data@ + data@,
            final(self).offset == if old(self).offset + data@.len() <= usize::MAX {
                old(self).offset + data@.len()
            } else {
                usize::MAX as int
            },
    {
        let ghost pre = self.data@;
        let mut i: usize = 0;
        while i < data.len()
            invariant
                i <= data@.len(),
                self.data@ == pre + data@.take(i as int),
                self.offset as int == if old(self).offset + i <= usize::MAX {
                    old(self).offset + i
                } else {
                    usize::MAX as int
                },
            decreases data@.len() - i,
        {
            let item = data[i];
            self.data.push(item);
            if self.offset < usize::MAX {
                self.offset = self.offset + 1;
            }
            proof {
                assert(pre + data@.take(i + 1 as int)
                    =~= (pre + data@.take(i as int)).push(data@[i as int]));
            }
            i = i + 1;
        }
        proof {
            assert(pre + data@.take(data@.len() as int) =~= pre + data@);
        }
    }

    /// Hands the written bytes out.
    pub fn into_data(self) -> (r: Vec<u8>)
        ensures
            r@ == self.data@,
    {
        self.data
    }
}

/// A position in the rebuilt font, rendered big-endian when it enters the
/// directory.
pub struct BufferOffset(pub usize);

impl BufferOffset {
    /// The four big-endian bytes of the position, reduced to 32 bits.
    pub fn to_be(&self) -> (r: Vec<u8>)
        ensures
            r@ == be32_bytes(self.0 as int % 0x1_0000_0000),
    {
        let wide: u64 = self.0 as u64;
        let low: u32 = (wide % 0x1_0000_0000) as u32;
        convert_u32_to_u8s_be_vec(low)
    }
}

/// The two big-endian bytes of a 16-bit value.
pub fn convert_u16_to_u8s_be(x: u16) -> (r: [u8; 2])
    ensures
        r@ == be16_bytes(x as int),
{
    let b3: u8 = (x / 0x100) as u8;
    let b4: u8 = (x % 0x100) as u8;
    let r = [b3, b4];
    proof {
        assert(r@ =~= be16_bytes(x as int));
    }
    r
}

/// The four big-endian bytes of a 32-bit value.
pub fn convert_u32_to_u8s_be(x: u32) -> (r: [u8; 4])
    ensures
        r@ == be32_bytes(x as int),
{
    let b1: u8 = (x / 0x100_0000) as u8;
    let b2: u8 = ((x / 0x1_0000) % 0x100) as u8;
    let b3: u8 = ((x / 0x100) % 0x100) as u8;
    let b4: u8 = (x % 0x100) as u8;
    let r = [b1, b2, b3, b4];
    proof {
        assert((x as int / 0x100_0000) % 0x100 == x as int / 0x100_0000) by {
            assert(x as int / 0x100_0000 < 0x100);
        }
        assert(r@ =~= be32_bytes(x as int));
    }
    r
}

fn convert_u32_to_u8s_be_vec(x: u32) -> (r: Vec<u8>)
    ensures
        r@ == be32_bytes(x as int),
{
    let a = convert_u32_to_u8s_be(x);
    let mut v = Vec::<u8>::new();
    v.push(a[0]);
    v.push(a[1]);
    v.push(a[2]);
    v.push(a[3]);
    proof {
        assert(v@ =~= a@);
    }
    v
}

fn convert_u16_to_u8s_be_vec(x: u16) -> (r: Vec<u8>)
    ensures
        r@ == be16_bytes(x as int),
{
    let a = convert_u16_to_u8s_be(x);
    let mut v = Vec::<u8>::new();
    v.push(a[0]);
    v.push(a[1]);
    proof {
        assert(v@ =~= a@);
    }
    v
}

/// The 16-bit value of the first two bytes, missing bytes read as zero.
pub fn convert_be_to_u16(f: Vec<u8>) -> (r: u16)
    ensures
        r as int == (if f@.len() >= 1 { f@[0] as int } else { 0 }) * 0x100
            + (if f@.len() >= 2 { f@[1] as int } else { 0 }),
{
    let n0: u16 = if f.len() >= 1 { f[0] as u16 } else { 0 };
    let n1: u16 = if f.len() >= 2 { f[1] as u16 } else { 0 };
    n0 * 0x100 + n1
}

/// The 32-bit value of the first four bytes, missing bytes read as zero.
pub fn convert_be_to_u32(f: Vec<u8>) -> (r: u32)
    ensures
        r as int == (if f@.len() >= 1 { f@[0] as int } else { 0 }) * 0x100_0000
            + (if f@.len() >= 2 { f@[1] as int } else { 0 }) * 0x1_0000
            + (if f@.len() >= 3 { f@[2] as int } else { 0 }) * 0x100
            + (if f@.len() >= 4 { f@[3] as int } else { 0 }),
{
    let n0: u32 = if f.len() >= 1 { f[0] as u32 } else { 0 };
    let n1: u32 = if f.len() >= 2 { f[1] as u32 } else { 0 };
    let n2: u32 = if f.len() >= 3 { f[2] as u32 } else { 0 };
    let n3: u32 = if f.len() >= 4 { f[3] as u32 } else { 0 };
    n0 * 0x100_0000 + n1 * 0x1_0000 + n2 * 0x100 + n3
}

/// Where the header reader leaves the cursor: at the end of the first
/// field whose bytes run past the end of the data, or past the whole
/// 44-byte header when every field fits.
pub open spec fn header_read_stop(o: int, len: int) -> int {
    if o + 4 > len { o + 4 }
    else if o + 8 > len { o + 8 }
    else if o + 12 > len { o + 12 }
    else if o + 14 > len { o + 14 }
    else if o + 16 > len { o + 16 }
    else if o + 20 > len { o + 20 }
    else if o + 22 > len { o + 22 }
    else if o + 24 > len { o + 24 }
    else if o + 28 > len { o + 28 }
    else if o + 32 > len { o + 32 }
    else if o + 36 > len { o + 36 }
    else if o + 40 > len { o + 40 }
    else { o + 44 }
}

/// The packed container's header, each field kept as its raw bytes.
#[derive(Debug)]
pub struct WOFFHeader {
    pub signature: Vec<u8>,
    pub flavor: Vec<u8>,
    pub length: Vec<u8>,
    pub num_tables: Vec<u8>,
    pub reserved: Vec<u8>,
    pub total_sfnt_size: Vec<u8>,
    pub major_version: Vec<u8>,
    pub minor_version: Vec<u8>,
    pub meta_offset: Vec<u8>,
    pub meta_length: Vec<u8>,
    pub meta_orig_length: Vec<u8>,
    pub priv_offset: Vec<u8>,
    pub priv_length: Vec<u8>,
}

impl WOFFHeader {
    /// Reads the 44-byte header; nothing when the bytes run out, the
    /// cursor then stopped at the end of the first failing field.
    pub fn new(rs: &mut ReadStream) -> (r: Option<Self>)
        requires
            old(rs).offset + 44 <= usize::MAX,
        ensures
            final(rs).data@ == old(rs).data@,
            final(rs).offset as int == header_read_stop(old(rs).offset as int, old(rs).data@.len() as int),
            match r {
                Some(h) => {
                    let d = old(rs).data@;
                    let o = old(rs).offset as int;
                    &&& o + 44 <= d.len()
                    &&& final(rs).offset == old(rs).offset + 44
                    &&& h.signature@ == d.subrange(o, o + 4)
                    &&& h.flavor@ == d.subrange(o + 4, o + 8)
                    &&& h.length@ == d.subrange(o + 8, o + 12)
                    &&& h.num_tables@ == d.subrange(o + 12, o + 14)
                    &&& h.reserved@ == d.subrange(o + 14, o + 16)
                    &&& h.total_sfnt_size@ == d.subrange(o + 16, o + 20)
                    &&& h.major_version@ == d.subrange(o + 20, o + 22)
                    &&& h.minor_version@ == d.subrange(o + 22, o + 24)
                    &&& h.meta_offset@ == d.subrange(o + 24, o + 28)
                    &&& h.meta_length@ == d.subrange(o + 28, o + 32)
                    &&& h.meta_orig_length@ == d.subrange(o + 32, o + 36)
                    &&& h.priv_offset@ == d.subrange(o + 36, o + 40)
                    &&& h.priv_length@ == d.subrange(o + 40, o + 44)
                },
                None => old(rs).offset + 44 > old(rs).data@.len(),
            },
    {
        let signature = match rs.read_vec(4) { Some(v) => v, None => { return None; } };
        let flavor = match rs.read_vec(4) { Some(v) => v, None => { return None; } };
        let length = match rs.read_vec(4) { Some(v) => v, None => { return None; } };
        let num_tables = match rs.read_vec(2) { Some(v) => v, None => { return None; } };
        let reserved = match rs.read_vec(2) { Some(v) => v, None => { return None; } };
        let total_sfnt_size = match rs.read_vec(4) { Some(v) => v, None => { return None; } };
        let major_version = match rs.read_vec(2) { Some(v) => v, None => { return None; } };
        let minor_version = match rs.read_vec(2) { Some(v) => v, None => { return None; } };
        let meta_offset = match rs.read_vec(4) { Some(v) => v, None => { return None; } };
        let meta_length = match rs.read_vec(4) { Some(v) => v, None => { return None; } };
        let meta_orig_length = match rs.read_vec(4) { Some(v) => v, None => { return None; } };
        let priv_offset = match rs.read_vec(4) { Some(v) => v, None => { return None; } };
        let priv_length = match rs.read_vec(4) { Some(v) => v, None => { return None; } };
        Some(WOFFHeader {
            signature,
            flavor,
            length,
            num_tables,
            reserved,
            total_sfnt_size,
            major_version,
            minor_version,
            meta_offset,
            meta_length,
            meta_orig_length,
            priv_offset,
            priv_length,
        })
    }
}

/// Where the directory-entry reader leaves the cursor: at the end of the
/// first field whose bytes run past the end of the data, or past the
/// whole 20-byte entry when every field fits.
pub open spec fn directory_read_stop(o: int, len: int) -> int {
    if o + 4 > len { o + 4 }
    else if o + 8 > len { o + 8 }
    else if o + 12 > len { o + 12 }
    else if o + 16 > len { o + 16 }
    else { o + 20 }
}

/// One packed directory entry, each field kept as its raw bytes.
#[derive(Debug)]
pub struct TableDirectory {
    pub tag: Vec<u8>,
    pub offset: Vec<u8>,
    pub comp_length: Vec<u8>,
    pub orig_length: Vec<u8>,
    pub orig_checksum: Vec<u8>,
}

impl TableDirectory {
    /// Reads one 20-byte entry; nothing when the bytes run out, the
    /// cursor then stopped at the end of the first failing field.
    pub fn new(rs: &mut ReadStream) -> (r: Option<Self>)
        requires
            old(rs).offset + 20 <= usize::MAX,
        ensures
            final(rs).data@ == old(rs).data@,
            final(rs).offset as int == directory_read_stop(old(rs).offset as int, old(rs).data@.len() as int),
            match r {
                Some(t) => {
                    let d = old(rs).data@;
                    let o = old(rs).offset as int;
                    &&& o + 20 <= d.len()
                    &&& final(rs).offset == old(rs).offset + 20
                    &&& t.tag@ == d.subrange(o, o + 4)
                    &&& t.offset@ == d.subrange(o + 4, o + 8)
                    &&& t.comp_length@ == d.subrange(o + 8, o + 12)
                    &&& t.orig_length@ == d.subrange(o + 12, o + 16)
                    &&& t.orig_checksum@ == d.subrange(o + 16, o + 20)
                },
                None => old(rs).offset + 20 > old(rs).data@.len(),
            },
    {
        let tag = match rs.read_vec(4) { Some(v) => v, None => { return None; } };
        let offset = match rs.read_vec(4) { Some(v) => v, None => { return None; } };
        let comp_length = match rs.read_vec(4) { Some(v) => v, None => { return None; } };
        let orig_length = match rs.read_vec(4) { Some(v) => v, None => { return None; } };
        let orig_checksum = match rs.read_vec(4) { Some(v) => v, None => { return None; } };
        Some(TableDirectory {
            tag,
            offset,
            comp_length,
            orig_length,
            orig_checksum,
        })
    }
}

/// Whether the outside deflate routine accepts the bytes as a zlib
/// stream.  The result depends on the bytes alone.
pub uninterp spec fn zlib_ok(data: Seq<u8>) -> bool;

/// What the outside deflate routine inflates the bytes to, where it
/// accepts them.  The result depends on the bytes alone.
pub uninterp spec fn zlib_out(data: Seq<u8>) -> Seq<u8>;

/// Relies on miniz_oxide's zlib inflation: the result is a function of
/// the input bytes alone, and absent exactly when the stream is rejected.
#[verifier::external_body]
fn inflate_zlib(data: &Vec<u8>) -> (r: Option<Vec<u8>>)
    ensures
        match r {
            Some(v) => zlib_ok(data@) && v@ == zlib_out(data@),
            None => !zlib_ok(data@),
        },
{
    match miniz_oxide::inflate::decompress_to_vec_zlib(data.as_slice()) {
        Ok(v) => Some(v),
        Err(_) => None,
    }
}

/// The floor base-two logarithm of `n`, zero for values below two.
pub open spec fn log2_floor(n: int) -> int
    decreases n,
{
    if n <= 1 {
        0
    } else {
        1 + log2_floor(n / 2)
    }
}

/// Two to the power `e`.
pub open spec fn pow2(e: int) -> int
    decreases e,
{
    if e <= 0 {
        1
    } else {
        2 * pow2(e - 1)
    }
}

/// The binary-search fields of the sfnt header, reduced to 16 bits as the
/// arithmetic wraps: the largest power-of-two range, its logarithm, and
/// the remainder shift.
pub open spec fn search_fields(n: int) -> (int, int, int) {
    let entry_selector = log2_floor(n);
    let search_range = (16 * pow2(entry_selector)) % 0x1_0000;
    let range_shift = sub_mod16(n * 16, search_range);
    (search_range, entry_selector, range_shift)
}

/// The 16-bit wrapping difference.
pub open spec fn sub_mod16(a: int, b: int) -> int {
    ((a % 0x1_0000) - (b % 0x1_0000) + 0x1_0000) % 0x1_0000
}

/// One is the least power of two.
proof fn lemma_pow2_pos(e: int)
    ensures
        pow2(e) >= 1,
    decreases e,
{
    if e > 0 {
        lemma_pow2_pos(e - 1);
    }
}

/// Powers of two grow with the exponent.
proof fn lemma_pow2_mono(a: int, b: int)
    requires
        a <= b,
    ensures
        pow2(a) <= pow2(b),
    decreases b - a,
{
    if a < b {
        lemma_pow2_mono(a, b - 1);
        lemma_pow2_pos(b - 1);
    }
}

/// The sixteenth power of two.
proof fn lemma_pow2_16()
    ensures
        pow2(16) == 0x1_0000,
{
    reveal_with_fuel(pow2, 18);
}

/// Computes the binary-search fields of the sfnt header.
pub fn compute_search_fields(num_tables: u16) -> (r: (u16, u16, u16))
    ensures
        (r.0 as int, r.1 as int, r.2 as int) == search_fields(num_tables as int),
{
    let mut temp: u16 = num_tables;
    let mut entry_selector: u32 = 0;
    let mut search_range: u32 = 16;
    proof {
        assert(pow2(0) == 1);
    }
    while temp > 1
        invariant
            entry_selector <= 15,
            search_range as int == 16 * pow2(entry_selector as int),
            temp as int >= 1 ==> pow2(entry_selector as int) * (temp as int) <= num_tables as int,
            log2_floor(num_tables as int) == entry_selector + log2_floor(temp as int),
        decreases temp,
    {
        proof {
            let es = entry_selector as int;
            let t = temp as int;
            lemma_pow2_pos(es);
            assert(2 * pow2(es) * (t / 2) <= pow2(es) * t) by (nonlinear_arith)
                requires pow2(es) >= 1 && t >= 2;
            assert(pow2(es + 1) == 2 * pow2(es));
            if es + 1 > 15 {
                lemma_pow2_mono(16, es + 1);
                lemma_pow2_16();
                assert(pow2(es + 1) >= 0x1_0000);
                assert(2 * pow2(es) <= pow2(es) * t) by (nonlinear_arith)
                    requires pow2(es) >= 1 && t >= 2;
                assert(false);
            }
            lemma_pow2_mono(es, 15);
            lemma_pow2_16();
            assert(pow2(15) * 2 == pow2(16));
            assert(search_range * 2 <= 16 * 0x1_0000);
            assert(pow2(es + 1) * (t / 2) <= pow2(es) * t) by (nonlinear_arith)
                requires pow2(es + 1) == 2 * pow2(es) && 2 * pow2(es) * (t / 2) <= pow2(es) * t;
        }
        temp = temp / 2;
        entry_selector = entry_selector + 1;
        search_range = search_range * 2;
    }
    proof {
        assert(log2_floor(temp as int) == 0);
    }
    let sr: u16 = (search_range % 0x1_0000) as u16;
    let shift_wide: u32 = ((num_tables as u32) * 16) % 0x1_0000;
    let rs_val: u16 = (((shift_wide + 0x1_0000) - (sr as u32)) % 0x1_0000) as u16;
    proof {
        assert(rs_val as int == sub_mod16(num_tables as int * 16, sr as int)) by {
            assert(shift_wide as int == (num_tables as int * 16) % 0x1_0000);
            assert(sr as int % 0x1_0000 == sr as int);
        }
    }
    (sr, entry_selector as u16, rs_val)
}


/// A run of zero bytes.
pub open spec fn zeros(n: int) -> Seq<u8> {
    Seq::<u8>::new(n as nat, |i: int| 0u8)
}

/// The next four-byte boundary at or after `v`.
pub open spec fn align4(v: int) -> int {
    if v % 4 == 0 {
        v
    } else {
        v + 4 - v % 4
    }
}

/// The zero padding that follows a table of the given stated length.
pub open spec fn pad_len(olen: int) -> int {
    if olen % 4 == 0 {
        0
    } else {
        4 - olen % 4
    }
}

/// Where the packed directory entry `i` starts.
pub open spec fn table_entry_base(i: int) -> int {
    44 + 20 * i
}

/// Where table `i` starts in the rebuilt font: the first table follows
/// the 12-byte header and the 16-byte directory entries, and each further
/// table follows the previous one's stated length, aligned up.
pub open spec fn out_offset_at(input: Seq<u8>, i: int) -> int
    decreases i,
{
    if i <= 0 {
        12 + 16 * be16(input, 12)
    } else {
        align4(out_offset_at(input, i - 1) + be32(input, table_entry_base(i - 1) + 12))
    }
}

/// The rebuilt 12-byte sfnt header: the packed flavor and table count,
/// then the recomputed binary-search fields.
pub open spec fn sfnt_header_out(input: Seq<u8>) -> Seq<u8> {
    let n = be16(input, 12);
    let sr = search_fields(n).0;
    let es = search_fields(n).1;
    let rsv = search_fields(n).2;
    input.subrange(4, 8) + input.subrange(12, 14) + be16_bytes(sr) + be16_bytes(es) + be16_bytes(rsv)
}

/// The first `i` rebuilt 16-byte directory entries: tag, checksum,
/// recomputed offset, stated length.
pub open spec fn dir_entries_out(input: Seq<u8>, i: int) -> Seq<u8>
    decreases i,
{
    if i <= 0 {
        Seq::<u8>::empty()
    } else {
        let base = table_entry_base(i - 1);
        dir_entries_out(input, i - 1)
            + input.subrange(base, base + 4)
            + input.subrange(base + 16, base + 20)
            + be32_bytes(out_offset_at(input, i - 1) % 0x1_0000_0000)
            + input.subrange(base + 12, base + 16)
    }
}

/// The rebuilt payload of table `i` with its padding: the packed bytes as
/// they stand when the stated and compressed lengths agree, the inflated
/// bytes otherwise; nothing when the packed bytes run outside the input
/// or the inflation is rejected.
pub open spec fn table_payload(input: Seq<u8>, i: int) -> Option<Seq<u8>> {
    let base = table_entry_base(i);
    let off = be32(input, base + 4);
    let clen = be32(input, base + 8);
    let olen = be32(input, base + 12);
    if off + clen <= input.len() {
        let comp = input.subrange(off, off + clen);
        if clen != olen {
            if zlib_ok(comp) {
                Some(zlib_out(comp) + zeros(pad_len(olen)))
            } else {
                None
            }
        } else {
            Some(comp + zeros(pad_len(olen)))
        }
    } else {
        None
    }
}

/// The first `i` rebuilt payloads, in table order.
pub open spec fn payloads_out(input: Seq<u8>, i: int) -> Option<Seq<u8>>
    decreases i,
{
    if i <= 0 {
        Some(Seq::<u8>::empty())
    } else {
        match payloads_out(input, i - 1) {
            None => None,
            Some(pre) => match table_payload(input, i - 1) {
                None => None,
                Some(p) => Some(pre + p),
            },
        }
    }
}

/// The whole rebuilt font: header, directory and payloads; nothing when
/// the packed header or directory runs outside the input, a table does,
/// or an inflation is rejected.
pub open spec fn spec_decompress(input: Seq<u8>) -> Option<Seq<u8>> {
    if input.len() < 44 {
        None
    } else {
        let n = be16(input, 12);
        if 44 + 20 * n <= input.len() {
            match payloads_out(input, n) {
                None => None,
                Some(ps) => Some(sfnt_header_out(input) + dir_entries_out(input, n) + ps),
            }
        } else {
            None
        }
    }
}

/// Once a prefix of payloads is missing, the whole run is.
proof fn lemma_payloads_none_mono(input: Seq<u8>, i: int, n: int)
    requires
        0 <= i <= n,
        payloads_out(input, i) is None,
    ensures
        payloads_out(input, n) is None,
    decreases n - i,
{
    if i < n {
        lemma_payloads_none_mono(input, i + 1, n);
    }
}

fn copy_bytes(v: &Vec<u8>) -> (r: Vec<u8>)
    ensures
        r@ == v@,
{
    let mut out = Vec::<u8>::new();
    let mut i: usize = 0;
    while i < v.len()
        invariant
            i <= v@.len(),
            out@ == v@.take(i as int),
        decreases v@.len() - i,
    {
        out.push(v[i]);
        proof {
            assert(v@.take(i + 1 as int) =~= v@.take(i as int).push(v@[i as int]));
        }
        i = i + 1;
    }
    proof {
        assert(v@.take(v@.len() as int) =~= v@);
    }
    out
}

/// Unpacks a WOFF container into the plain sfnt bytes; nothing when the
/// container is malformed or a compressed table is rejected by the
/// deflate routine.
#[verifier::rlimit(100)]
pub fn decompress_woff(input: &[u8]) -> (r: Option<Vec<u8>>)
    ensures
        match r {
            Some(v) => spec_decompress(input@) == Some(v@),
            None => spec_decompress(input@) is None,
        },
{
    let mut ws = WriteStream::new();
    let mut rs = ReadStream::new(input);
    let header = match WOFFHeader::new(&mut rs) {
        Some(h) => h,
        None => {
            return None;
        }
    };
    let num_tables_bytes = copy_bytes(&header.num_tables);
    let num_tables: u16 = convert_be_to_u16(num_tables_bytes);
    proof {
        assert(num_tables as int == be16(input@, 12)) by {
            assert(header.num_tables@[0] == input@[12] && header.num_tables@[1] == input@[13]);
        }
    }
    let fields = compute_search_fields(num_tables);
    ws.write(header.flavor);
    ws.write(copy_bytes(&header.num_tables));
    ws.write(convert_u16_to_u8s_be_vec(fields.0));
    ws.write(convert_u16_to_u8s_be_vec(fields.1));
    ws.write(convert_u16_to_u8s_be_vec(fields.2));
    proof {
        assert(ws.data@ =~= sfnt_header_out(input@));
    }

    let n: usize = num_tables as usize;
    let mut table_dirs: Vec<TableDirectory> = Vec::new();
    let mut i: usize = 0;
    while i < n
        invariant
            i <= n,
            n == be16(input@, 12),
            rs.data@ == input@,
            rs.offset == 44 + 20 * i,
            44 + 20 * i <= input@.len(),
            table_dirs@.len() == i,
            forall|k: int| 0 <= k < i ==> {
                let base = table_entry_base(k);
                &&& (#[trigger] table_dirs@[k]).tag@ == input@.subrange(base, base + 4)
                &&& table_dirs@[k].offset@ == input@.subrange(base + 4, base + 8)
                &&& table_dirs@[k].comp_length@ == input@.subrange(base + 8, base + 12)
                &&& table_dirs@[k].orig_length@ == input@.subrange(base + 12, base + 16)
                &&& table_dirs@[k].orig_checksum@ == input@.subrange(base + 16, base + 20)
            },
        decreases n - i,
    {
        let td = match TableDirectory::new(&mut rs) {
            Some(t) => t,
            None => {
                proof {
                    assert(44 + 20 * be16(input@, 12) > input@.len());
                }
                return None;
            }
        };
        table_dirs.push(td);
        i = i + 1;
    }

    let mut offset: u64 = 12 + 16 * (num_tables as u64);
    let mut i: usize = 0;
    while i < n
        invariant
            i <= n,
            n == be16(input@, 12),
            n <= 0x1_0000,
            44 + 20 * n <= input@.len(),
            offset as int == out_offset_at(input@, i as int),
            offset <= 0x10_0000 + (i as int) * 0x1_0000_0004,
            table_dirs@.len() == n,
            forall|k: int| 0 <= k < n ==> {
                let base = table_entry_base(k);
                &&& (#[trigger] table_dirs@[k]).tag@ == input@.subrange(base, base + 4)
                &&& table_dirs@[k].offset@ == input@.subrange(base + 4, base + 8)
                &&& table_dirs@[k].comp_length@ == input@.subrange(base + 8, base + 12)
                &&& table_dirs@[k].orig_length@ == input@.subrange(base + 12, base + 16)
                &&& table_dirs@[k].orig_checksum@ == input@.subrange(base + 16, base + 20)
            },
            ws.data@ == sfnt_header_out(input@) + dir_entries_out(input@, i as int),
        decreases n - i,
    {
        let ghost pre = ws.data@;
        let td = &table_dirs[i];
        ws.write(copy_bytes(&td.tag));
        ws.write(copy_bytes(&td.orig_checksum));
        let low: u32 = (offset % 0x1_0000_0000) as u32;
        ws.write(convert_u32_to_u8s_be_vec(low));
        ws.write(copy_bytes(&td.orig_length));
        let olen: u64 = convert_be_to_u32(copy_bytes(&td.orig_length)) as u64;
        proof {
            let base = table_entry_base(i as int);
            assert(olen as int == be32(input@, base + 12)) by {
                assert(td.orig_length@[0] == input@[base + 12]
                    && td.orig_length@[1] == input@[base + 13]
                    && td.orig_length@[2] == input@[base + 14]
                    && td.orig_length@[3] == input@[base + 15]);
            }
            assert(ws.data@ =~= sfnt_header_out(input@) + dir_entries_out(input@, i + 1 as int));
        }
        offset = offset + olen;
        if offset % 4 != 0 {
            offset = offset + (4 - offset % 4);
        }
        i = i + 1;
    }

    let ghost head = sfnt_header_out(input@) + dir_entries_out(input@, n as int);
    let mut i: usize = 0;
    while i < n
        invariant
            i <= n,
            n == be16(input@, 12),
            44 + 20 * n <= input@.len(),
            rs.data@ == input@,
            table_dirs@.len() == n,
            forall|k: int| 0 <= k < n ==> {
                let base = table_entry_base(k);
                &&& (#[trigger] table_dirs@[k]).tag@ == input@.subrange(base, base + 4)
                &&& table_dirs@[k].offset@ == input@.subrange(base + 4, base + 8)
                &&& table_dirs@[k].comp_length@ == input@.subrange(base + 8, base + 12)
                &&& table_dirs@[k].orig_length@ == input@.subrange(base + 12, base + 16)
                &&& table_dirs@[k].orig_checksum@ == input@.subrange(base + 16, base + 20)
            },
            payloads_out(input@, i as int) is Some,
            ws.data@ == head + payloads_out(input@, i as int).unwrap(),
        decreases n - i,
    {
        let ghost pre_payloads = payloads_out(input@, i as int).unwrap();
        let td = &table_dirs[i];
        let off_v: u64 = convert_be_to_u32(copy_bytes(&td.offset)) as u64;
        let clen: u64 = convert_be_to_u32(copy_bytes(&td.comp_length)) as u64;
        let olen: u64 = convert_be_to_u32(copy_bytes(&td.orig_length)) as u64;
        proof {
            let base = table_entry_base(i as int);
            assert(off_v as int == be32(input@, base + 4) && clen as int == be32(input@, base + 8)
                && olen as int == be32(input@, base + 12)) by {
                assert(td.offset@[0] == input@[base + 4] && td.offset@[1] == input@[base + 5]
                    && td.offset@[2] == input@[base + 6] && td.offset@[3] == input@[base + 7]);
                assert(td.comp_length@[0] == input@[base + 8] && td.comp_length@[1] == input@[base + 9]
                    && td.comp_length@[2] == input@[base + 10] && td.comp_length@[3] == input@[base + 11]);
                assert(td.orig_length@[0] == input@[base + 12] && td.orig_length@[1] == input@[base + 13]
                    && td.orig_length@[2] == input@[base + 14] && td.orig_length@[3] == input@[base + 15]);
            }
        }
        if off_v + clen > input.len() as u64 {
            proof {
                assert(table_payload(input@, i as int) is None);
                assert(payloads_out(input@, i + 1 as int) is None);
                lemma_payloads_none_mono(input@, i + 1 as int, n as int);
            }
            return None;
        }
        rs.offset = off_v as usize;
        let data = match rs.read_vec(clen as usize) {
            Some(d) => d,
            None => {
                proof {
                    assert(false);
                }
                return None;
            }
        };
        let ghost comp = data@;
        let data = if clen != olen {
            match inflate_zlib(&data) {
                Some(d) => d,
                None => {
                    proof {
                        assert(table_payload(input@, i as int) is None);
                        assert(payloads_out(input@, i + 1 as int) is None);
                        lemma_payloads_none_mono(input@, i + 1 as int, n as int);
                    }
                    return None;
                }
            }
        } else {
            data
        };
        ws.write(data);
        let pad: u64 = if olen % 4 != 0 { 4 - olen % 4 } else { 0 };
        let mut padding_vec = Vec::<u8>::new();
        let mut j: u64 = 0;
        while j < pad
            invariant
                j <= pad,
                pad <= 3,
                padding_vec@ =~= zeros(j as int),
            decreases pad - j,
        {
            padding_vec.push(0u8);
            proof {
                assert(padding_vec@ =~= zeros(j + 1 as int));
            }
            j = j + 1;
        }
        ws.write(padding_vec);
        proof {
            assert(table_payload(input@, i as int) is Some);
            let p = table_payload(input@, i as int).unwrap();
            assert(payloads_out(input@, i + 1 as int) == Some(pre_payloads + p));
            assert(ws.data@ =~= head + (pre_payloads + p));
        }
        i = i + 1;
    }
    proof {
        assert(spec_decompress(input@) == Some(ws.data@)) by {
            assert(payloads_out(input@, n as int) == Some(ws.data@.subrange(head.len() as int, ws.data@.len() as int))) by {
                assert(ws.data@ == head + payloads_out(input@, n as int).unwrap());
                assert(ws.data@.subrange(head.len() as int, ws.data@.len() as int)
                    =~= payloads_out(input@, n as int).unwrap());
            }
        }
    }
    Some(ws.into_data())
}

} // verus!
