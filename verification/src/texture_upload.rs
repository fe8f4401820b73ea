//! Uploading instance records into a texture, row by row.
use crate::arith::{
    align_up, align_up_is_least_multiple, ceil_div, ceil_div_is_least_cover, min_of, min_u64,
};
use crate::instances::{
    allocation_is_placed, extent_bytes, InstanceData, InstanceMemory, INSTANCE_TEXTURE_TEXEL_SIZE,
};
use vstd::arithmetic::div_mod::lemma_fundamental_div_mod;
use vstd::prelude::*;

verus! {

/// One write into a row of the instance texture. A final texel that the
/// records fill only in part is padded with zeros.
#[derive(Clone, Copy, Debug, PartialEq, Eq, Structural)]
pub struct TexelWrite {
    /// Column of the first texel.
    pub x: u32,
    /// Row of the texels.
    pub y: u32,
    /// First byte of the records to write.
    pub start: u64,
    /// Bytes of the records to write.
    pub bytes: u64,
    /// Texels to write.
    pub texels: u32,
    /// Bytes in the written row, padding included.
    pub bytes_per_row: u32,
}

impl TexelWrite {
    /// The bytes that the write puts into the texture: its part of the records,
    /// and zeros to the end of its row.
    pub open spec fn row(self, records: Seq<u8>) -> Seq<u8> {
        records.subrange(self.start as int, self.start + self.bytes) + Seq::new(
            (self.bytes_per_row - self.bytes) as nat,
            |i: int| 0u8,
        )
    }

    /// The bytes that the write puts into the texture: its part of the records,
    /// and zeros to the end of its row.
    pub fn row_bytes(&self, records: &Vec<u8>) -> (result: Vec<u8>)
        requires
            self.start + self.bytes <= records@.len(),
            self.bytes <= self.bytes_per_row,
        ensures
            result@ == self.row(records@),
    {
        let mut row: Vec<u8> = Vec::new();
        let available: usize = records.len();
        assert(self.start + self.bytes <= available);
        let end: usize = (self.start + self.bytes) as usize;
        let mut index: usize = self.start as usize;
        while index < end
            invariant
                self.start <= index <= end,
                end == self.start + self.bytes,
                end <= records@.len(),
                row@ == records@.subrange(self.start as int, index as int),
            decreases end - index,
        {
            row.push(records[index]);
            index = index + 1;
            assert(row@ =~= records@.subrange(self.start as int, index as int));
        }
        let ghost taken = row@;
        let mut filled: u64 = self.bytes;
        while filled < self.bytes_per_row as u64
            invariant
                self.bytes <= filled <= self.bytes_per_row,
                row@ == taken + Seq::new((filled - self.bytes) as nat, |i: int| 0u8),
            decreases self.bytes_per_row - filled,
        {
            row.push(0);
            filled = filled + 1;
            assert(row@ =~= taken + Seq::new((filled - self.bytes) as nat, |i: int| 0u8));
        }
        row
    }

    /// A texture's bytes, texel after texel and row after row, after the write.
    pub open spec fn applied(self, texels: Seq<u8>, width: int, records: Seq<u8>) -> Seq<u8> {
        let first = (self.y * width + self.x) * INSTANCE_TEXTURE_TEXEL_SIZE;
        let end = first + self.texels * INSTANCE_TEXTURE_TEXEL_SIZE;
        Seq::new(
            texels.len(),
            |i: int|
                if first <= i < end {
                    self.row(records)[i - first]
                } else {
                    texels[i]
                },
        )
    }
}

/// The writes of an upload, in order.
#[derive(Debug)]
pub struct TextureUpload {
    /// The writes, in order.
    pub writes: Vec<TexelWrite>,
    /// Bytes at the end of the records that lie below the texture's last row.
    pub dropped: u64,
}

/// The write that starts at texel `texel` with byte `start` of `length`: as
/// many whole texels as the records and the row have, or the last partial one.
pub open spec fn texel_write(width: int, texel: int, start: int, length: int) -> TexelWrite {
    let x = texel % width;
    let whole = min_of((length - start) / INSTANCE_TEXTURE_TEXEL_SIZE as int, width - x);
    let bytes = if whole > 0 {
        whole * INSTANCE_TEXTURE_TEXEL_SIZE
    } else {
        length - start
    };
    TexelWrite {
        x: x as u32,
        y: (texel / width) as u32,
        start: start as u64,
        bytes: bytes as u64,
        texels: if whole > 0 {
            whole as u32
        } else {
            1
        },
        bytes_per_row: if whole > 0 {
            bytes as u32
        } else {
            INSTANCE_TEXTURE_TEXEL_SIZE as u32
        },
    }
}

/// The writes for the records from byte `start` on, placed from texel `texel`
/// on, down to the last row.
pub open spec fn texel_writes(width: int, height: int, texel: int, start: int, length: int) -> Seq<
    TexelWrite,
>
    decreases length - start,
{
    if width <= 0 || start >= length || (texel / width) as u32 >= height {
        Seq::empty()
    } else {
        let write = texel_write(width, texel, start, length);
        let whole = min_of(
            (length - start) / INSTANCE_TEXTURE_TEXEL_SIZE as int,
            width - texel % width,
        );
        if whole > 0 {
            seq![write] + texel_writes(
                width,
                height,
                texel + whole,
                start + whole * INSTANCE_TEXTURE_TEXEL_SIZE,
                length,
            )
        } else {
            seq![write]
        }
    }
}

/// Bytes that a run of writes takes from the records.
pub open spec fn bytes_written(writes: Seq<TexelWrite>) -> int
    decreases writes.len(),
{
    if writes.len() == 0 {
        0
    } else {
        writes.first().bytes + bytes_written(writes.drop_first())
    }
}

/// The writes that put `length` bytes of records at `offset` of a texture.
/// Records below the last row are dropped and counted.
pub fn write_instance_texture(width: u32, height: u32, offset: u64, length: u64) -> (result:
    TextureUpload)
    requires
        width >= 1,
    ensures
        result.writes@ == texel_writes(
            width as int,
            height as int,
            offset as int / INSTANCE_TEXTURE_TEXEL_SIZE as int,
            0,
            length as int,
        ),
        result.dropped == length - bytes_written(result.writes@),
{
    let mut writes: Vec<TexelWrite> = Vec::new();
    let mut byte_offset: u64 = 0;
    let mut texel_offset: u64 = offset / INSTANCE_TEXTURE_TEXEL_SIZE;
    let ghost first_texel = texel_offset as int;
    let ghost all = texel_writes(width as int, height as int, first_texel, 0, length as int);
    while byte_offset < length
        invariant
            width >= 1,
            byte_offset <= length,
            first_texel == offset as int / INSTANCE_TEXTURE_TEXEL_SIZE as int,
            texel_offset <= first_texel + byte_offset as int / INSTANCE_TEXTURE_TEXEL_SIZE as int,
            bytes_written(writes@) == byte_offset,
            all == texel_writes(width as int, height as int, first_texel, 0, length as int),
            all == writes@ + texel_writes(
                width as int,
                height as int,
                texel_offset as int,
                byte_offset as int,
                length as int,
            ),
        decreases length - byte_offset,
    {
        let x: u32 = (texel_offset % width as u64) as u32;
        let y: u32 = #[verifier::truncate] ((texel_offset / width as u64) as u32);
        if y >= height {
            return TextureUpload { writes, dropped: length - byte_offset };
        }
        let available_texels: u64 = (width - x) as u64;
        let remaining_bytes: u64 = length - byte_offset;
        let complete_texels: u64 = remaining_bytes / INSTANCE_TEXTURE_TEXEL_SIZE;
        let texels: u64 = min_u64(complete_texels, available_texels);
        let ghost before = writes@;
        if texels > 0 {
            let byte_count: u64 = texels * INSTANCE_TEXTURE_TEXEL_SIZE;
            let write = TexelWrite {
                x,
                y,
                start: byte_offset,
                bytes: byte_count,
                texels: texels as u32,
                bytes_per_row: #[verifier::truncate] (byte_count as u32),
            };
            assert(write == texel_write(
                width as int,
                texel_offset as int,
                byte_offset as int,
                length as int,
            ));
            proof {
                lemma_bytes_written_push(before, write);
            }
            writes.push(write);
            byte_offset = byte_offset + byte_count;
            texel_offset = texel_offset + texels;
            assert(before + (seq![write] + texel_writes(
                width as int,
                height as int,
                texel_offset as int,
                byte_offset as int,
                length as int,
            )) =~= before.push(write) + texel_writes(
                width as int,
                height as int,
                texel_offset as int,
                byte_offset as int,
                length as int,
            ));
        } else {
            let write = TexelWrite {
                x,
                y,
                start: byte_offset,
                bytes: remaining_bytes,
                texels: 1,
                bytes_per_row: INSTANCE_TEXTURE_TEXEL_SIZE as u32,
            };
            proof {
                lemma_bytes_written_push(before, write);
            }
            writes.push(write);
            assert(before + seq![write] =~= before.push(write));
            return TextureUpload { writes, dropped: 0 };
        }
    }
    TextureUpload { writes, dropped: 0 }
}

proof fn lemma_bytes_written_push(writes: Seq<TexelWrite>, write: TexelWrite)
    ensures
        bytes_written(writes.push(write)) == bytes_written(writes) + write.bytes,
    decreases writes.len(),
{
    let pushed = writes.push(write);
    if writes.len() == 0 {
        assert(pushed.drop_first() =~= writes);
    } else {
        assert(pushed.first() == writes.first());
        assert(pushed.drop_first() =~= writes.drop_first().push(write));
        lemma_bytes_written_push(writes.drop_first(), write);
    }
}

/// A write puts its bytes where they belong: byte `b` of the records lands in
/// the texel that holds byte `offset + b` of the memory, the row is not
/// overrun, and the texels end where the records do, or with padding that
/// stays within the last texel. The written row is as long as its texels, where
/// a row of the texture can be counted in bytes.
pub open spec fn write_in_place(
    write: TexelWrite,
    width: int,
    height: int,
    first_texel: int,
    length: int,
) -> bool {
    let texel = INSTANCE_TEXTURE_TEXEL_SIZE as int;
    &&& write.start as int % texel == 0
    &&& write.y as int * width + write.x == first_texel + write.start as int / texel
    &&& 1 <= write.texels
    &&& write.x + write.texels <= width
    &&& write.y < height
    &&& 1 <= write.bytes
    &&& write.start + write.bytes <= length
    &&& write.texels == ceil_div(write.bytes as int, texel)
    &&& write.bytes == write.texels * texel || write.start + write.bytes == length
    &&& width * texel <= u32::MAX ==> write.bytes_per_row == write.texels * texel
}

proof fn lemma_first_write(width: int, height: int, texel: int, start: int, length: int)
    requires
        1 <= width,
        start < length,
        height > (texel / width) as u32,
    ensures
        ({
            let writes = texel_writes(width, height, texel, start, length);
            writes.len() > 0 && writes.first() == texel_write(width, texel, start, length)
        }),
{
}

proof fn lemma_writes_in_place(
    width: int,
    height: int,
    first_texel: int,
    start: int,
    length: int,
    index: int,
)
    requires
        1 <= width <= u32::MAX,
        1 <= height <= u32::MAX,
        first_texel >= 0,
        0 <= start <= length <= u64::MAX,
        start % INSTANCE_TEXTURE_TEXEL_SIZE as int == 0,
        first_texel + ceil_div(length, INSTANCE_TEXTURE_TEXEL_SIZE as int) <= width * height,
    ensures
        ({
            let writes = texel_writes(
                width,
                height,
                first_texel + start / INSTANCE_TEXTURE_TEXEL_SIZE as int,
                start,
                length,
            );
            &&& bytes_written(writes) == length - start
            &&& 0 <= index < writes.len() ==> {
                &&& write_in_place(writes[index], width, height, first_texel, length)
                &&& index == 0 ==> writes[index].start == start
                &&& index > 0 ==> writes[index].start == writes[index - 1].start + writes[index
                    - 1].bytes
            }
        }),
    decreases length - start,
{
    let size = INSTANCE_TEXTURE_TEXEL_SIZE as int;
    let texel = first_texel + start / size;
    if start < length {
        let x = texel % width;
        let y = texel / width;
        let whole = min_of((length - start) / size, width - x);
        let write = texel_write(width, texel, start, length);
        lemma_fundamental_div_mod(texel, width);
        ceil_div_is_least_cover(length, size);
        assert(texel < width * height);
        assert(0 <= y < height) by (nonlinear_arith)
            requires
                texel == width * y + x,
                0 <= x < width,
                0 <= texel < width * height,
                width >= 1,
        ;
        assert(y * width + x == texel) by (nonlinear_arith)
            requires
                texel == width * y + x,
        ;
        let writes = texel_writes(width, height, texel, start, length);
        if whole > 0 {
            let next = start + whole * size;
            let rest = texel_writes(width, height, texel + whole, next, length);
            lemma_writes_in_place(width, height, first_texel, next, length, index - 1);
            assert(first_texel + next / size == texel + whole);
            assert(writes == seq![write] + rest);
            assert(writes.first() == write);
            assert(writes.drop_first() =~= rest);
            lemma_writes_in_place(width, height, first_texel, next, length, 0);
            assert(write.start + write.bytes == next);
            if 0 < index < writes.len() {
                assert(writes[index] == rest[index - 1]);
                if index > 1 {
                    assert(writes[index - 1] == rest[index - 2]);
                }
            }
            assert(write_in_place(write, width, height, first_texel, length));
        } else {
            assert(writes == seq![write]);
            assert(writes.drop_first() =~= Seq::<TexelWrite>::empty());
            assert(bytes_written(writes.drop_first()) == 0);
            assert(length - start < size);
            assert(write_in_place(write, width, height, first_texel, length));
        }
    }
}

/// Records that fit the texture are uploaded whole: nothing is dropped, the
/// writes take the records' bytes one run after the other, and each lands in
/// place.
pub proof fn upload_covers_records(width: int, height: int, offset: int, length: int)
    requires
        1 <= width <= u32::MAX,
        1 <= height <= u32::MAX,
        offset >= 0,
        offset % INSTANCE_TEXTURE_TEXEL_SIZE as int == 0,
        0 <= length <= u64::MAX,
        offset + length <= extent_bytes(width, height),
    ensures
        ({
            let first_texel = offset / INSTANCE_TEXTURE_TEXEL_SIZE as int;
            let writes = texel_writes(width, height, first_texel, 0, length);
            &&& bytes_written(writes) == length
            &&& forall|i: int|
                0 <= i < writes.len() ==> write_in_place(
                    #[trigger] writes[i],
                    width,
                    height,
                    first_texel,
                    length,
                )
            &&& forall|i: int|
                0 < i < writes.len() ==> (#[trigger] writes[i]).start == writes[i - 1].start
                    + writes[i - 1].bytes
            &&& writes.len() > 0 ==> writes[0].start == 0
        }),
{
    let size = INSTANCE_TEXTURE_TEXEL_SIZE as int;
    let first_texel = offset / size;
    let writes = texel_writes(width, height, first_texel, 0, length);
    ceil_div_is_least_cover(length, size);
    assert(first_texel + ceil_div(length, size) <= width * height) by {
        let rows = width * height;
        assert(offset + length <= rows * 16);
    }
    lemma_writes_in_place(width, height, first_texel, 0, length, 0);
    assert forall|i: int| 0 <= i < writes.len() implies write_in_place(
        #[trigger] writes[i],
        width,
        height,
        first_texel,
        length,
    ) by {
        lemma_writes_in_place(width, height, first_texel, 0, length, i);
    }
    assert forall|i: int| 0 < i < writes.len() implies (#[trigger] writes[i]).start == writes[i
        - 1].start + writes[i - 1].bytes by {
        lemma_writes_in_place(width, height, first_texel, 0, length, i);
    }
}

/// A texture's bytes after a run of writes.
pub open spec fn uploaded(
    texels: Seq<u8>,
    width: int,
    writes: Seq<TexelWrite>,
    records: Seq<u8>,
) -> Seq<u8>
    decreases writes.len(),
{
    if writes.len() == 0 {
        texels
    } else {
        uploaded(
            writes.first().applied(texels, width, records),
            width,
            writes.drop_first(),
            records,
        )
    }
}

/// Byte `index` of a texture whose bytes were `texels`, after the records from
/// byte `start` on were put at `offset`: the records' byte, or zero in the rest
/// of their last texel, or what was there before.
pub open spec fn byte_read_back(
    texels: Seq<u8>,
    offset: int,
    records: Seq<u8>,
    start: int,
    index: int,
) -> u8 {
    let end = offset + records.len();
    if offset + start <= index < end {
        records[index - offset]
    } else if end <= index < align_up(end, INSTANCE_TEXTURE_TEXEL_SIZE as int) {
        0
    } else {
        texels[index]
    }
}

proof fn lemma_read_back(
    texels: Seq<u8>,
    width: int,
    height: int,
    offset: int,
    records: Seq<u8>,
    start: int,
)
    requires
        1 <= width,
        width * INSTANCE_TEXTURE_TEXEL_SIZE <= u32::MAX,
        1 <= height <= u32::MAX,
        offset >= 0,
        offset % INSTANCE_TEXTURE_TEXEL_SIZE as int == 0,
        records.len() <= u64::MAX,
        offset + records.len() <= extent_bytes(width, height),
        0 <= start <= records.len(),
        start % INSTANCE_TEXTURE_TEXEL_SIZE as int == 0,
    ensures
        ({
            let size = INSTANCE_TEXTURE_TEXEL_SIZE as int;
            let length = records.len() as int;
            let writes = texel_writes(width, height, offset / size + start / size, start, length);
            let after = uploaded(texels, width, writes, records);
            &&& after.len() == texels.len()
            &&& forall|i: int|
                0 <= i < texels.len() ==> #[trigger] after[i] == byte_read_back(
                    texels,
                    offset,
                    records,
                    start,
                    i,
                )
        }),
    decreases records.len() - start,
{
    let size = INSTANCE_TEXTURE_TEXEL_SIZE as int;
    let length = records.len() as int;
    let first_texel = offset / size;
    let texel = first_texel + start / size;
    let end = offset + length;
    let writes = texel_writes(width, height, texel, start, length);
    let after = uploaded(texels, width, writes, records);
    align_up_is_least_multiple(end, size, end);
    if start < length {
        let write = texel_write(width, texel, start, length);
        let whole = min_of((length - start) / size, width - texel % width);
        ceil_div_is_least_cover(length, size);
        assert(first_texel + ceil_div(length, size) <= width * height) by {
            let rows = width * height;
            assert(offset + length <= rows * 16);
        }
        lemma_writes_in_place(width, height, first_texel, start, length, 0);
        assert(writes.len() > 0 && writes.first() == write) by {
            lemma_first_write(width, height, texel, start, length);
        }
        let placed = write.applied(texels, width, records);
        assert((write.y * width + write.x) * 16 == offset + start);
        if whole > 0 {
            let next = start + whole * size;
            let rest = texel_writes(width, height, texel + whole, next, length);
            assert(writes.drop_first() =~= rest);
            assert(first_texel + next / size == texel + whole);
            lemma_read_back(placed, width, height, offset, records, next);
            assert forall|i: int| 0 <= i < texels.len() implies #[trigger] after[i]
                == byte_read_back(texels, offset, records, start, i) by {
                assert(after[i] == byte_read_back(placed, offset, records, next, i));
            }
        } else {
            assert(writes.drop_first() =~= Seq::<TexelWrite>::empty());
            assert(after == placed) by {
                reveal_with_fuel(uploaded, 2);
            }
            assert(align_up(end, size) == offset + start + size) by {
                align_up_is_least_multiple(end, size, offset + start + size);
            }
        }
    }
}

/// What is uploaded can be read back: byte after byte, the records lie at
/// their offset, the rest of their last texel is zero, and everything else in
/// the texture is what it was.
pub proof fn uploaded_records_are_read_back(
    texels: Seq<u8>,
    width: int,
    height: int,
    offset: int,
    records: Seq<u8>,
)
    requires
        1 <= width,
        width * INSTANCE_TEXTURE_TEXEL_SIZE <= u32::MAX,
        1 <= height <= u32::MAX,
        texels.len() == extent_bytes(width, height),
        offset >= 0,
        offset % INSTANCE_TEXTURE_TEXEL_SIZE as int == 0,
        records.len() <= u64::MAX,
        offset + records.len() <= texels.len(),
    ensures
        ({
            let first_texel = offset / INSTANCE_TEXTURE_TEXEL_SIZE as int;
            let writes = texel_writes(width, height, first_texel, 0, records.len() as int);
            let after = uploaded(texels, width, writes, records);
            &&& after.len() == texels.len()
            &&& forall|i: int|
                0 <= i < texels.len() ==> #[trigger] after[i] == byte_read_back(
                    texels,
                    offset,
                    records,
                    0,
                    i,
                )
        }),
{
    lemma_read_back(texels, width, height, offset, records, 0);
}

/// The texels of a write lie within `reserved` bytes from `at` on.
pub open spec fn write_within(write: TexelWrite, width: int, at: int, reserved: int) -> bool {
    let first = write.y * width + write.x;
    &&& at <= first * INSTANCE_TEXTURE_TEXEL_SIZE
    &&& (first + write.texels) * INSTANCE_TEXTURE_TEXEL_SIZE <= at + reserved
}

proof fn lemma_write_within(
    write: TexelWrite,
    width: int,
    height: int,
    at: int,
    byte_count: int,
    reserved: int,
)
    requires
        write_in_place(write, width, height, at / INSTANCE_TEXTURE_TEXEL_SIZE as int, byte_count),
        at >= 0,
        at % INSTANCE_TEXTURE_TEXEL_SIZE as int == 0,
        (at + reserved) % INSTANCE_TEXTURE_TEXEL_SIZE as int == 0,
        byte_count <= reserved,
    ensures
        write_within(write, width, at, reserved),
{
    ceil_div_is_least_cover(write.bytes as int, INSTANCE_TEXTURE_TEXEL_SIZE as int);
    let first = write.y * width + write.x;
    assert(first * 16 == at + write.start);
    assert((first + write.texels) * 16 < at + byte_count + 16);
}

/// Records that an instance texture has room for are uploaded whole, and no
/// write leaves the bytes reserved for them.
pub proof fn placed_records_are_uploaded_whole(
    memory: InstanceMemory,
    offset: int,
    byte_count: int,
    record_size: int,
    width: u32,
    height: u32,
)
    requires
        memory.wf(),
        memory.uses_webgl,
        offset >= 0,
        0 <= byte_count <= u64::MAX,
        record_size >= 0,
        memory.placement(offset, byte_count, record_size) matches Ok((after, _)) && after.data == (
        InstanceData::Texture { width, height }),
    ensures
        ({
            let at = memory.placement(offset, byte_count, record_size)->Ok_0.1;
            let writes = texel_writes(
                width as int,
                height as int,
                at / INSTANCE_TEXTURE_TEXEL_SIZE as int,
                0,
                byte_count,
            );
            &&& bytes_written(writes) == byte_count
            &&& forall|i: int|
                0 <= i < writes.len() ==> write_within(
                    #[trigger] writes[i],
                    width as int,
                    at,
                    memory.allocation_size(byte_count),
                )
        }),
{
    let (w, h) = (width as int, height as int);
    let size = INSTANCE_TEXTURE_TEXEL_SIZE as int;
    let reserved = memory.allocation_size(byte_count);
    let (after, at) = memory.placement(offset, byte_count, record_size)->Ok_0;
    allocation_is_placed(memory, offset, byte_count, record_size);
    upload_covers_records(w, h, at, byte_count);
    let writes = texel_writes(w, h, at / size, 0, byte_count);
    assert forall|i: int| 0 <= i < writes.len() implies write_within(
        #[trigger] writes[i],
        w,
        at,
        reserved,
    ) by {
        lemma_write_within(writes[i], w, h, at, byte_count, reserved);
    }
}

proof fn lemma_bytes_that_fit(width: int, height: int, texel: int, start: int, length: int)
    requires
        1 <= width <= u32::MAX,
        0 <= height <= u32::MAX,
        texel >= 0,
        0 <= start <= length <= u64::MAX,
        texel + (length - start) / INSTANCE_TEXTURE_TEXEL_SIZE as int <= width * u32::MAX,
    ensures
        ({
            let writes = texel_writes(width, height, texel, start, length);
            let room = (width * height - texel) * INSTANCE_TEXTURE_TEXEL_SIZE;
            &&& bytes_written(writes) == if room <= 0 {
                0
            } else {
                min_of(length - start, room)
            }
            &&& forall|i: int|
                0 <= i < writes.len() ==> (#[trigger] writes[i]).y < height && writes[i].x
                    + writes[i].texels <= width
        }),
    decreases length - start,
{
    let size = INSTANCE_TEXTURE_TEXEL_SIZE as int;
    let writes = texel_writes(width, height, texel, start, length);
    let x = texel % width;
    let y = texel / width;
    lemma_fundamental_div_mod(texel, width);
    assert(0 <= y <= u32::MAX) by (nonlinear_arith)
        requires
            texel == width * y + x,
            0 <= x < width,
            0 <= texel <= width * u32::MAX,
            width >= 1,
    ;
    assert(y >= height <==> texel >= width * height) by (nonlinear_arith)
        requires
            texel == width * y + x,
            0 <= x < width,
    ;
    if start < length && y < height {
        let whole = min_of((length - start) / size, width - x);
        let write = texel_write(width, texel, start, length);
        if whole > 0 {
            let next = start + whole * size;
            let rest = texel_writes(width, height, texel + whole, next, length);
            assert((length - next) / size == (length - start) / size - whole);
            lemma_bytes_that_fit(width, height, texel + whole, next, length);
            assert(writes.first() == write);
            assert(writes.drop_first() =~= rest);
            assert(texel + whole <= width * height) by (nonlinear_arith)
                requires
                    texel == width * y + x,
                    whole <= width - x,
                    y < height,
                    width >= 1,
            ;
            assert forall|i: int| 0 <= i < writes.len() implies (#[trigger] writes[i]).y < height
                && writes[i].x + writes[i].texels <= width by {
                if i > 0 {
                    assert(writes[i] == rest[i - 1]);
                }
            }
        } else {
            assert(writes == seq![write]);
            assert(writes.drop_first() =~= Seq::<TexelWrite>::empty());
            assert(bytes_written(writes.drop_first()) == 0);
        }
    }
}

/// Of records that do not fit a texture, exactly those bytes are dropped that
/// would lie below its last row, and no write leaves the texture.
pub proof fn only_what_lies_below_is_dropped(width: int, height: int, offset: int, length: int)
    requires
        1 <= width <= u32::MAX,
        0 <= height <= u32::MAX,
        offset >= 0,
        offset % INSTANCE_TEXTURE_TEXEL_SIZE as int == 0,
        0 <= length <= u64::MAX,
        offset + length <= extent_bytes(width, u32::MAX as int),
    ensures
        ({
            let first_texel = offset / INSTANCE_TEXTURE_TEXEL_SIZE as int;
            let writes = texel_writes(width, height, first_texel, 0, length);
            let room = extent_bytes(width, height) - offset;
            &&& bytes_written(writes) == if room <= 0 {
                0
            } else {
                min_of(length, room)
            }
            &&& forall|i: int|
                0 <= i < writes.len() ==> (#[trigger] writes[i]).y < height && writes[i].x
                    + writes[i].texels <= width
        }),
{
    let size = INSTANCE_TEXTURE_TEXEL_SIZE as int;
    let rows = width * u32::MAX;
    assert(offset + length <= rows * 16);
    lemma_bytes_that_fit(width, height, offset / size, 0, length);
    let texels = width * height;
    assert((texels - offset / size) * 16 == texels * 16 - offset);
}

} // verus!
