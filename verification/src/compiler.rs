use vstd::prelude::*;
use crate::constants::{EI_CLASS, EI_DATA, ELFCLASS32, ELFDATA2LSB, PT_LOAD};
use crate::memory::Memory;

verus! {

/// The error type of the ELF parser, carried through unopened.
#[verifier::external_type_specification]
#[verifier::external_body]
pub struct ExParseError(goblin::error::Error);

/// The error type of file reads, carried through unopened.
#[verifier::external_type_specification]
#[verifier::external_body]
pub struct ExIoError(std::io::Error);

/// Why an image could not be loaded.
#[derive(Debug)]
pub enum ElfError {
    /// The file could not be read.
    Io(std::io::Error),
    /// The bytes are not a well-formed ELF file.
    Parse(goblin::error::Error),
    /// The file is not 32-bit little-endian; holds its class and byte-order bytes.
    UnsupportedFormat(u8, u8),
    /// A loadable segment does not fit in memory; holds its address and size in memory.
    SegmentOutOfBounds(u32, usize),
}

/// What a successful load reports.
#[derive(Debug)]
pub struct LoadResult {
    pub entry: u32,
}

/// One program header of an ELF file, by the fields that loading reads.
#[derive(Debug, Clone, Copy, PartialEq, Eq)]
pub struct Segment {
    pub p_type: u32,
    pub p_offset: u64,
    pub p_paddr: u64,
    pub p_filesz: u64,
    pub p_memsz: u64,
}

/// A parsed ELF file, by what loading reads of it: the entry address and
/// the program headers in file order.
#[derive(Debug)]
pub struct ElfImage {
    pub entry: u64,
    pub segments: Vec<Segment>,
}

/// An `ElfImage` as contracts see it.
pub struct ElfImageView {
    pub entry: u64,
    pub segments: Seq<Segment>,
}

impl View for ElfImage {
    type V = ElfImageView;

    open spec fn view(&self) -> ElfImageView {
        ElfImageView { entry: self.entry, segments: self.segments@ }
    }
}

/// What the ELF parser makes of a file's bytes: the entry address and the
/// program headers, or `None` where it rejects the file.
pub uninterp spec fn parsed_elf(bytes: Seq<u8>) -> Option<ElfImageView>;

impl Segment {
    /// The address the segment is loaded at.
    pub open spec fn load_addr(self) -> u32 {
        self.p_paddr as u32
    }

    /// The number of bytes the file holds for the segment.
    pub open spec fn file_size(self) -> usize {
        self.p_filesz as usize
    }

    /// The number of bytes the segment takes in memory.
    pub open spec fn mem_size(self) -> usize {
        self.p_memsz as usize
    }

    /// Where in the file the segment's bytes begin.
    pub open spec fn file_offset(self) -> usize {
        self.p_offset as usize
    }

    /// Whether the program header describes a segment to be loaded.
    pub open spec fn loadable(self) -> bool {
        self.p_type == PT_LOAD
    }

    /// Whether the segment's span in memory lies within `mem_len` bytes.
    pub open spec fn fits(self, mem_len: nat) -> bool {
        self.load_addr() + self.mem_size() <= mem_len
    }

    /// Whether the segment's file bytes exist in a file of `file_len` bytes
    /// and have room in a memory of `mem_len` bytes.
    pub open spec fn copyable(self, file_len: nat, mem_len: nat) -> bool {
        &&& self.file_size() > 0 ==> self.file_offset() + self.file_size() <= file_len
        &&& self.load_addr() + self.file_size() <= mem_len
    }

    /// Memory after the segment is placed: its file bytes from the load
    /// address on, zeros up to its size in memory, the rest as before.
    pub open spec fn place(self, mem: Seq<u8>, file: Seq<u8>) -> Seq<u8> {
        Seq::new(
            mem.len(),
            |i: int|
                if self.load_addr() <= i < self.load_addr() + self.file_size() {
                    file[self.file_offset() + i - self.load_addr()]
                } else if self.load_addr() + self.file_size() <= i < self.load_addr()
                    + self.mem_size() {
                    0u8
                } else {
                    mem[i]
                },
        )
    }
}

/// Memory after a run of program headers, and the segment that stopped it.
pub struct Loaded {
    pub mem: Seq<u8>,
    pub refused: Option<Segment>,
}

/// Loads the program headers in order: one that is not loadable is passed
/// over, a loadable one that fits is placed, and the first loadable one that
/// does not fit stops the run, the segments before it staying placed.
pub open spec fn load_segments(mem: Seq<u8>, file: Seq<u8>, segments: Seq<Segment>) -> Loaded
    decreases segments.len(),
{
    if segments.len() == 0 {
        Loaded { mem, refused: None }
    } else if !segments[0].loadable() {
        load_segments(mem, file, segments.drop_first())
    } else if !segments[0].fits(mem.len()) {
        Loaded { mem, refused: Some(segments[0]) }
    } else {
        load_segments(segments[0].place(mem, file), file, segments.drop_first())
    }
}

/// Whether every segment that a run of `load_segments` places can be copied.
pub open spec fn segments_copyable(mem_len: nat, file_len: nat, segments: Seq<Segment>) -> bool
    decreases segments.len(),
{
    if segments.len() == 0 {
        true
    } else if !segments[0].loadable() {
        segments_copyable(mem_len, file_len, segments.drop_first())
    } else if !segments[0].fits(mem_len) {
        true
    } else {
        segments[0].copyable(file_len, mem_len) && segments_copyable(
            mem_len,
            file_len,
            segments.drop_first(),
        )
    }
}

/// Whether a file is turned away for its class or byte order: both bytes
/// are there, and one of them is not that of a 32-bit little-endian file.
pub open spec fn format_refused(file: Seq<u8>) -> bool {
    file.len() > EI_DATA && (file[EI_CLASS as int] != ELFCLASS32 || file[EI_DATA as int]
        != ELFDATA2LSB)
}

/// Whether loading `file` into a memory of `mem_len` bytes copies only
/// bytes that the file holds, to places that the memory has.
pub open spec fn file_copyable(file: Seq<u8>, mem_len: nat) -> bool {
    format_refused(file) || parsed_elf(file) is None || segments_copyable(
        mem_len,
        file.len(),
        parsed_elf(file)->Some_0.segments,
    )
}

/// What loading an image gives for a run of its program headers.
pub open spec fn load_outcome(entry: u64, run: Loaded) -> Result<u32, (u32, usize)> {
    match run.refused {
        Some(seg) => Err((seg.load_addr(), seg.mem_size())),
        None => Ok(entry as u32),
    }
}

/// Whether `r` is what loading reports for `outcome`.
pub open spec fn reports(r: Result<LoadResult, ElfError>, outcome: Result<u32, (u32, usize)>)
    -> bool {
    match outcome {
        Ok(entry) => r is Ok && r->Ok_0.entry == entry,
        Err((addr, size)) => r is Err && r->Err_0 == ElfError::SegmentOutOfBounds(addr, size),
    }
}

/// Whether `r` and `after` are what loading `file` into a memory holding
/// `before` gives. A file turned away for its format, or rejected by the
/// parser, leaves memory as it was; else the parsed program headers are
/// loaded in order.
pub open spec fn loads(
    file: Seq<u8>,
    before: Seq<u8>,
    after: Seq<u8>,
    r: Result<LoadResult, ElfError>,
) -> bool {
    if format_refused(file) {
        &&& after == before
        &&& r is Err
        &&& r->Err_0 == ElfError::UnsupportedFormat(file[EI_CLASS as int], file[EI_DATA as int])
    } else if parsed_elf(file) is None {
        &&& after == before
        &&& r is Err
        &&& r->Err_0 is Parse
    } else {
        let image = parsed_elf(file)->Some_0;
        let run = load_segments(before, file, image.segments);
        &&& after == run.mem
        &&& reports(r, load_outcome(image.entry, run))
    }
}

/// Calls `goblin::elf::Elf::parse` on the file's bytes and copies out the
/// entry address and, for each program header in order, its type, file
/// offset, physical address and two sizes. The parser's answer depends on
/// the bytes alone; it is named `parsed_elf`, and an error stands for
/// `None`.
#[verifier::external_body]
fn parse_elf(file: &[u8]) -> (r: Result<ElfImage, goblin::error::Error>)
    ensures
        r is Ok <==> parsed_elf(file@) is Some,
        r is Ok ==> r->Ok_0@ == parsed_elf(file@)->Some_0,
{
    let elf = goblin::elf::Elf::parse(file)?;
    let mut segments = Vec::new();
    for ph in &elf.program_headers {
        let (p_type, p_offset, p_paddr) = (ph.p_type, ph.p_offset, ph.p_paddr);
        let (p_filesz, p_memsz) = (ph.p_filesz, ph.p_memsz);
        segments.push(Segment { p_type, p_offset, p_paddr, p_filesz, p_memsz });
    }
    Ok(ElfImage { entry: elf.header.e_entry, segments })
}

/// Loads ELF32 little-endian images into a memory.
pub struct ElfLoader;

impl ElfLoader {
    /// Places one segment that fits and can be copied.
    fn place_segment(seg: &Segment, file: &[u8], memory: &mut Memory)
        requires
            seg.fits(old(memory)@.len()),
            seg.copyable(file@.len(), old(memory)@.len()),
        ensures
            final(memory)@ == seg.place(old(memory)@, file@),
    {
        let size: usize = memory.size();
        let paddr: u32 = #[verifier::truncate]
        (seg.p_paddr as u32);
        let filesz: usize = #[verifier::truncate]
        (seg.p_filesz as usize);
        let memsz: usize = #[verifier::truncate]
        (seg.p_memsz as usize);
        let base_offset: usize = #[verifier::truncate]
        (seg.p_offset as usize);
        let ghost before = memory@;
        let file_len: usize = file.len();
        let mut i: usize = 0;
        while i < filesz
            invariant
                i <= filesz,
                file_len == file@.len(),
                paddr + filesz <= size,
                size == before.len(),
                size <= crate::constants::MAX_MEMORY_SIZE,
                filesz > 0 ==> base_offset + filesz <= file@.len(),
                memory@.len() == before.len(),
                forall|k: int|
                    0 <= k < before.len() ==> memory@[k] == (if paddr <= k < paddr + i {
                        file@[base_offset + k - paddr]
                    } else {
                        before[k]
                    }),
            decreases filesz - i,
        {
            let byte: u8 = file[base_offset + i];
            memory.store_byte(paddr + i as u32, byte).unwrap();
            i = i + 1;
        }
        let mut j: usize = filesz;
        while j < memsz
            invariant
                filesz <= j,
                j <= memsz || j == filesz,
                filesz > 0 ==> base_offset + filesz <= file@.len(),
                paddr + memsz <= size,
                paddr + filesz <= size,
                size == before.len(),
                size <= crate::constants::MAX_MEMORY_SIZE,
                memory@.len() == before.len(),
                forall|k: int|
                    0 <= k < before.len() ==> memory@[k] == (if paddr <= k < paddr + filesz {
                        file@[base_offset + k - paddr]
                    } else if paddr + filesz <= k < paddr + j {
                        0u8
                    } else {
                        before[k]
                    }),
            decreases memsz - j,
        {
            memory.store_byte(paddr + j as u32, 0).unwrap();
            j = j + 1;
        }
        assert(memory@ =~= seg.place(before, file@));
    }

    /// Loads a parsed image into memory, program header by program header,
    /// and reports its entry address, or the first loadable segment that
    /// does not fit; the segments before that one stay loaded.
    pub fn load_image(image: &ElfImage, file: &[u8], memory: &mut Memory) -> (r: Result<
        LoadResult,
        ElfError,
    >)
        requires
            segments_copyable(old(memory)@.len(), file@.len(), image@.segments),
        ensures
            final(memory)@ == load_segments(old(memory)@, file@, image@.segments).mem,
            reports(
                r,
                load_outcome(image@.entry, load_segments(old(memory)@, file@, image@.segments)),
            ),
    {
        let n: usize = image.segments.len();
        let mut i: usize = 0;
        assert(image@.segments.skip(0) =~= image@.segments);
        while i < n
            invariant
                i <= n,
                n == image.segments@.len(),
                memory@.len() == old(memory)@.len(),
                segments_copyable(memory@.len(), file@.len(), image@.segments.skip(i as int)),
                load_segments(old(memory)@, file@, image@.segments) == load_segments(
                    memory@,
                    file@,
                    image@.segments.skip(i as int),
                ),
            decreases n - i,
        {
            let seg: Segment = image.segments[i];
            let ghost rest = image@.segments.skip(i as int);
            assert(rest[0] == seg);
            assert(rest.drop_first() =~= image@.segments.skip(i + 1));
            if seg.p_type == PT_LOAD {
                let paddr: u32 = #[verifier::truncate]
                (seg.p_paddr as u32);
                let memsz: usize = #[verifier::truncate]
                (seg.p_memsz as usize);
                if (paddr as usize).saturating_add(memsz) > memory.size() {
                    return Err(ElfError::SegmentOutOfBounds(paddr, memsz));
                }
                Self::place_segment(&seg, file, memory);
            }
            i = i + 1;
        }
        assert(image@.segments.skip(n as int).len() == 0);
        Ok(LoadResult { entry: #[verifier::truncate]
        (image.entry as u32) })
    }

    /// Whether `load_image` may be called: whether every segment that it
    /// would place has its bytes in the file and room in memory.
    pub fn can_copy(image: &ElfImage, file: &[u8], memory: &Memory) -> (r: bool)
        ensures
            r == segments_copyable(memory@.len(), file@.len(), image@.segments),
    {
        let mem_len: usize = memory.size();
        let file_len: usize = file.len();
        let n: usize = image.segments.len();
        let mut i: usize = 0;
        assert(image@.segments.skip(0) =~= image@.segments);
        while i < n
            invariant
                i <= n,
                n == image.segments@.len(),
                mem_len == memory@.len(),
                mem_len <= crate::constants::MAX_MEMORY_SIZE,
                file_len == file@.len(),
                segments_copyable(memory@.len(), file@.len(), image@.segments)
                    == segments_copyable(
                    memory@.len(),
                    file@.len(),
                    image@.segments.skip(i as int),
                ),
            decreases n - i,
        {
            let seg: Segment = image.segments[i];
            let ghost rest = image@.segments.skip(i as int);
            assert(rest[0] == seg);
            assert(rest.drop_first() =~= image@.segments.skip(i + 1));
            if seg.p_type == PT_LOAD {
                let paddr: usize = (#[verifier::truncate]
                (seg.p_paddr as u32)) as usize;
                let filesz: usize = #[verifier::truncate]
                (seg.p_filesz as usize);
                let memsz: usize = #[verifier::truncate]
                (seg.p_memsz as usize);
                let offset: usize = #[verifier::truncate]
                (seg.p_offset as usize);
                if paddr.saturating_add(memsz) > mem_len {
                    return true;
                }
                if filesz > 0 && (filesz > file_len || offset > file_len - filesz) {
                    return false;
                }
                if paddr.saturating_add(filesz) > mem_len {
                    return false;
                }
            }
            i = i + 1;
        }
        assert(image@.segments.skip(n as int).len() == 0);
        true
    }

    /// Loads an ELF file, given by its bytes, into memory. A file whose
    /// class or byte-order byte is not that of a 32-bit little-endian file
    /// is turned away before it is parsed; one that the parser rejects is
    /// turned away with the parser's error; in both cases memory stays as
    /// it was. Else the parsed image is loaded as `load_image` says.
    pub fn load_elf(file: &[u8], memory: &mut Memory) -> (r: Result<LoadResult, ElfError>)
        requires
            file_copyable(file@, old(memory)@.len()),
        ensures
            loads(file@, old(memory)@, final(memory)@, r),
    {
        if file.len() > EI_DATA {
            let class: u8 = file[EI_CLASS];
            let data: u8 = file[EI_DATA];
            if class != ELFCLASS32 || data != ELFDATA2LSB {
                return Err(ElfError::UnsupportedFormat(class, data));
            }
        }
        let image: ElfImage = match parse_elf(file) {
            Ok(image) => image,
            Err(e) => {
                return Err(ElfError::Parse(e));
            },
        };
        Self::load_image(&image, file, memory)
    }

    /// Loads an ELF file as `load_elf` does, if every segment to be placed
    /// has its bytes in the file and room in memory; else returns `None`
    /// and leaves memory as it was.
    pub fn try_load_elf(file: &[u8], memory: &mut Memory) -> (r: Option<
        Result<LoadResult, ElfError>,
    >)
        ensures
            r is Some <==> file_copyable(file@, old(memory)@.len()),
            r is Some ==> loads(file@, old(memory)@, final(memory)@, r->Some_0),
            r is None ==> final(memory)@ == old(memory)@,
    {
        let refused: bool = file.len() > EI_DATA && (file[EI_CLASS] != ELFCLASS32 || file[EI_DATA]
            != ELFDATA2LSB);
        let copyable: bool = refused || match parse_elf(file) {
            Ok(image) => Self::can_copy(&image, file, memory),
            Err(_) => true,
        };
        if copyable {
            Some(Self::load_elf(file, memory))
        } else {
            None
        }
    }
}

} // verus!
