//! Hashing of ROM images for the RetroAchievements service, and the
//! detection of the console a ROM is for.

use vstd::prelude::*;
use md5::{Digest, Md5};
use crate::paths::{extension, path_extension};
use crate::ra::types::ConsoleId;
use crate::text::{lowercase, same_text, to_lowercase};

verus! {

/// The MD5 digest of a run of bytes, as thirty-two lower-case hexadecimal
/// digits.
pub uninterp spec fn md5_hex(data: Seq<u8>) -> Seq<char>;

/// Computes the MD5 digest of the bytes with `Md5::new`, `update` and
/// `finalize`, and writes it in lower-case hexadecimal. The result is
/// named [`md5_hex`]; a digest has sixteen bytes, so the text has
/// thirty-two characters.
#[verifier::external_body]
fn md5_hex_of(data: &[u8]) -> (r: String)
    ensures
        r@ == md5_hex(data@),
        r@.len() == 32,
{
    let mut hasher = Md5::new();
    hasher.update(data);
    format!("{:x}", hasher.finalize())
}

/// Length of the header of an iNES image.
pub const NES_HEADER_LEN: usize = 16;

/// Length of the header that copiers put before a SNES image.
pub const SNES_HEADER_LEN: usize = 512;

/// Why a ROM image cannot be hashed.
#[derive(Clone, Copy, Debug, PartialEq, Eq, Structural)]
pub enum HashError {
    /// A NES image is shorter than the sixteen bytes of a header.
    NesHeaderMissing,
    /// A Nintendo 64 image is shorter than the four bytes that tell its
    /// byte order.
    N64MagicMissing,
}

/// Why the console of a ROM image cannot be told.
#[derive(Clone, Copy, Debug, PartialEq, Eq, Structural)]
pub enum DetectError {
    /// The extension is not known and the image could not be read.
    Unreadable,
    /// Fewer than four bytes could be read.
    TooSmall,
    /// Neither the extension nor the first bytes are known.
    Unknown,
}

/// The bytes begin with the mark of an iNES header.
pub open spec fn has_nes_magic(data: Seq<u8>) -> bool {
    data.len() >= 4 && data[0] == 0x4e && data[1] == 0x45 && data[2] == 0x53 && data[3] == 0x1a
}

/// How the bytes of a Nintendo 64 image are ordered.
#[derive(Clone, Copy, Debug, PartialEq, Eq, Structural)]
pub enum N64Order {
    /// Big-endian, the order that is hashed.
    Big,
    /// Little-endian: each group of four bytes is reversed.
    Little,
    /// Byte-swapped: each pair of bytes is exchanged.
    Swapped,
    /// None of the three.
    Unknown,
}

/// The byte order that the first four bytes of an image tell.
pub open spec fn n64_order(data: Seq<u8>) -> N64Order {
    if data.len() < 4 {
        N64Order::Unknown
    } else if data[0] == 0x80 && data[1] == 0x37 && data[2] == 0x12 && data[3] == 0x40 {
        N64Order::Big
    } else if data[0] == 0x40 && data[1] == 0x12 && data[2] == 0x37 && data[3] == 0x80 {
        N64Order::Little
    } else if data[0] == 0x37 && data[1] == 0x80 && data[2] == 0x40 && data[3] == 0x12 {
        N64Order::Swapped
    } else {
        N64Order::Unknown
    }
}

/// The bytes with every full group of `width` bytes reversed; what is
/// left over at the end stays as it is.
pub open spec fn groups_reversed(data: Seq<u8>, width: int) -> Seq<u8> {
    Seq::new(
        data.len(),
        |i: int|
            if i < data.len() - (data.len() as int) % width {
                data[i - i % width + (width - 1 - i % width)]
            } else {
                data[i]
            },
    )
}

/// The bytes of an image that are hashed: a NES image without its
/// header, a SNES image without a copier's header, a Nintendo 64 image in
/// big-endian order, any other image as it is.
pub open spec fn hashed_bytes(data: Seq<u8>, console: ConsoleId) -> Seq<u8> {
    match console {
        ConsoleId::NES => if has_nes_magic(data) {
            data.skip(NES_HEADER_LEN as int)
        } else {
            data
        },
        ConsoleId::SNES => if data.len() % 1024 == 512 {
            data.skip(SNES_HEADER_LEN as int)
        } else {
            data
        },
        ConsoleId::Nintendo64 => match n64_order(data) {
            N64Order::Little => groups_reversed(data, 4),
            N64Order::Swapped => groups_reversed(data, 2),
            _ => data,
        },
        _ => data,
    }
}

/// The error, if any, that keeps an image from being hashed.
pub open spec fn hash_error(data: Seq<u8>, console: ConsoleId) -> Option<HashError> {
    match console {
        ConsoleId::NES => if data.len() < NES_HEADER_LEN {
            Some(HashError::NesHeaderMissing)
        } else {
            None
        },
        ConsoleId::Nintendo64 => if data.len() < 4 {
            Some(HashError::N64MagicMissing)
        } else {
            None
        },
        _ => None,
    }
}

/// A copy of the bytes from `from` on.
fn tail(data: &[u8], from: usize) -> (r: Vec<u8>)
    requires
        from <= data@.len(),
    ensures
        r@ == data@.skip(from as int),
{
    let mut out: Vec<u8> = Vec::new();
    let mut i: usize = from;
    while i < data.len()
        invariant
            from <= i <= data.len(),
            out@ == data@.subrange(from as int, i as int),
        decreases data.len() - i,
    {
        out.push(data[i]);
        assert(out@ =~= data@.subrange(from as int, i as int + 1));
        i = i + 1;
    }
    assert(out@ =~= data@.skip(from as int));
    out
}

/// A copy of the bytes with every full group of `width` bytes reversed.
fn reverse_groups(data: &[u8], width: usize) -> (r: Vec<u8>)
    requires
        width == 2 || width == 4,
    ensures
        r@ == groups_reversed(data@, width as int),
{
    let full: usize = data.len() - data.len() % width;
    let mut out: Vec<u8> = Vec::new();
    let mut i: usize = 0;
    while i < data.len()
        invariant
            i <= data.len(),
            width == 2 || width == 4,
            full == data@.len() - (data@.len() as int) % (width as int),
            out@.len() == i,
            forall|k: int| 0 <= k < i ==> #[trigger] out@[k] == groups_reversed(data@, width as int)[k],
        decreases data.len() - i,
    {
        if i < full {
            let within: usize = i % width;
            let source: usize = i - within + (width - 1 - within);
            assert(source < data.len()) by {
                assert(i - within + width <= full) by (nonlinear_arith)
                    requires
                        i < full,
                        within == (i as int) % (width as int),
                        (full as int) % (width as int) == 0,
                        width == 2 || width == 4,
                ;
            }
            out.push(data[source]);
        } else {
            out.push(data[i]);
        }
        i = i + 1;
    }
    assert(out@ =~= groups_reversed(data@, width as int));
    out
}

/// The byte order that the first four bytes of an image tell.
pub fn detect_n64_order(data: &[u8]) -> (r: N64Order)
    ensures
        r == n64_order(data@),
{
    if data.len() < 4 {
        N64Order::Unknown
    } else if data[0] == 0x80 && data[1] == 0x37 && data[2] == 0x12 && data[3] == 0x40 {
        N64Order::Big
    } else if data[0] == 0x40 && data[1] == 0x12 && data[2] == 0x37 && data[3] == 0x80 {
        N64Order::Little
    } else if data[0] == 0x37 && data[1] == 0x80 && data[2] == 0x40 && data[3] == 0x12 {
        N64Order::Swapped
    } else {
        N64Order::Unknown
    }
}

/// Whether the bytes begin with the mark of an iNES header.
pub fn starts_with_nes_magic(data: &[u8]) -> (r: bool)
    ensures
        r == has_nes_magic(data@),
{
    data.len() >= 4 && data[0] == 0x4e && data[1] == 0x45 && data[2] == 0x53 && data[3] == 0x1a
}

/// The bytes of an image that are hashed.
pub fn normalize_rom(data: &[u8], console: ConsoleId) -> (r: Result<Vec<u8>, HashError>)
    ensures
        match r {
            Ok(bytes) => hash_error(data@, console) is None && bytes@ == hashed_bytes(data@, console),
            Err(e) => hash_error(data@, console) == Some(e),
        },
{
    match console {
        ConsoleId::NES => {
            if data.len() < NES_HEADER_LEN {
                Err(HashError::NesHeaderMissing)
            } else if starts_with_nes_magic(data) {
                Ok(tail(data, NES_HEADER_LEN))
            } else {
                let all = tail(data, 0);
                assert(data@.skip(0) == data@);
                Ok(all)
            }
        },
        ConsoleId::SNES => {
            if data.len() % 1024 == 512 {
                Ok(tail(data, SNES_HEADER_LEN))
            } else {
                let all = tail(data, 0);
                assert(data@.skip(0) == data@);
                Ok(all)
            }
        },
        ConsoleId::Nintendo64 => {
            if data.len() < 4 {
                Err(HashError::N64MagicMissing)
            } else {
                match detect_n64_order(data) {
                    N64Order::Little => Ok(reverse_groups(data, 4)),
                    N64Order::Swapped => Ok(reverse_groups(data, 2)),
                    _ => {
                        let all = tail(data, 0);
                        assert(data@.skip(0) == data@);
                        Ok(all)
                    },
                }
            }
        },
        _ => {
            let all = tail(data, 0);
            assert(data@.skip(0) == data@);
            Ok(all)
        },
    }
}

/// Hashes an image that [`normalize_rom`] has prepared.
pub fn hash_prepared(bytes: &Vec<u8>) -> (r: String)
    ensures
        r@ == md5_hex(bytes@),
        r@.len() == 32,
{
    md5_hex_of(bytes.as_slice())
}

/// The hash under which the service knows a ROM image of a console: the
/// MD5 digest of the bytes that [`hashed_bytes`] selects. An image that is
/// too short for its console is an error.
pub fn hash_rom(data: &[u8], console_id: ConsoleId) -> (r: Result<String, HashError>)
    ensures
        match r {
            Ok(hash) => hash_error(data@, console_id) is None && hash@ == md5_hex(hashed_bytes(data@, console_id))
                && hash@.len() == 32,
            Err(e) => hash_error(data@, console_id) == Some(e),
        },
{
    match normalize_rom(data, console_id) {
        Ok(bytes) => Ok(hash_prepared(&bytes)),
        Err(e) => Err(e),
    }
}

/// The name of the way in which the images of a console are hashed.
pub fn hash_type_name(console_id: ConsoleId) -> (r: &'static str)
    ensures
        r@ == match console_id {
            ConsoleId::NES => "MD5 (headerless)"@,
            ConsoleId::SNES => "MD5 (headerless)"@,
            ConsoleId::Nintendo64 => "MD5 (big-endian)"@,
            _ => "MD5"@,
        },
{
    match console_id {
        ConsoleId::NES => "MD5 (headerless)",
        ConsoleId::SNES => "MD5 (headerless)",
        ConsoleId::Nintendo64 => "MD5 (big-endian)",
        _ => "MD5",
    }
}

/// The console that a lower-case file extension stands for.
pub open spec fn console_of_extension(ext: Seq<char>) -> Option<ConsoleId> {
    if ext == "gba"@ {
        Some(ConsoleId::GameBoyAdvance)
    } else if ext == "gb"@ {
        Some(ConsoleId::GameBoy)
    } else if ext == "gbc"@ {
        Some(ConsoleId::GameBoyColor)
    } else if ext == "nes"@ || ext == "fds"@ {
        Some(ConsoleId::NES)
    } else if ext == "snes"@ || ext == "sfc"@ || ext == "smc"@ {
        Some(ConsoleId::SNES)
    } else if ext == "n64"@ || ext == "z64"@ || ext == "v64"@ || ext == "u64"@ {
        Some(ConsoleId::Nintendo64)
    } else if ext == "nds"@ {
        Some(ConsoleId::NintendoDS)
    } else if ext == "psx"@ || ext == "ps1"@ || ext == "bin"@ || ext == "cue"@ || ext == "img"@ {
        Some(ConsoleId::PlayStation)
    } else if ext == "ps2"@ || ext == "iso"@ {
        Some(ConsoleId::PlayStation2)
    } else if ext == "gen"@ || ext == "md"@ || ext == "smd"@ {
        Some(ConsoleId::MegaDrive)
    } else if ext == "sms"@ {
        Some(ConsoleId::MasterSystem)
    } else if ext == "a26"@ {
        Some(ConsoleId::Atari2600)
    } else if ext == "vb"@ {
        Some(ConsoleId::VirtualBoy)
    } else {
        None
    }
}

/// The console that a lower-case file extension stands for.
pub fn detect_from_extension(ext: &str) -> (r: Option<ConsoleId>)
    ensures
        r == console_of_extension(ext@),
{
    if same_text(ext, "gba") {
        Some(ConsoleId::GameBoyAdvance)
    } else if same_text(ext, "gb") {
        Some(ConsoleId::GameBoy)
    } else if same_text(ext, "gbc") {
        Some(ConsoleId::GameBoyColor)
    } else if same_text(ext, "nes") || same_text(ext, "fds") {
        Some(ConsoleId::NES)
    } else if same_text(ext, "snes") || same_text(ext, "sfc") || same_text(ext, "smc") {
        Some(ConsoleId::SNES)
    } else if same_text(ext, "n64") || same_text(ext, "z64") || same_text(ext, "v64") || same_text(
        ext,
        "u64",
    ) {
        Some(ConsoleId::Nintendo64)
    } else if same_text(ext, "nds") {
        Some(ConsoleId::NintendoDS)
    } else if same_text(ext, "psx") || same_text(ext, "ps1") || same_text(ext, "bin") || same_text(
        ext,
        "cue",
    ) || same_text(ext, "img") {
        Some(ConsoleId::PlayStation)
    } else if same_text(ext, "ps2") || same_text(ext, "iso") {
        Some(ConsoleId::PlayStation2)
    } else if same_text(ext, "gen") || same_text(ext, "md") || same_text(ext, "smd") {
        Some(ConsoleId::MegaDrive)
    } else if same_text(ext, "sms") {
        Some(ConsoleId::MasterSystem)
    } else if same_text(ext, "a26") {
        Some(ConsoleId::Atari2600)
    } else if same_text(ext, "vb") {
        Some(ConsoleId::VirtualBoy)
    } else {
        None
    }
}

/// The console that the first bytes of an image tell, or why they tell
/// none.
pub open spec fn console_of_magic(head: Seq<u8>) -> Result<ConsoleId, DetectError> {
    if head.len() < 4 {
        Err(DetectError::TooSmall)
    } else if has_nes_magic(head) {
        Ok(ConsoleId::NES)
    } else if n64_order(head) != N64Order::Unknown {
        Ok(ConsoleId::Nintendo64)
    } else if head.len() >= 0xA0 && (head[4] == 0x24 || head[4] == 0xCE) {
        Ok(ConsoleId::GameBoyAdvance)
    } else {
        Err(DetectError::Unknown)
    }
}

/// Tells the console from the first bytes of an image.
pub fn detect_from_magic_bytes(head: &[u8]) -> (r: Result<ConsoleId, DetectError>)
    ensures
        r == console_of_magic(head@),
{
    if head.len() < 4 {
        Err(DetectError::TooSmall)
    } else if starts_with_nes_magic(head) {
        Ok(ConsoleId::NES)
    } else if detect_n64_order(head) != N64Order::Unknown {
        Ok(ConsoleId::Nintendo64)
    } else if head.len() >= 0xA0 && (head[4] == 0x24 || head[4] == 0xCE) {
        Ok(ConsoleId::GameBoyAdvance)
    } else {
        Err(DetectError::Unknown)
    }
}

/// Whether the first bytes of an image fit the console that its extension
/// names. Consoles without a mark that can be checked pass.
pub open spec fn magic_fits(head: Seq<u8>, console: ConsoleId) -> bool {
    if head.len() < 4 {
        false
    } else {
        match console {
            ConsoleId::NES => has_nes_magic(head),
            ConsoleId::Nintendo64 => n64_order(head) != N64Order::Unknown,
            ConsoleId::GameBoyAdvance | ConsoleId::GameBoy | ConsoleId::GameBoyColor => head.len() < 0xA0
                || head[4] == 0x24 || head[4] == 0xCE,
            ConsoleId::NintendoDS => head.len() >= 0x10 && exists|i: int|
                0x0C <= i < head.len() && i < 0x0C + 12 && #[trigger] head[i] != 0,
            _ => true,
        }
    }
}

/// Checks the first bytes of an image against the console that its
/// extension names.
pub fn verify_with_magic_bytes(head: &[u8], console: ConsoleId) -> (r: bool)
    ensures
        r == magic_fits(head@, console),
{
    if head.len() < 4 {
        return false;
    }
    match console {
        ConsoleId::NES => starts_with_nes_magic(head),
        ConsoleId::Nintendo64 => detect_n64_order(head) != N64Order::Unknown,
        ConsoleId::GameBoyAdvance | ConsoleId::GameBoy | ConsoleId::GameBoyColor => {
            head.len() < 0xA0 || head[4] == 0x24 || head[4] == 0xCE
        },
        ConsoleId::NintendoDS => {
            if head.len() < 0x10 {
                return false;
            }
            let mut i: usize = 0x0C;
            while i < head.len() && i < 0x0C + 12
                invariant
                    0x0C <= i <= head.len(),
                    head.len() >= 0x10,
                    console == ConsoleId::NintendoDS,
                    forall|k: int| 0x0C <= k < i ==> #[trigger] head@[k] == 0,
                decreases head.len() - i,
            {
                if head[i] != 0 {
                    assert(0x0C <= i < head@.len() && i < 0x0C + 12 && head@[i as int] != 0);
                    return true;
                }
                i = i + 1;
            }
            false
        },
        _ => true,
    }
}

/// The console that the extension of a path names, whatever the case of
/// its letters.
pub open spec fn console_of_path(path: Seq<char>) -> Option<ConsoleId> {
    match path_extension(path) {
        Some(ext) => console_of_extension(lowercase(ext)),
        None => None,
    }
}

/// Tells the console of a ROM image: from the extension of its path where
/// that is known, whatever the image holds and whether or not it could be
/// read; else from the first bytes of the image, which are `None` where
/// the image could not be read.
pub fn detect_console(path: &str, head: Option<&[u8]>) -> (r: Result<ConsoleId, DetectError>)
    ensures
        r == match console_of_path(path@) {
            Some(console) => Ok(console),
            None => match head {
                Some(bytes) => console_of_magic(bytes@),
                None => Err(DetectError::Unreadable),
            },
        },
{
    let by_extension = match extension(path) {
        Some(ext) => detect_from_extension(to_lowercase(ext.as_str()).as_str()),
        None => None,
    };
    match by_extension {
        Some(console) => Ok(console),
        None => match head {
            Some(bytes) => detect_from_magic_bytes(bytes),
            None => Err(DetectError::Unreadable),
        },
    }
}

} // verus!
