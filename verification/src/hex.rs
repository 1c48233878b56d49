//! Intel HEX images: one record to a line, each a colon followed by pairs of
//! hexadecimal digits. The bytes they spell are the count of data bytes, the
//! two bytes of a 16-bit address, the record type, the data, and a checksum
//! that brings the sum of all of them to zero modulo 256.

use vstd::prelude::*;

verus! {

/// Why an image was refused. `line` counts from 1.
#[derive(Debug, Clone, Copy, PartialEq, Eq, Structural)]
pub enum LoaderError {
    /// The line is not a colon followed by the digits of a whole record.
    MalformedLine { line: usize },
    /// The bytes of the record do not sum to zero.
    BadChecksum { line: usize },
    /// The record type is none that the format defines.
    UnknownRecordType { line: usize, kind: u8 },
    /// A data record reaches outside the flash that is modeled; `address` is
    /// where the record starts.
    AddressOutOfRange { line: usize, address: u32 },
}

/// What is wrong with a line, before the line's number is known.
#[derive(Debug, Clone, Copy, PartialEq, Eq, Structural)]
pub enum Defect {
    Malformed,
    Checksum,
    UnknownType(u8),
    OutOfRange(u32),
}

impl Defect {
    /// The error that the defect is on the line given.
    pub open spec fn at_spec(self, line: usize) -> LoaderError {
        match self {
            Defect::Malformed => LoaderError::MalformedLine { line },
            Defect::Checksum => LoaderError::BadChecksum { line },
            Defect::UnknownType(kind) => LoaderError::UnknownRecordType { line, kind },
            Defect::OutOfRange(address) => LoaderError::AddressOutOfRange { line, address },
        }
    }

    /// The error that the defect is on the line given.
    pub fn at(self, line: usize) -> (r: LoaderError)
        ensures
            r == self.at_spec(line),
    {
        match self {
            Defect::Malformed => LoaderError::MalformedLine { line },
            Defect::Checksum => LoaderError::BadChecksum { line },
            Defect::UnknownType(kind) => LoaderError::UnknownRecordType { line, kind },
            Defect::OutOfRange(address) => LoaderError::AddressOutOfRange { line, address },
        }
    }
}

/// The value of a hexadecimal digit in ASCII, in either case.
pub open spec fn hex_value(c: u8) -> Option<u8> {
    if 0x30 <= c <= 0x39 {
        Some((c - 0x30) as u8)
    } else if 0x41 <= c <= 0x46 {
        Some((c - 0x41 + 10) as u8)
    } else if 0x61 <= c <= 0x66 {
        Some((c - 0x61 + 10) as u8)
    } else {
        None
    }
}

/// The value of a hexadecimal digit in ASCII, in either case.
pub fn hex_digit(c: u8) -> (r: Option<u8>)
    ensures
        r == hex_value(c),
        r matches Some(v) ==> v < 16,
{
    if c >= 0x30 && c <= 0x39 {
        Some(c - 0x30)
    } else if c >= 0x41 && c <= 0x46 {
        Some(c - 0x41 + 10)
    } else if c >= 0x61 && c <= 0x66 {
        Some(c - 0x61 + 10)
    } else {
        None
    }
}

/// The byte that the two digits at `at` and `at + 1` spell.
pub open spec fn hex_byte(line: Seq<u8>, at: int) -> Option<u8> {
    if 0 <= at && at + 1 < line.len() {
        match (hex_value(line[at]), hex_value(line[at + 1])) {
            (Some(high), Some(low)) => Some((high * 16 + low) as u8),
            _ => None,
        }
    } else {
        None
    }
}

/// The bytes that a line spells: the line is a colon followed by an even
/// number of hexadecimal digits, at least ten.
pub open spec fn record_bytes(line: Seq<u8>) -> Option<Seq<u8>> {
    let n: int = (line.len() - 1) / 2;
    if line.len() >= 11 && line[0] == 0x3a && line.len() % 2 == 1 && (forall|i: int|
        0 <= i < n ==> (#[trigger] hex_byte(line, 1 + 2 * i)) is Some) {
        Some(Seq::new(n as nat, |i: int| hex_byte(line, 1 + 2 * i).unwrap()))
    } else {
        None
    }
}

/// The sum of the first `n` bytes.
pub open spec fn sum_bytes(bytes: Seq<u8>, n: int) -> int
    decreases n,
{
    if n <= 0 {
        0
    } else {
        sum_bytes(bytes, n - 1) + bytes[n - 1]
    }
}

/// A line without the carriage return that may end it.
pub open spec fn trimmed(line: Seq<u8>) -> Seq<u8> {
    if line.len() > 0 && line.last() == 0x0d {
        line.drop_last()
    } else {
        line
    }
}

/// The record on a line: nothing on an empty line; otherwise the bytes that
/// the line spells, of which the first counts the data bytes and all
/// together sum to zero modulo 256.
pub open spec fn parse_line_spec(line: Seq<u8>) -> Result<Option<Seq<u8>>, Defect> {
    let line: Seq<u8> = trimmed(line);
    if line.len() == 0 {
        Ok(None)
    } else {
        match record_bytes(line) {
            None => Err(Defect::Malformed),
            Some(bytes) => if bytes[0] != bytes.len() - 5 {
                Err(Defect::Malformed)
            } else if sum_bytes(bytes, bytes.len() as int) % 256 != 0 {
                Err(Defect::Checksum)
            } else {
                Ok(Some(bytes))
            },
        }
    }
}

/// Parses the line `text[start..end]`.
#[verifier::rlimit(40)]
pub fn parse_line(text: &[u8], start: usize, end: usize) -> (r: Result<Option<Vec<u8>>, Defect>)
    requires
        start <= end <= text@.len(),
    ensures
        match parse_line_spec(text@.subrange(start as int, end as int)) {
            Ok(None) => r == Ok::<Option<Vec<u8>>, Defect>(None),
            Ok(Some(bytes)) => r matches Ok(Some(v)) && v@ == bytes && bytes.len() >= 5 && bytes[0]
                == bytes.len() - 5,
            Err(e) => r == Err::<Option<Vec<u8>>, Defect>(e),
        },
{
    let ghost whole: Seq<u8> = text@.subrange(start as int, end as int);
    let stop: usize = if end > start && text[end - 1] == 0x0d {
        end - 1
    } else {
        end
    };
    let ghost line: Seq<u8> = text@.subrange(start as int, stop as int);
    assert(line =~= trimmed(whole));
    let len: usize = stop - start;
    if len == 0 {
        return Ok(None);
    }
    assert(line.len() == len && line[0] == text@[start as int]);
    if len < 11 || text[start] != 0x3a || len % 2 != 1 {
        return Err(Defect::Malformed);
    }
    let n: usize = (len - 1) / 2;
    let mut bytes: Vec<u8> = Vec::new();
    let mut sum: u32 = 0;
    let mut i: usize = 0;
    while i < n
        invariant
            i <= n,
            n == (len - 1) / 2,
            len == stop - start,
            len >= 11,
            len % 2 == 1,
            start <= stop <= text@.len(),
            whole == text@.subrange(start as int, end as int),
            line == text@.subrange(start as int, stop as int),
            line == trimmed(whole),
            line[0] == 0x3a,
            bytes@.len() == i,
            forall|j: int| 0 <= j < i ==> (#[trigger] hex_byte(line, 1 + 2 * j)) == Some(bytes@[j]),
            sum == sum_bytes(bytes@, i as int) % 256,
        decreases n - i,
    {
        let at: usize = start + 1 + 2 * i;
        let high: Option<u8> = hex_digit(text[at]);
        let low: Option<u8> = hex_digit(text[at + 1]);
        assert(line[1 + 2 * i] == text@[at as int]);
        assert(line[1 + 2 * i + 1] == text@[at + 1]);
        match (high, low) {
            (Some(high), Some(low)) => {
                let byte: u8 = high * 16 + low;
                let ghost before: Seq<u8> = bytes@;
                bytes.push(byte);
                proof {
                    assert(sum_bytes(bytes@, i as int) == sum_bytes(before, i as int)) by {
                        lemma_sum_prefix(bytes@, before, i as int);
                    }
                }
                sum = (sum + byte as u32) % 256;
            },
            _ => {
                assert(hex_byte(line, 1 + 2 * i) is None);
                assert(record_bytes(line) is None);
                return Err(Defect::Malformed);
            },
        }
        i = i + 1;
    }
    assert(record_bytes(line) == Some(bytes@)) by {
        assert(bytes@ =~= Seq::new(n as nat, |i: int| hex_byte(line, 1 + 2 * i).unwrap()));
    }
    if bytes[0] as usize != n - 5 {
        return Err(Defect::Malformed);
    }
    if sum != 0 {
        return Err(Defect::Checksum);
    }
    Ok(Some(bytes))
}

/// The sum of a prefix depends on the prefix alone.
pub proof fn lemma_sum_prefix(a: Seq<u8>, b: Seq<u8>, n: int)
    requires
        0 <= n <= a.len(),
        n <= b.len(),
        forall|j: int| 0 <= j < n ==> a[j] == b[j],
    ensures
        sum_bytes(a, n) == sum_bytes(b, n),
    decreases n,
{
    if n > 0 {
        lemma_sum_prefix(a, b, n - 1);
    }
}

/// `flash` with `data` written over it from offset `at` on.
pub open spec fn overwrite(flash: Seq<u8>, at: int, data: Seq<u8>) -> Seq<u8> {
    Seq::new(
        flash.len(),
        |i: int|
            if at <= i < at + data.len() {
                data[i - at]
            } else {
                flash[i]
            },
    )
}

/// What a record leaves: the flash, the address base, whether the image ends
/// here, and whether the record was skipped.
pub struct Applied {
    pub flash: Seq<u8>,
    pub base: u32,
    pub done: bool,
    pub skipped: bool,
}

/// The effect of a record on a flash whose first byte has the address
/// `origin`. A data record (type 0) writes its data at the address base plus
/// its own address, and is refused if that reaches outside the flash. An
/// end-of-file record (type 1) ends the image. An extended linear address
/// record (type 4) has two data bytes, which become the upper half of the
/// address base. The types 2, 3 and 5 are skipped. Any other type is
/// refused.
pub open spec fn apply_record_spec(flash: Seq<u8>, origin: u32, base: u32, bytes: Seq<u8>) -> Result<
    Applied,
    Defect,
> {
    let count: int = bytes[0] as int;
    let address: int = bytes[1] * 0x100 + bytes[2];
    let kind: u8 = bytes[3];
    let start: int = base + address;
    if kind == 0 {
        if start < origin || start + count > origin + flash.len() {
            Err(Defect::OutOfRange((start % 0x1_0000_0000) as u32))
        } else {
            Ok(
                Applied {
                    flash: overwrite(flash, start - origin, bytes.subrange(4, 4 + count)),
                    base,
                    done: false,
                    skipped: false,
                },
            )
        }
    } else if kind == 1 {
        Ok(Applied { flash, base, done: true, skipped: false })
    } else if kind == 4 {
        if count != 2 {
            Err(Defect::Malformed)
        } else {
            Ok(
                Applied {
                    flash,
                    base: ((bytes[4] * 0x100 + bytes[5]) * 0x1_0000) as u32,
                    done: false,
                    skipped: false,
                },
            )
        }
    } else if kind == 2 || kind == 3 || kind == 5 {
        Ok(Applied { flash, base, done: false, skipped: true })
    } else {
        Err(Defect::UnknownType(kind))
    }
}

/// What applying a record reports besides the flash it wrote.
#[derive(Debug, Clone, Copy, PartialEq, Eq, Structural)]
pub struct Progress {
    pub base: u32,
    pub done: bool,
    pub skipped: bool,
}

/// Applies a record to the flash.
pub fn apply_record(flash: &mut Vec<u8>, origin: u32, base: u32, bytes: &Vec<u8>) -> (r: Result<
    Progress,
    Defect,
>)
    requires
        bytes@.len() >= 5,
        bytes@[0] == bytes@.len() - 5,
    ensures
        match apply_record_spec(old(flash)@, origin, base, bytes@) {
            Ok(applied) => final(flash)@ == applied.flash && r == Ok::<Progress, Defect>(
                Progress { base: applied.base, done: applied.done, skipped: applied.skipped },
            ),
            Err(e) => final(flash)@ == old(flash)@ && r == Err::<Progress, Defect>(e),
        },
{
    let count: usize = bytes[0] as usize;
    let address: u64 = bytes[1] as u64 * 0x100 + bytes[2] as u64;
    let kind: u8 = bytes[3];
    let start: u64 = base as u64 + address;
    if kind == 0 {
        if start < origin as u64 || start - origin as u64 + count as u64 > flash.len() as u64 {
            return Err(Defect::OutOfRange((start % 0x1_0000_0000) as u32));
        }
        let offset: usize = (start - origin as u64) as usize;
        let total: usize = flash.len();
        let mut i: usize = 0;
        while i < count
            invariant
                i <= count,
                total == flash@.len(),
                count == bytes@[0],
                bytes@.len() == count + 5,
                offset + count <= flash@.len(),
                flash@.len() == old(flash)@.len(),
                flash@ == overwrite(old(flash)@, offset as int, bytes@.subrange(4, 4 + i)),
            decreases count - i,
        {
            flash.set(offset + i, bytes[4 + i]);
            assert(flash@ =~= overwrite(
                old(flash)@,
                offset as int,
                bytes@.subrange(4, 4 + i + 1),
            ));
            i = i + 1;
        }
        Ok(Progress { base, done: false, skipped: false })
    } else if kind == 1 {
        Ok(Progress { base, done: true, skipped: false })
    } else if kind == 4 {
        if count != 2 {
            return Err(Defect::Malformed);
        }
        let upper: u32 = bytes[4] as u32 * 0x100 + bytes[5] as u32;
        Ok(Progress { base: upper * 0x1_0000, done: false, skipped: false })
    } else if kind == 2 || kind == 3 || kind == 5 {
        Ok(Progress { base, done: false, skipped: true })
    } else {
        Err(Defect::UnknownType(kind))
    }
}

/// Where the line that starts at `start` ends: at the first line feed from
/// there on, or at the end of the text.
pub open spec fn line_end(text: Seq<u8>, start: int) -> int
    decreases text.len() - start,
{
    if start < 0 || start >= text.len() || text[start] == 0x0a {
        start
    } else {
        line_end(text, start + 1)
    }
}

/// Finds where the line that starts at `start` ends.
pub fn find_line_end(text: &[u8], start: usize) -> (r: usize)
    requires
        start <= text@.len(),
    ensures
        r == line_end(text@, start as int),
        start <= r <= text@.len(),
{
    let mut at: usize = start;
    while at < text.len() && text[at] != 0x0a
        invariant
            start <= at <= text@.len(),
            line_end(text@, at as int) == line_end(text@, start as int),
        decreases text@.len() - at,
    {
        at = at + 1;
    }
    at
}

/// The number after `n`, as far as numbers go.
pub open spec fn next(n: usize) -> usize {
    if n < usize::MAX {
        (n + 1) as usize
    } else {
        n
    }
}

/// The flash after the image from position `start` on has been loaded, and
/// the number of records skipped or the first error. The lines are taken in
/// order; loading ends at an end-of-file record, at the end of the text, or
/// at the first line that is refused, and what was written before stays.
pub open spec fn load_spec(
    flash: Seq<u8>,
    origin: u32,
    text: Seq<u8>,
    start: int,
    base: u32,
    line: usize,
    skipped: usize,
) -> (Seq<u8>, Result<usize, LoaderError>)
    decreases text.len() - start,
{
    if start < 0 || start >= text.len() {
        (flash, Ok(skipped))
    } else {
        let end: int = line_end(text, start);
        let resume: int = if start <= end < text.len() {
            end + 1
        } else {
            text.len() as int
        };
        match parse_line_spec(text.subrange(start, end)) {
            Err(e) => (flash, Err(e.at_spec(line))),
            Ok(None) => load_spec(flash, origin, text, resume, base, next(line), skipped),
            Ok(Some(bytes)) => match apply_record_spec(flash, origin, base, bytes) {
                Err(e) => (flash, Err(e.at_spec(line))),
                Ok(applied) => if applied.done {
                    (applied.flash, Ok(skipped))
                } else {
                    load_spec(
                        applied.flash,
                        origin,
                        text,
                        resume,
                        applied.base,
                        next(line),
                        if applied.skipped {
                            next(skipped)
                        } else {
                            skipped
                        },
                    )
                },
            },
        }
    }
}

/// Loads an image into a flash whose first byte has the address `origin`.
/// Returns the number of records that were skipped.
pub fn load(flash: &mut Vec<u8>, origin: u32, text: &[u8]) -> (r: Result<usize, LoaderError>)
    ensures
        (final(flash)@, r) == load_spec(old(flash)@, origin, text@, 0, 0, 1, 0),
{
    let mut start: usize = 0;
    let mut base: u32 = 0;
    let mut line: usize = 1;
    let mut skipped: usize = 0;
    while start < text.len()
        invariant
            start <= text@.len(),
            load_spec(flash@, origin, text@, start as int, base, line, skipped) == load_spec(
                old(flash)@,
                origin,
                text@,
                0,
                0,
                1,
                0,
            ),
        decreases text@.len() - start,
    {
        let end: usize = find_line_end(text, start);
        match parse_line(text, start, end) {
            Err(e) => {
                return Err(e.at(line));
            },
            Ok(None) => {},
            Ok(Some(bytes)) => match apply_record(flash, origin, base, &bytes) {
                Err(e) => {
                    return Err(e.at(line));
                },
                Ok(progress) => {
                    if progress.done {
                        return Ok(skipped);
                    }
                    base = progress.base;
                    if progress.skipped && skipped < usize::MAX {
                        skipped = skipped + 1;
                    }
                },
            },
        }
        if line < usize::MAX {
            line = line + 1;
        }
        start = if end < text.len() {
            end + 1
        } else {
            end
        };
    }
    Ok(skipped)
}

} // verus!
