//! Reading 16-bit PCM samples out of a RIFF/WAVE container.

use vstd::prelude::*;

verus! {

/// The audio of a WAVE file: interleaved 16-bit samples.
pub struct WavPcm {
    pub channels: u16,
    pub sample_rate: u32,
    pub samples: Vec<i16>,
}

/// Why bytes are no WAVE audio that can be read.
#[derive(Debug, PartialEq, Eq, Structural)]
pub enum WavError {
    /// The bytes do not start with a RIFF/WAVE header.
    NotWave,
    /// No `fmt ` chunk of 16 bytes or more.
    MissingFormat,
    /// The audio is not 16-bit integer PCM with at least one channel.
    UnsupportedEncoding,
    /// No `data` chunk.
    MissingData,
}

pub open spec fn u16_at(b: Seq<u8>, i: int) -> nat {
    (b[i] + 256 * b[i + 1]) as nat
}

pub open spec fn u32_at(b: Seq<u8>, i: int) -> nat {
    (b[i] + 256 * b[i + 1] + 65536 * b[i + 2] + 16777216 * b[i + 3]) as nat
}

/// The little-endian two's-complement sample at `i`.
pub open spec fn i16_at(b: Seq<u8>, i: int) -> int {
    let v = u16_at(b, i);
    if v >= 32768 {
        v - 65536
    } else {
        v as int
    }
}

pub open spec fn tag_at(b: Seq<u8>, i: int, tag: Seq<u8>) -> bool {
    &&& 0 <= i
    &&& i + 4 <= b.len()
    &&& b.subrange(i, i + 4) == tag
}

pub open spec fn riff_tag() -> Seq<u8> {
    seq![0x52u8, 0x49u8, 0x46u8, 0x46u8]
}

pub open spec fn wave_tag() -> Seq<u8> {
    seq![0x57u8, 0x41u8, 0x56u8, 0x45u8]
}

pub open spec fn fmt_tag() -> Seq<u8> {
    seq![0x66u8, 0x6du8, 0x74u8, 0x20u8]
}

pub open spec fn data_tag() -> Seq<u8> {
    seq![0x64u8, 0x61u8, 0x74u8, 0x61u8]
}

/// Where the chunk after the chunk at `p` starts: chunk bodies are padded to
/// an even length.
pub open spec fn next_chunk(b: Seq<u8>, p: int) -> int {
    let size = u32_at(b, p + 4);
    p + 8 + size + size % 2
}

/// The first chunk tagged `tag` at or after `p`, as its body's start and
/// its declared size.
pub open spec fn find_chunk(b: Seq<u8>, p: int, tag: Seq<u8>) -> Option<(int, nat)>
    decreases b.len() - p,
{
    if p < 0 || p + 8 > b.len() {
        None
    } else if tag_at(b, p, tag) {
        Some((p + 8, u32_at(b, p + 4)))
    } else if next_chunk(b, p) > b.len() {
        None
    } else {
        find_chunk(b, next_chunk(b, p), tag)
    }
}

/// The samples of the `data` body: as many whole samples as the declared
/// size and the bytes present allow.
pub open spec fn sample_count(b: Seq<u8>, start: int, size: nat) -> nat {
    let present = b.len() - start;
    let avail: nat = if size <= present {
        size
    } else {
        present as nat
    };
    avail / 2
}

/// What reading a WAVE file gives.
pub open spec fn wav_result(b: Seq<u8>) -> Result<(u16, u32, Seq<i16>), WavError> {
    if !(tag_at(b, 0, riff_tag()) && tag_at(b, 8, wave_tag())) {
        Err(WavError::NotWave)
    } else {
        match find_chunk(b, 12, fmt_tag()) {
            None => Err(WavError::MissingFormat),
            Some((f, fsize)) => if fsize < 16 || f + 16 > b.len() {
                Err(WavError::MissingFormat)
            } else if u16_at(b, f) != 1 || u16_at(b, f + 14) != 16 || u16_at(b, f + 2) == 0 {
                Err(WavError::UnsupportedEncoding)
            } else {
                match find_chunk(b, 12, data_tag()) {
                    None => Err(WavError::MissingData),
                    Some((d, dsize)) => Ok(
                        (
                            u16_at(b, f + 2) as u16,
                            u32_at(b, f + 4) as u32,
                            Seq::new(
                                sample_count(b, d, dsize),
                                |k: int| i16_at(b, d + 2 * k) as i16,
                            ),
                        ),
                    ),
                }
            },
        }
    }
}

fn read_u16(b: &Vec<u8>, i: usize) -> (r: u16)
    requires
        i + 2 <= b@.len(),
    ensures
        r == u16_at(b@, i as int),
{
    let _n = b.len();
    b[i] as u16 + (b[i + 1] as u16) * 256
}

fn read_u32(b: &Vec<u8>, i: usize) -> (r: u32)
    requires
        i + 4 <= b@.len(),
    ensures
        r == u32_at(b@, i as int),
{
    let _n = b.len();
    b[i] as u32 + (b[i + 1] as u32) * 256 + (b[i + 2] as u32) * 65536 + (b[i + 3] as u32)
        * 16777216
}

fn has_tag(b: &Vec<u8>, i: usize, tag: [u8; 4]) -> (r: bool)
    ensures
        r == tag_at(b@, i as int, tag@),
{
    if i > b.len() || b.len() - i < 4 {
        return false;
    }
    let r = b[i] == tag[0] && b[i + 1] == tag[1] && b[i + 2] == tag[2] && b[i + 3] == tag[3];
    proof {
        if r {
            assert(b@.subrange(i as int, i + 4) =~= tag@);
        } else {
            if b@.subrange(i as int, i + 4) == tag@ {
                assert(b@.subrange(i as int, i + 4)[0] == tag@[0]);
                assert(b@.subrange(i as int, i + 4)[1] == tag@[1]);
                assert(b@.subrange(i as int, i + 4)[2] == tag@[2]);
                assert(b@.subrange(i as int, i + 4)[3] == tag@[3]);
            }
        }
    }
    r
}

fn locate_chunk(b: &Vec<u8>, tag: [u8; 4]) -> (r: Option<(usize, u32)>)
    ensures
        match (r, find_chunk(b@, 12, tag@)) {
            (Some((s, n)), Some((t, m))) => s == t && n == m,
            (None, None) => true,
            _ => false,
        },
        r matches Some((s, _)) ==> s <= b@.len(),
{
    let len = b.len();
    let mut p: usize = 12;
    while p <= len && len - p >= 8
        invariant
            len == b@.len(),
            find_chunk(b@, 12, tag@) == find_chunk(b@, p as int, tag@),
        decreases len - p,
    {
        if has_tag(b, p, tag) {
            return Some((p + 8, read_u32(b, p + 4)));
        }
        let size = read_u32(b, p + 4) as usize;
        let ghost next = next_chunk(b@, p as int);
        if len - (p + 8) < size {
            assert(next > b@.len());
            return None;
        }
        let step = p + 8 + size;
        if size % 2 == 1 {
            if step >= len {
                assert(next > b@.len() - 8);
                assert(find_chunk(b@, next, tag@) is None);
                return None;
            }
            p = step + 1;
        } else {
            p = step;
        }
        assert(p as int == next);
    }
    None
}

/// Reads the channel count, sample rate and interleaved samples of a
/// 16-bit PCM WAVE file.
pub fn parse_wav(bytes: &Vec<u8>) -> (r: Result<WavPcm, WavError>)
    ensures
        match (r, wav_result(bytes@)) {
            (Ok(w), Ok((c, s, x))) => w.channels == c && w.sample_rate == s && w.samples@ == x,
            (Err(e), Err(f)) => e == f,
            _ => false,
        },
{
    let b = bytes;
    if !(has_tag(b, 0, [0x52u8, 0x49u8, 0x46u8, 0x46u8]) && has_tag(
        b,
        8,
        [0x57u8, 0x41u8, 0x56u8, 0x45u8],
    )) {
        assert([0x52u8, 0x49u8, 0x46u8, 0x46u8]@ =~= riff_tag());
        assert([0x57u8, 0x41u8, 0x56u8, 0x45u8]@ =~= wave_tag());
        return Err(WavError::NotWave);
    }
    assert([0x52u8, 0x49u8, 0x46u8, 0x46u8]@ =~= riff_tag());
    assert([0x57u8, 0x41u8, 0x56u8, 0x45u8]@ =~= wave_tag());
    let fmt_t = [0x66u8, 0x6du8, 0x74u8, 0x20u8];
    assert(fmt_t@ =~= fmt_tag());
    let (f, fsize) = match locate_chunk(b, fmt_t) {
        Some(x) => x,
        None => {
            return Err(WavError::MissingFormat);
        },
    };
    if fsize < 16 || f > b.len() || b.len() - f < 16 {
        return Err(WavError::MissingFormat);
    }
    let format = read_u16(b, f);
    let channels = read_u16(b, f + 2);
    let sample_rate = read_u32(b, f + 4);
    let bits = read_u16(b, f + 14);
    if format != 1 || bits != 16 || channels == 0 {
        return Err(WavError::UnsupportedEncoding);
    }
    let data_t = [0x64u8, 0x61u8, 0x74u8, 0x61u8];
    assert(data_t@ =~= data_tag());
    let (d, dsize) = match locate_chunk(b, data_t) {
        Some(x) => x,
        None => {
            return Err(WavError::MissingData);
        },
    };
    let present: usize = b.len() - d;
    let avail: usize = if (dsize as u64) <= (present as u64) {
        dsize as usize
    } else {
        present
    };
    let count = avail / 2;
    assert(d + 2 * count <= b@.len());
    let mut samples: Vec<i16> = Vec::new();
    let mut k: usize = 0;
    while k < count
        invariant
            k <= count,
            count == sample_count(b@, d as int, dsize as nat),
            d + 2 * count <= b@.len(),
            b@.len() <= usize::MAX,
            samples@ =~= Seq::new(k as nat, |q: int| i16_at(b@, d + 2 * q) as i16),
        decreases count - k,
    {
        let v = read_u16(b, d + 2 * k);
        let s: i16 = if v >= 32768 {
            (v as i32 - 65536) as i16
        } else {
            v as i16
        };
        samples.push(s);
        k = k + 1;
    }
    Ok(WavPcm { channels, sample_rate, samples })
}

} // verus!
