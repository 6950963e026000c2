//! Conversion of quantized 16-bit samples to little-endian PCM bytes.

use vstd::prelude::*;

verus! {

/// Captured audio as PCM16LE bytes.
pub type AudioData = Vec<u8>;

/// The two's-complement bit pattern of a sample, as an integer in `0..65536`.
pub open spec fn sample_bits(x: i16) -> int {
    if x < 0 {
        x + 65536
    } else {
        x as int
    }
}

/// The little-endian bytes of one sample: low byte first.
pub open spec fn sample_le_bytes(x: i16) -> Seq<u8> {
    seq![(sample_bits(x) % 256) as u8, (sample_bits(x) / 256) as u8]
}

/// PCM16LE encoding of a sample sequence: each sample's two bytes, in order.
pub open spec fn pcm16le(samples: Seq<i16>) -> Seq<u8> {
    samples.map_values(|x: i16| sample_le_bytes(x)).flatten()
}

/// Encoding one more sample appends exactly that sample's two bytes.
pub proof fn lemma_pcm16le_push(samples: Seq<i16>, x: i16)
    ensures
        pcm16le(samples.push(x)) == pcm16le(samples) + sample_le_bytes(x),
{
    let f = |y: i16| sample_le_bytes(y);
    assert(samples.push(x).map_values(f) =~= samples.map_values(f).push(sample_le_bytes(x)));
    samples.map_values(f).lemma_flatten_push(sample_le_bytes(x));
}

/// Every encoding holds exactly two bytes per sample.
pub proof fn lemma_pcm16le_len(samples: Seq<i16>)
    ensures
        pcm16le(samples).len() == 2 * samples.len(),
    decreases samples.len(),
{
    if samples.len() == 0 {
        assert(samples.map_values(|y: i16| sample_le_bytes(y)) =~= Seq::<Seq<u8>>::empty());
    } else {
        let init = samples.drop_last();
        assert(init.push(samples.last()) =~= samples);
        lemma_pcm16le_len(init);
        lemma_pcm16le_push(init, samples.last());
    }
}

/// The little-endian bytes of one sample.
pub fn sample_to_le_bytes(x: i16) -> (r: [u8; 2])
    ensures
        r@ == sample_le_bytes(x),
{
    let bits: i32 = if x < 0 {
        x as i32 + 65536
    } else {
        x as i32
    };
    let r = [(bits % 256) as u8, (bits / 256) as u8];
    assert(r@ =~= sample_le_bytes(x));
    r
}

/// Encodes samples as PCM16LE: each sample's two little-endian bytes, in order.
pub fn samples_to_pcm(samples: &[i16]) -> (bytes: AudioData)
    ensures
        bytes@ == pcm16le(samples@),
        bytes@.len() == 2 * samples@.len(),
{
    let mut bytes: Vec<u8> = Vec::new();
    let mut i: usize = 0;
    while i < samples.len()
        invariant
            i <= samples@.len(),
            bytes@ == pcm16le(samples@.subrange(0, i as int)),
        decreases samples@.len() - i,
    {
        let pair = sample_to_le_bytes(samples[i]);
        proof {
            assert(samples@.subrange(0, i as int).push(samples@[i as int])
                =~= samples@.subrange(0, i + 1));
            lemma_pcm16le_push(samples@.subrange(0, i as int), samples@[i as int]);
        }
        bytes.push(pair[0]);
        bytes.push(pair[1]);
        assert(bytes@ =~= pcm16le(samples@.subrange(0, i + 1)));
        i = i + 1;
    }
    assert(samples@.subrange(0, samples@.len() as int) =~= samples@);
    proof {
        lemma_pcm16le_len(samples@);
    }
    bytes
}

} // verus!
