//! The inference request that carries token ids to the model server. Tensors
//! travel as raw bytes: each 64-bit integer as its eight little-endian bytes.

use vstd::prelude::*;
use vstd::string::*;

verus! {

/// The eight little-endian bytes of a 64-bit integer in two's complement, as
/// `i64::to_le_bytes` gives them.
pub open spec fn le_bytes(x: i64) -> Seq<u8> {
    let v = x as u64;
    seq![
        (v & 0xff) as u8,
        ((v >> 8u64) & 0xff) as u8,
        ((v >> 16u64) & 0xff) as u8,
        ((v >> 24u64) & 0xff) as u8,
        ((v >> 32u64) & 0xff) as u8,
        ((v >> 40u64) & 0xff) as u8,
        ((v >> 48u64) & 0xff) as u8,
        ((v >> 56u64) & 0xff) as u8,
    ]
}

/// The 64-bit integer that eight little-endian bytes hold.
pub open spec fn le_value(b: Seq<u8>) -> i64 {
    ((b[0] as u64) | ((b[1] as u64) << 8u64) | ((b[2] as u64) << 16u64) | ((b[3] as u64) << 24u64)
        | ((b[4] as u64) << 32u64) | ((b[5] as u64) << 40u64) | ((b[6] as u64) << 48u64) | ((
    b[7] as u64) << 56u64)) as i64
}

/// The raw contents of a tensor of 64-bit integers: their bytes one after the
/// other.
pub open spec fn tensor_bytes(values: Seq<i64>) -> Seq<u8>
    decreases values.len(),
{
    if values.len() == 0 {
        Seq::empty()
    } else {
        tensor_bytes(values.drop_last()) + le_bytes(values.last())
    }
}

/// A mask that lets the model attend to each of `n` tokens.
pub open spec fn attention_mask(n: nat) -> Seq<i64> {
    Seq::new(n, |i: int| 1i64)
}

/// Byte `k` of an integer's little-endian bytes is digit `k` of its two's
/// complement bits in base 256, least significant first; and the mask holds a
/// one for each token.
pub proof fn lemma_le_bytes_digits(x: i64, n: nat)
    ensures
        ({
            let v = x as u64;
            let b = le_bytes(x);
            &&& b.len() == 8
            &&& b[0] == (v % 256) as u8
            &&& b[1] == ((v / 0x100) % 256) as u8
            &&& b[2] == ((v / 0x1_0000) % 256) as u8
            &&& b[3] == ((v / 0x100_0000) % 256) as u8
            &&& b[4] == ((v / 0x1_0000_0000) % 256) as u8
            &&& b[5] == ((v / 0x100_0000_0000) % 256) as u8
            &&& b[6] == ((v / 0x1_0000_0000_0000) % 256) as u8
            &&& b[7] == ((v / 0x100_0000_0000_0000) % 256) as u8
        }),
        attention_mask(n).len() == n,
        forall|i: int| 0 <= i < n ==> #[trigger] attention_mask(n)[i] == 1,
{
    let v = x as u64;
    assert((v & 0xff) == v % 256) by (bit_vector);
    assert(((v >> 8u64) & 0xff) == (v / 0x100) % 256) by (bit_vector);
    assert(((v >> 16u64) & 0xff) == (v / 0x1_0000) % 256) by (bit_vector);
    assert(((v >> 24u64) & 0xff) == (v / 0x100_0000) % 256) by (bit_vector);
    assert(((v >> 32u64) & 0xff) == (v / 0x1_0000_0000) % 256) by (bit_vector);
    assert(((v >> 40u64) & 0xff) == (v / 0x100_0000_0000) % 256) by (bit_vector);
    assert(((v >> 48u64) & 0xff) == (v / 0x1_0000_0000_0000) % 256) by (bit_vector);
    assert(((v >> 56u64) & 0xff) == (v / 0x100_0000_0000_0000) % 256) by (bit_vector);
}

/// The bytes of an integer read back give the integer.
pub proof fn lemma_le_bytes_roundtrip(x: i64)
    ensures
        le_bytes(x).len() == 8,
        le_value(le_bytes(x)) == x,
{
    let v = x as u64;
    let b = le_bytes(x);
    let b0 = (v & 0xff) as u8;
    let b1 = ((v >> 8u64) & 0xff) as u8;
    let b2 = ((v >> 16u64) & 0xff) as u8;
    let b3 = ((v >> 24u64) & 0xff) as u8;
    let b4 = ((v >> 32u64) & 0xff) as u8;
    let b5 = ((v >> 40u64) & 0xff) as u8;
    let b6 = ((v >> 48u64) & 0xff) as u8;
    let b7 = ((v >> 56u64) & 0xff) as u8;
    assert(b[0] == b0 && b[1] == b1 && b[2] == b2 && b[3] == b3 && b[4] == b4 && b[5] == b5
        && b[6] == b6 && b[7] == b7);
    assert(((b0 as u64) | ((b1 as u64) << 8u64) | ((b2 as u64) << 16u64) | ((b3 as u64) << 24u64)
        | ((b4 as u64) << 32u64) | ((b5 as u64) << 40u64) | ((b6 as u64) << 48u64) | ((
    b7 as u64) << 56u64)) == v) by (bit_vector)
        requires
            b0 == (v & 0xff) as u8,
            b1 == ((v >> 8u64) & 0xff) as u8,
            b2 == ((v >> 16u64) & 0xff) as u8,
            b3 == ((v >> 24u64) & 0xff) as u8,
            b4 == ((v >> 32u64) & 0xff) as u8,
            b5 == ((v >> 40u64) & 0xff) as u8,
            b6 == ((v >> 48u64) & 0xff) as u8,
            b7 == ((v >> 56u64) & 0xff) as u8,
    ;
    assert((v as i64) == x) by (bit_vector)
        requires
            v == x as u64,
    ;
}

/// A tensor's raw contents hold each value, in order, at eight bytes per value,
/// and reading those bytes back gives the value.
pub proof fn lemma_tensor_layout(values: Seq<i64>, i: int)
    requires
        0 <= i < values.len(),
    ensures
        tensor_bytes(values).len() == 8 * values.len(),
        tensor_bytes(values).subrange(8 * i, 8 * i + 8) == le_bytes(values[i]),
        le_value(tensor_bytes(values).subrange(8 * i, 8 * i + 8)) == values[i],
    decreases values.len(),
{
    lemma_tensor_len(values);
    let prefix = values.drop_last();
    lemma_tensor_len(prefix);
    if i < values.len() - 1 {
        lemma_tensor_layout(prefix, i);
        assert(tensor_bytes(values).subrange(8 * i, 8 * i + 8) =~= tensor_bytes(prefix).subrange(
            8 * i,
            8 * i + 8,
        ));
    } else {
        assert(tensor_bytes(values).subrange(8 * i, 8 * i + 8) =~= le_bytes(values.last()));
    }
    lemma_le_bytes_roundtrip(values[i]);
}

proof fn lemma_tensor_len(values: Seq<i64>)
    ensures
        tensor_bytes(values).len() == 8 * values.len(),
    decreases values.len(),
{
    if values.len() > 0 {
        lemma_tensor_len(values.drop_last());
    }
}

/// Appends the little-endian bytes of an integer.
fn push_le_bytes(out: &mut Vec<u8>, x: i64)
    ensures
        final(out)@ == old(out)@ + le_bytes(x),
{
    let v = x as u64;
    out.push((v & 0xff) as u8);
    out.push(((v >> 8u64) & 0xff) as u8);
    out.push(((v >> 16u64) & 0xff) as u8);
    out.push(((v >> 24u64) & 0xff) as u8);
    out.push(((v >> 32u64) & 0xff) as u8);
    out.push(((v >> 40u64) & 0xff) as u8);
    out.push(((v >> 48u64) & 0xff) as u8);
    out.push(((v >> 56u64) & 0xff) as u8);
    assert(final(out)@ =~= old(out)@ + le_bytes(x));
}

/// The raw contents of a tensor of 64-bit integers.
pub fn tensor_contents(values: &Vec<i64>) -> (res: Vec<u8>)
    ensures
        res@ == tensor_bytes(values@),
{
    let mut res: Vec<u8> = Vec::new();
    let mut i: usize = 0;
    while i < values.len()
        invariant
            i <= values@.len(),
            res@ == tensor_bytes(values@.take(i as int)),
        decreases values@.len() - i,
    {
        push_le_bytes(&mut res, values[i]);
        assert(values@.take(i + 1).drop_last() =~= values@.take(i as int));
        i += 1;
    }
    assert(values@.take(values@.len() as int) =~= values@);
    res
}

/// A named input tensor of the request.
pub struct InferInputTensor {
    pub name: String,
    pub shape: Vec<i64>,
    pub datatype: String,
}

/// A request to the model server: which model, which inputs with their raw
/// contents, and which outputs to return.
pub struct InferRequest {
    pub id: String,
    pub model_name: String,
    pub model_version: String,
    pub inputs: Vec<InferInputTensor>,
    pub outputs: Vec<String>,
    pub raw_input_contents: Vec<Vec<u8>>,
}

/// An input tensor of one row of `n` 64-bit integers.
pub open spec fn is_token_row(t: InferInputTensor, name: Seq<char>, n: nat) -> bool {
    &&& t.name@ == name
    &&& t.shape@ == seq![1i64, n as i64]
    &&& t.datatype@ == "INT64"@
}

fn token_row(name: &str, n: usize) -> (res: InferInputTensor)
    ensures
        is_token_row(res, name@, n as nat),
{
    let mut shape: Vec<i64> = Vec::new();
    shape.push(1);
    shape.push(n as i64);
    assert(shape@ =~= seq![1i64, n as i64]);
    InferInputTensor { name: String::from_str(name), shape, datatype: String::from_str("INT64") }
}

/// The request that embeds one text's tokens with the `specter_proximity`
/// model, version 1: an `input_ids` row of the tokens and an `attention_mask`
/// row of ones, both as little-endian INT64 raw contents, asking for the
/// `embedding` output.
pub fn build_infer_request(tokens: &Vec<i64>) -> (res: InferRequest)
    ensures
        res.id@ == Seq::<char>::empty(),
        res.model_name@ == "specter_proximity"@,
        res.model_version@ == "1"@,
        res.inputs@.len() == 2,
        is_token_row(res.inputs@[0], "input_ids"@, tokens@.len()),
        is_token_row(res.inputs@[1], "attention_mask"@, tokens@.len()),
        res.outputs@.len() == 1,
        res.outputs@[0]@ == "embedding"@,
        res.raw_input_contents@.len() == 2,
        res.raw_input_contents@[0]@ == tensor_bytes(tokens@),
        res.raw_input_contents@[1]@ == tensor_bytes(attention_mask(tokens@.len())),
{
    let n = tokens.len();
    let mut mask: Vec<i64> = Vec::new();
    let mut i: usize = 0;
    while i < n
        invariant
            i <= n,
            mask@ == attention_mask(i as nat),
        decreases n - i,
    {
        mask.push(1);
        assert(mask@ =~= attention_mask((i + 1) as nat));
        i += 1;
    }
    let mut inputs: Vec<InferInputTensor> = Vec::new();
    inputs.push(token_row("input_ids", n));
    inputs.push(token_row("attention_mask", n));
    let mut outputs: Vec<String> = Vec::new();
    outputs.push(String::from_str("embedding"));
    let mut raw_input_contents: Vec<Vec<u8>> = Vec::new();
    raw_input_contents.push(tensor_contents(tokens));
    raw_input_contents.push(tensor_contents(&mask));
    proof {
        reveal_strlit("");
    }
    InferRequest {
        id: String::from_str(""),
        model_name: String::from_str("specter_proximity"),
        model_version: String::from_str("1"),
        inputs,
        outputs,
        raw_input_contents,
    }
}

} // verus!
